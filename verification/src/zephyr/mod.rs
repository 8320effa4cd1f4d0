use vstd::prelude::*;
use vstd::string::StringSliceAdditionalSpecFns;

pub mod zbus;

verus! {

/// The C type of a zbus observer. Values of it live in the kernel; the
/// binding only ever holds references to them ([`ObserverRef`]).
#[allow(non_camel_case_types)]
pub struct struct_zbus_observer {
    _private: [u8; 0],
}

/// The C type of a zbus channel. Values of it live in the kernel; the
/// binding only ever holds references to them ([`ChannelRef`]).
#[allow(non_camel_case_types)]
pub struct struct_zbus_channel {
    _private: [u8; 0],
}

/// A reference to a `struct zbus_channel` of the kernel, held as the address
/// that the C side uses. Address zero is the null reference.
#[derive(Clone, Copy, PartialEq, Eq, Structural, Debug)]
pub struct ChannelRef {
    pub addr: usize,
}

/// A reference to a `struct zbus_observer` of the kernel, held as the address
/// that the C side uses. Address zero is the null reference.
#[derive(Clone, Copy, PartialEq, Eq, Structural, Debug)]
pub struct ObserverRef {
    pub addr: usize,
}

impl ChannelRef {
    /// Whether this is the null reference.
    pub fn is_null(&self) -> (r: bool)
        ensures
            r <==> self.addr == 0,
    {
        self.addr == 0
    }
}

impl ObserverRef {
    /// Whether this is the null reference.
    pub fn is_null(&self) -> (r: bool)
        ensures
            r <==> self.addr == 0,
    {
        self.addr == 0
    }
}

impl struct_zbus_channel {
    /// The null channel reference, used where a read-only reference is
    /// expected before the kernel has filled one in.
    pub fn init() -> (r: ChannelRef)
        ensures
            r.addr == 0,
    {
        ChannelRef { addr: 0 }
    }

    /// The null channel reference, used as the place into which the kernel
    /// writes the channel that woke a subscriber.
    pub fn init_mut() -> (r: ChannelRef)
        ensures
            r.addr == 0,
    {
        ChannelRef { addr: 0 }
    }
}

/// Kernel clock ticks.
#[allow(non_camel_case_types)]
pub type k_ticks = u32;

/// The kernel's timeout value, as the C side lays it out.
#[allow(non_camel_case_types)]
#[derive(Debug, Clone, Copy)]
pub struct struct_k_timeout_t {
    pub ticks: k_ticks,
}

/// Status code with which every zbus and kernel call reports success.
pub const STATUS_OK: i32 = 0;

/// The millisecond argument that the kernel receives for a timeout of
/// `millis` milliseconds: the count taken modulo 2^32, as a cast to `u32`
/// truncates it.
pub open spec fn timeout_ms_spec(millis: u128) -> int {
    millis as int % 0x1_0000_0000
}

/// Converts a timeout given in whole milliseconds into the `u32` millisecond
/// argument of the kernel's timeout constructor. The count is truncated to
/// its low 32 bits; a count that fits in a `u32` is passed unchanged.
pub fn timeout_ms(millis: u128) -> (ms: u32)
    ensures
        ms == timeout_ms_spec(millis),
        millis <= u32::MAX ==> ms == millis,
{
    let ms = (millis & 0xffff_ffffu128) as u32;
    assert(millis & 0xffff_ffffu128 == millis % 0x1_0000_0000) by (bit_vector);
    ms
}

/// How a kernel status code is reported: success when it is zero, otherwise
/// an error that carries the code unchanged.
pub open spec fn status_result_spec(status: i32) -> Result<(), i32> {
    if status == 0 {
        Ok(())
    } else {
        Err(status)
    }
}

/// A status is reported as success exactly when it is zero, and every other
/// status is reported as an error that carries that very code.
pub proof fn lemma_status_result(status: i32)
    ensures
        status_result_spec(status) is Ok <==> status == 0,
        status == 0 ==> status_result_spec(status) == Ok::<(), i32>(()),
        status != 0 ==> status_result_spec(status) == Err::<(), i32>(status),
        forall|s: i32, t: i32|
            status_result_spec(s) == status_result_spec(t) ==> s == t,
{
    assert forall|s: i32, t: i32|
        status_result_spec(s) == status_result_spec(t) implies s == t by {
        if s != 0 && t != 0 {
            assert(status_result_spec(s) == Err::<(), i32>(s));
            assert(status_result_spec(t) == Err::<(), i32>(t));
        }
    }
}

/// Turns the status code returned by a zbus call (publish, notify, finish)
/// into the binding's result: `Ok(())` exactly when the code is zero,
/// `Err(code)` otherwise.
pub fn status_to_result(status: i32) -> (r: Result<(), i32>)
    ensures
        r == status_result_spec(status),
        r is Ok <==> status == 0,
        status == 0 ==> r == Ok::<(), i32>(()),
        status != 0 ==> r == Err::<(), i32>(status),
{
    if status == STATUS_OK {
        Ok(())
    } else {
        Err(status)
    }
}

/// Turns the status code of a zbus call that also produced a value (a read
/// fills in a message, a subscriber's wait fills in a channel) into the
/// binding's result: `Ok(value)` exactly when the code is zero, `Err(code)`
/// otherwise.
pub fn status_to_value<T>(status: i32, value: T) -> (r: Result<T, i32>)
    ensures
        r is Ok <==> status == 0,
        status == 0 ==> r == Ok::<T, i32>(value),
        status != 0 ==> r == Err::<T, i32>(status),
{
    if status == STATUS_OK {
        Ok(value)
    } else {
        Err(status)
    }
}

/// Severity of a log message, from the most to the least severe.
pub enum LogLevel {
    Error,
    Wrn,
    Inf,
    Dbg,
}

/// The number with which the logging backend knows a level: 1 for errors,
/// 2 for warnings, 3 for information, 4 for debug messages.
pub open spec fn level_code(level: LogLevel) -> u8 {
    match level {
        LogLevel::Error => 1,
        LogLevel::Wrn => 2,
        LogLevel::Inf => 3,
        LogLevel::Dbg => 4,
    }
}

impl LogLevel {
    /// The level's number for the logging backend.
    pub fn as_u8(&self) -> (r: u8)
        ensures
            r == level_code(*self),
            1 <= r <= 4,
    {
        match self {
            LogLevel::Error => 1,
            LogLevel::Wrn => 2,
            LogLevel::Inf => 3,
            LogLevel::Dbg => 4,
        }
    }
}

/// Levels that differ have different numbers, and a more severe level has a
/// smaller number.
pub proof fn lemma_level_code_order(a: LogLevel, b: LogLevel)
    ensures
        a != b ==> level_code(a) != level_code(b),
        (a is Error && !(b is Error)) ==> level_code(a) < level_code(b),
        (b is Dbg && !(a is Dbg)) ==> level_code(a) < level_code(b),
{
}

/// Whether a byte sequence holds a NUL byte, which a C string cannot carry.
pub open spec fn has_nul(bytes: Seq<u8>) -> bool {
    exists|i: int| 0 <= i < bytes.len() && bytes[i] == 0
}

/// Only a zero byte keeps bytes from forming a C string: bytes of which none
/// is zero (a newline, a control byte or any other) are accepted, and any
/// zero byte at any place makes them refused.
pub proof fn lemma_has_nul(bytes: Seq<u8>, i: int)
    ensures
        (forall|j: int| 0 <= j < bytes.len() ==> bytes[j] != 0) ==> !has_nul(bytes),
        0 <= i < bytes.len() && bytes[i] == 0 ==> has_nul(bytes),
        0 <= i < bytes.len() && bytes[i] != 0 ==> (has_nul(bytes) <==> has_nul(
            bytes.remove(i),
        )),
{
    if 0 <= i < bytes.len() && bytes[i] != 0 {
        let rest = bytes.remove(i);
        if has_nul(bytes) {
            let k = choose|k: int| 0 <= k < bytes.len() && bytes[k] == 0;
            if k < i {
                assert(rest[k] == 0);
            } else {
                assert(rest[k - 1] == 0);
            }
        }
        if has_nul(rest) {
            let k = choose|k: int| 0 <= k < rest.len() && rest[k] == 0;
            if k < i {
                assert(bytes[k] == 0);
            } else {
                assert(bytes[k + 1] == 0);
            }
        }
    }
}

/// The NUL-terminated C string of `text`, as handed to `printk` and to the
/// logging backend: the UTF-8 bytes of the text followed by one NUL byte.
/// A text that itself holds a NUL byte has no C string, and `None` comes
/// back.
pub fn c_string(text: &str) -> (r: Option<Vec<u8>>)
    ensures
        r is None <==> has_nul(text.spec_bytes()),
        r is None <==> exists|i: int|
            0 <= i < text.spec_bytes().len() && #[trigger] text.spec_bytes()[i] == 0,
        r matches Some(bytes) ==> bytes@ == text.spec_bytes().push(0),
{
    let src = text.as_bytes();
    let mut out: Vec<u8> = Vec::new();
    let mut i: usize = 0;
    while i < src.len()
        invariant
            src@ == text.spec_bytes(),
            i <= src@.len(),
            out@ == src@.subrange(0, i as int),
            forall|j: int| 0 <= j < i ==> src@[j] != 0,
        decreases src@.len() - i,
    {
        if src[i] == 0 {
            return None;
        }
        out.push(src[i]);
        i = i + 1;
    }
    assert(out@ == src@);
    out.push(0);
    Some(out)
}

/// What the logging backend receives for a message of `level` with `text`:
/// the level's number and the text as a C string. A text that holds a NUL
/// byte cannot be passed on, and nothing is logged (`None`).
pub fn log_record(level: LogLevel, text: &str) -> (r: Option<(u8, Vec<u8>)>)
    ensures
        r is None <==> has_nul(text.spec_bytes()),
        r is None <==> exists|i: int|
            0 <= i < text.spec_bytes().len() && #[trigger] text.spec_bytes()[i] == 0,
        r matches Some(rec) ==> rec.0 == level_code(level) && rec.1@ == text.spec_bytes().push(0),
{
    match c_string(text) {
        Some(bytes) => Some((level.as_u8(), bytes)),
        None => None,
    }
}

} // verus!
