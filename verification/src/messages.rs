use vstd::prelude::*;

verus! {

/// Firmware version carried by the version channel and by the user data of
/// the accelerometer channel.
#[allow(non_camel_case_types)]
#[derive(Debug, Default, Clone, Copy, PartialEq, Eq, Structural)]
pub struct struct_version_msg {
    pub major: u8,
    pub minor: u8,
    pub build: u16,
}

/// One accelerometer sample.
#[allow(non_camel_case_types)]
#[derive(Debug, Default, Clone, Copy, PartialEq, Eq, Structural)]
pub struct struct_acc_msg {
    pub x: i32,
    pub y: i32,
    pub z: i32,
}

/// Acknowledgement of a sample, numbered in sequence.
#[allow(non_camel_case_types)]
#[derive(Debug, Default, Clone, Copy, PartialEq, Eq, Structural)]
pub struct struct_ack_msg {
    pub sequence: u64,
}

/// Whether the producer can step `acc` without overflowing one of its axes.
pub open spec fn can_advance(acc: struct_acc_msg) -> bool {
    &&& acc.x + 1 <= i32::MAX
    &&& acc.y + 2 <= i32::MAX
    &&& acc.z + 3 <= i32::MAX
}

/// A sample can be stepped exactly when no axis would pass `i32::MAX`;
/// whatever the sign of an axis, only its distance from the top counts, so
/// a sample that is nowhere above one that can be stepped can be stepped too.
pub proof fn lemma_can_advance(acc: struct_acc_msg, lower: struct_acc_msg)
    ensures
        can_advance(acc) <==> (acc.x < i32::MAX && acc.y <= i32::MAX - 2 && acc.z
            <= i32::MAX - 3),
        (acc.x <= 0 && acc.y <= 0 && acc.z <= 0) ==> can_advance(acc),
        (can_advance(acc) && lower.x <= acc.x && lower.y <= acc.y && lower.z <= acc.z)
            ==> can_advance(lower),
{
}

impl struct_acc_msg {
    /// Steps the sample that the producer publishes next: `x` grows by 1,
    /// `y` by 2 and `z` by 3. When one of them would overflow the sample is
    /// left as it was and `false` comes back.
    pub fn advance(&mut self) -> (stepped: bool)
        ensures
            stepped <==> can_advance(*old(self)),
            stepped <==> (old(self).x + 1 <= i32::MAX && old(self).y + 2 <= i32::MAX
                && old(self).z + 3 <= i32::MAX),
            stepped ==> final(self).x == old(self).x + 1 && final(self).y == old(self).y + 2
                && final(self).z == old(self).z + 3,
            !stepped ==> *final(self) == *old(self),
    {
        if self.x < i32::MAX && self.y <= i32::MAX - 2 && self.z <= i32::MAX - 3 {
            self.x = self.x + 1;
            self.y = self.y + 2;
            self.z = self.z + 3;
            true
        } else {
            false
        }
    }
}

} // verus!
