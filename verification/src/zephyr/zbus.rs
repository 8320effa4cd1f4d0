use core::marker::PhantomData;
use vstd::prelude::*;
use vstd::std_specs::cmp::PartialEqSpec;
use vstd::std_specs::cmp::PartialEqSpecImpl;

use crate::zephyr::ChannelRef;
use crate::zephyr::ObserverRef;

verus! {

/// A zbus channel that carries messages of type `MessageType`. It names the
/// kernel's channel object by its reference; the message type only tells
/// what the channel carries.
#[derive(Debug, Copy)]
pub struct Channel<MessageType> {
    c_reference: ChannelRef,
    phantom: PhantomData<MessageType>,
}

/// Access to the kernel reference that a binding object wraps.
pub trait CStructWrapper {
    type Output;

    fn get_c_reference(&self) -> Self::Output;
}

impl<MessageType> View for Channel<MessageType> {
    type V = ChannelRef;

    /// The kernel channel that this channel names.
    closed spec fn view(&self) -> ChannelRef {
        self.c_reference
    }
}

impl<MessageType> Clone for Channel<MessageType> {
    /// A copy that names the same kernel channel.
    fn clone(&self) -> (r: Self)
        ensures
            r == *self,
    {
        Channel { c_reference: self.c_reference, phantom: PhantomData }
    }
}

impl<MessageType> CStructWrapper for Channel<MessageType> {
    type Output = ChannelRef;

    fn get_c_reference(&self) -> (r: ChannelRef)
        ensures
            r == self@,
    {
        self.c_reference
    }
}

impl<MessageType> PartialEq for Channel<MessageType> {
    fn eq(&self, other: &Self) -> (r: bool) {
        self.c_reference.addr == other.c_reference.addr
    }
}

impl<MessageType> PartialEqSpecImpl for Channel<MessageType> {
    open spec fn obeys_eq_spec() -> bool {
        true
    }

    /// Two channels are equal when they name the same kernel channel.
    open spec fn eq_spec(&self, other: &Self) -> bool {
        self@ == other@
    }
}

impl<MessageType> PartialEq<ChannelRef> for Channel<MessageType> {
    fn eq(&self, other: &ChannelRef) -> (r: bool) {
        self.c_reference.addr == other.addr
    }
}

impl<MessageType> PartialEqSpecImpl<ChannelRef> for Channel<MessageType> {
    open spec fn obeys_eq_spec() -> bool {
        true
    }

    /// A channel equals a kernel reference when it names that channel.
    open spec fn eq_spec(&self, other: &ChannelRef) -> bool {
        self@ == *other
    }
}

impl<MessageType> Channel<MessageType> {
    /// The channel that names the kernel channel `chan_ref`.
    pub fn new(chan_ref: ChannelRef) -> (r: Self)
        ensures
            r@ == chan_ref,
    {
        Channel { c_reference: chan_ref, phantom: PhantomData }
    }

    /// Runs `function` on the claimed channel when the kernel granted the
    /// claim, that is when `claim_status`, the status of `zbus_chan_claim`
    /// on this channel, is zero; the result is then the function's result.
    /// When the claim was refused the function is not run and the status
    /// comes back as the error.
    pub fn claim<F>(&self, claim_status: i32, function: F) -> (r: Result<(), i32>)
        where
            F: FnOnce(ClaimedChannel<MessageType>) -> Result<(), i32>,
        requires
            claim_status == 0 ==> function.requires((ClaimedChannel::spec_new(self),)),
        ensures
            claim_status != 0 ==> r == Err::<(), i32>(claim_status),
            claim_status == 0 ==> function.ensures((ClaimedChannel::spec_new(self),), r),
    {
        if claim_status == 0 {
            function(ClaimedChannel::new(self))
        } else {
            Err(claim_status)
        }
    }
}

/// A channel while it is claimed: its message and user data may be touched
/// until the claim is finished, which consumes it.
pub struct ClaimedChannel<'a, MessageType> {
    channel: &'a Channel<MessageType>,
}

impl<'a, MessageType> View for ClaimedChannel<'a, MessageType> {
    type V = ChannelRef;

    /// The kernel channel that is claimed.
    closed spec fn view(&self) -> ChannelRef {
        self.channel@
    }
}

impl<'a, MessageType> ClaimedChannel<'a, MessageType> {
    /// The claimed form of `chan`.
    pub closed spec fn spec_new(chan: &'a Channel<MessageType>) -> Self {
        ClaimedChannel { channel: chan }
    }

    /// The channel that is claimed.
    pub closed spec fn spec_channel(&self) -> &'a Channel<MessageType> {
        self.channel
    }

    /// Marks `chan` as claimed. [`Channel::claim`] makes the claimed channel
    /// only when the kernel granted the claim; a claimed channel made here
    /// by other means stands for a claim that its maker holds.
    pub fn new(chan: &'a Channel<MessageType>) -> (r: Self)
        ensures
            r == Self::spec_new(chan),
            r.spec_channel() == chan,
            r@ == chan@,
    {
        ClaimedChannel { channel: chan }
    }

    /// The channel that is claimed.
    pub fn channel(&self) -> (r: &'a Channel<MessageType>)
        ensures
            r == self.spec_channel(),
            r@ == self@,
    {
        self.channel
    }

    /// Ends the claim. The claimed channel is consumed, so a claim is
    /// finished at most once, and no access through it can follow; the
    /// result is the kernel channel whose claim is to be released now
    /// (`zbus_chan_finish` on it).
    pub fn finish(self) -> (released: ChannelRef)
        ensures
            released == self@,
    {
        self.channel.c_reference
    }
}

/// A zbus subscriber: an observer that the kernel wakes with the channel
/// that changed.
#[derive(Debug, Copy, Clone)]
pub struct Subscriber {
    c_reference: ObserverRef,
}

impl View for Subscriber {
    type V = ObserverRef;

    /// The kernel observer that this subscriber names.
    closed spec fn view(&self) -> ObserverRef {
        self.c_reference
    }
}

impl CStructWrapper for Subscriber {
    type Output = ObserverRef;

    fn get_c_reference(&self) -> (r: ObserverRef)
        ensures
            r == self@,
    {
        self.c_reference
    }
}

impl Subscriber {
    /// The subscriber that names the kernel observer `sub_ref`.
    pub fn new(sub_ref: ObserverRef) -> (r: Self)
        ensures
            r@ == sub_ref,
    {
        Subscriber { c_reference: sub_ref }
    }
}

/// Channel equality agrees with equality of the kernel references: two
/// channels are equal exactly when each equals the other's reference, and
/// a channel equals exactly one reference, the one it was made from.
pub proof fn lemma_channel_equality<M>(a: Channel<M>, b: Channel<M>, r: ChannelRef)
    ensures
        PartialEqSpec::eq_spec(&a, &b) <==> PartialEqSpec::eq_spec(&a, &b@),
        PartialEqSpec::eq_spec(&a, &b) <==> PartialEqSpec::eq_spec(&b, &a@),
        PartialEqSpec::eq_spec(&a, &r) <==> a@ == r,
        PartialEqSpec::eq_spec(&a, &a),
{
}

/// A channel is determined by the kernel channel it names: rebuilding a
/// channel from the reference of another gives that same channel.
pub proof fn lemma_channel_determined_by_reference<M>(a: Channel<M>, b: Channel<M>)
    requires
        a@ == b@,
    ensures
        a == b,
{
}

} // verus!
