//! The input channel: a byte region of fixed capacity and a length field.
//!
//! The harness writes one test case into the channel before each execution;
//! the agent inside the target reads `len` bytes from the start of the region.
//! An input longer than the capacity is cut to the capacity: fuzzers produce
//! such inputs all the time, and a long input must not stop the campaign.

use vstd::prelude::*;

verus! {

/// Capacity, in bytes, of the channel that a worker uses by default.
pub const MAX_INPUT_SIZE: usize = 1024;

/// Number of bytes of an input of `input_len` bytes that fit a region of
/// `capacity` bytes.
pub open spec fn stored_len(input_len: nat, capacity: nat) -> nat {
    if input_len > capacity {
        capacity
    } else {
        input_len
    }
}

/// The part of `input` that is delivered through a region of `capacity` bytes:
/// all of it when it fits, else its first `capacity` bytes.
pub open spec fn truncated(input: Seq<u8>, capacity: nat) -> Seq<u8> {
    input.take(stored_len(input.len(), capacity) as int)
}

/// What the target can see of a channel: the whole region and the length field.
pub struct ChannelView {
    /// Every byte of the region, also those past `len`.
    pub region: Seq<u8>,
    /// The length field.
    pub len: nat,
}

impl ChannelView {
    /// The length field never exceeds the region.
    pub open spec fn wf(self) -> bool {
        self.len <= self.region.len()
    }

    /// The test case that the channel holds: the first `len` bytes.
    pub open spec fn payload(self) -> Seq<u8> {
        self.region.take(self.len as int)
    }

    /// The channel after it was cleared: as large as before, all zero, empty.
    pub open spec fn clear(self) -> ChannelView {
        ChannelView { region: Seq::new(self.region.len(), |i: int| 0u8), len: 0 }
    }

    /// The channel after `input` was delivered through it. The bytes past the
    /// new length keep what they held.
    pub open spec fn deliver(self, input: Seq<u8>) -> ChannelView {
        let kept = truncated(input, self.region.len());
        ChannelView { region: kept + self.region.skip(kept.len() as int), len: kept.len() }
    }
}

/// A byte region of fixed capacity with a length field, owned by the harness.
///
/// The region is allocated once, by [`InputBuffer::new`], and is overwritten in
/// place afterwards: no operation changes its capacity.
#[derive(Debug)]
pub struct InputBuffer {
    region: Vec<u8>,
    len: usize,
}

impl View for InputBuffer {
    type V = ChannelView;

    closed spec fn view(&self) -> ChannelView {
        ChannelView { region: self.region@, len: self.len as nat }
    }
}

impl InputBuffer {
    /// Holds of every buffer: the length field is within the region.
    #[verifier::type_invariant]
    pub open spec fn inv(self) -> bool {
        self@.wf()
    }

    /// A zeroed region of `capacity` bytes that holds the empty input.
    pub fn new(capacity: usize) -> (buffer: InputBuffer)
        ensures
            buffer@.region == Seq::new(capacity as nat, |i: int| 0u8),
            buffer@.len == 0,
            buffer@.wf(),
    {
        InputBuffer { region: vec![0u8; capacity], len: 0 }
    }

    /// Capacity of the region in bytes.
    pub fn capacity(&self) -> (capacity: usize)
        ensures
            capacity == self@.region.len(),
    {
        self.region.len()
    }

    /// The length field: how many bytes of the region are the current input.
    pub fn len(&self) -> (len: usize)
        ensures
            len == self@.len,
            len <= self@.region.len(),
    {
        proof {
            use_type_invariant(self);
        }
        self.len
    }

    /// Whether the channel holds the empty input.
    pub fn is_empty(&self) -> (empty: bool)
        ensures
            empty == (self@.len == 0),
    {
        self.len == 0
    }

    /// The whole region, as the target sees it.
    pub fn region(&self) -> (region: &[u8])
        ensures
            region@ == self@.region,
    {
        self.region.as_slice()
    }

    /// The input that the channel holds: the first `len` bytes of the region.
    pub fn payload(&self) -> (payload: Vec<u8>)
        ensures
            payload@ == self@.payload(),
    {
        proof {
            use_type_invariant(self);
        }
        let mut payload: Vec<u8> = Vec::new();
        let mut i: usize = 0;
        while i < self.len
            invariant
                i <= self.len <= self.region.len(),
                payload@ == self.region@.take(i as int),
            decreases self.len - i,
        {
            payload.push(self.region[i]);
            i += 1;
        }
        payload
    }

    /// Clears the channel: every byte of the region becomes zero and the
    /// length field becomes zero. The capacity stays.
    pub fn clear(&mut self)
        ensures
            final(self)@ == old(self)@.clear(),
            final(self)@.wf(),
            final(self)@.len == 0,
            final(self)@.region.len() == old(self)@.region.len(),
            forall|i: int| 0 <= i < final(self)@.region.len() ==> final(self)@.region[i] == 0,
    {
        proof {
            use_type_invariant(&*self);
        }
        let capacity = self.region.len();
        let mut i: usize = 0;
        while i < capacity
            invariant
                i <= capacity,
                self.region.len() == capacity,
                self.len == old(self).len,
                self.len <= capacity,
                forall|j: int| 0 <= j < i ==> self.region@[j] == 0,
            decreases capacity - i,
        {
            self.region[i] = 0;
            i += 1;
        }
        self.len = 0;
        assert(self.region@ =~= Seq::new(capacity as nat, |i: int| 0u8));
    }

    /// Writes `input` into the channel, cut to the capacity where it is longer.
    ///
    /// Afterwards the length field is the smaller of the input's length and the
    /// capacity, and the region starts with that many bytes of the input. The
    /// rest of the region and the capacity are as before.
    pub fn deliver(&mut self, input: &[u8])
        ensures
            final(self)@ == old(self)@.deliver(input@),
            final(self)@.wf(),
            final(self)@.region.len() == old(self)@.region.len(),
            final(self)@.len == stored_len(input@.len(), old(self)@.region.len()),
            final(self)@.payload() == truncated(input@, old(self)@.region.len()),
            input@.len() <= old(self)@.region.len() ==> final(self)@.payload() == input@,
            input@.len() > old(self)@.region.len() ==> {
                &&& final(self)@.len == old(self)@.region.len()
                &&& final(self)@.payload() == input@.take(old(self)@.region.len() as int)
            },
    {
        proof {
            use_type_invariant(&*self);
        }
        let capacity = self.region.len();
        let mut len = input.len();
        if len > capacity {
            len = capacity;
        }
        let mut i: usize = 0;
        while i < len
            invariant
                i <= len <= capacity,
                len <= input@.len(),
                self.region.len() == capacity,
                old(self).region.len() == capacity,
                self.len == old(self).len,
                self.len <= capacity,
                self.region@ == input@.take(i as int) + old(self).region@.skip(i as int),
            decreases len - i,
        {
            self.region[i] = input[i];
            i += 1;
        }
        self.len = len;
    }
}

/// An input that fits the region is delivered whole: the length field is the
/// input's length and the payload is the input.
pub proof fn law_short_input_is_kept(channel: ChannelView, input: Seq<u8>)
    requires
        input.len() <= channel.region.len(),
    ensures
        channel.deliver(input).len == input.len(),
        channel.deliver(input).payload() == input,
        channel.deliver(input).wf(),
{
    let after = channel.deliver(input);
    assert(truncated(input, channel.region.len()) =~= input);
    assert(after.payload() =~= input);
}

/// An input longer than the region is cut to the region's size: the length
/// field is the capacity and the payload is the input's first bytes, as many
/// as the capacity.
pub proof fn law_long_input_is_cut(channel: ChannelView, input: Seq<u8>)
    requires
        input.len() > channel.region.len(),
    ensures
        channel.deliver(input).len == channel.region.len(),
        channel.deliver(input).payload() == input.take(channel.region.len() as int),
        channel.deliver(input).region == input.take(channel.region.len() as int),
        channel.deliver(input).wf(),
{
    let after = channel.deliver(input);
    let kept = input.take(channel.region.len() as int);
    assert(after.region =~= kept);
    assert(after.payload() =~= kept);
}

/// Delivering never changes the capacity, and keeps every byte past the new
/// length as it was.
pub proof fn law_deliver_keeps_the_rest(channel: ChannelView, input: Seq<u8>)
    ensures
        channel.deliver(input).region.len() == channel.region.len(),
        channel.deliver(input).wf(),
        forall|i: int|
            channel.deliver(input).len <= i < channel.region.len() ==> channel.deliver(
                input,
            ).region[i] == channel.region[i],
{
}

/// Delivering the same input twice is the same as delivering it once.
pub proof fn law_deliver_is_idempotent(channel: ChannelView, input: Seq<u8>)
    ensures
        channel.deliver(input).deliver(input) == channel.deliver(input),
{
    let once = channel.deliver(input);
    let twice = once.deliver(input);
    assert(once.region.len() == channel.region.len());
    assert(twice.region =~= once.region);
}

} // verus!
