//! Transmit buffer: the bytes that wait to go out over the telemetry link.

use vstd::prelude::*;

verus! {

/// A byte buffer of fixed capacity, filled from the front.
pub struct TxBuffer {
    bytes: Vec<u8>,
    capacity: usize,
}

impl View for TxBuffer {
    type V = Seq<u8>;

    closed spec fn view(&self) -> Seq<u8> {
        self.bytes@
    }
}

impl TxBuffer {
    #[verifier::type_invariant]
    spec fn type_inv(self) -> bool {
        self.bytes@.len() <= self.capacity
    }

    /// How many bytes the buffer can hold.
    pub closed spec fn spec_capacity(&self) -> usize {
        self.capacity
    }

    /// Whether `more` further bytes fit.
    pub open spec fn fits(&self, more: nat) -> bool {
        self@.len() + more <= self.spec_capacity()
    }

    /// An empty buffer for up to `capacity` bytes.
    pub fn new(capacity: usize) -> (buffer: TxBuffer)
        ensures
            buffer@ == Seq::<u8>::empty(),
            buffer.spec_capacity() == capacity,
    {
        TxBuffer { bytes: Vec::new(), capacity }
    }

    /// How many bytes the buffer can hold.
    #[verifier::when_used_as_spec(spec_capacity)]
    pub fn capacity(&self) -> (capacity: usize)
        ensures
            capacity == self.spec_capacity(),
            self@.len() <= capacity,
    {
        proof {
            use_type_invariant(self);
        }
        self.capacity
    }

    /// How many bytes the buffer holds.
    pub fn len(&self) -> (len: usize)
        ensures
            len == self@.len(),
            len <= self.spec_capacity(),
    {
        proof {
            use_type_invariant(self);
        }
        self.bytes.len()
    }

    /// How many more bytes fit.
    pub fn remaining(&self) -> (free: usize)
        ensures
            free == self.spec_capacity() - self@.len(),
    {
        proof {
            use_type_invariant(self);
        }
        self.capacity - self.bytes.len()
    }

    /// The bytes in the buffer, oldest first.
    pub fn as_slice(&self) -> (bytes: &[u8])
        ensures
            bytes@ == self@,
    {
        self.bytes.as_slice()
    }

    /// Empties the buffer.
    pub fn clear(&mut self)
        ensures
            final(self)@ == Seq::<u8>::empty(),
            final(self).spec_capacity() == old(self).spec_capacity(),
    {
        *self = TxBuffer { bytes: Vec::new(), capacity: self.capacity };
    }

    /// Appends `other` if all of it fits, and else leaves the buffer as it
    /// is and says so.
    pub fn extend_from_slice(&mut self, other: &[u8]) -> (r: Result<(), ()>)
        ensures
            r is Ok <==> old(self).fits(other@.len()),
            r is Ok ==> final(self)@ == old(self)@ + other@,
            r is Err ==> final(self)@ == old(self)@,
            final(self).spec_capacity() == old(self).spec_capacity(),
    {
        proof {
            use_type_invariant(&*self);
        }
        if other.len() > self.capacity - self.bytes.len() {
            return Err(());
        }
        let capacity: usize = self.capacity;
        let mut bytes: Vec<u8> = Vec::new();
        core::mem::swap(&mut bytes, &mut self.bytes);
        let mut i: usize = 0;
        while i < other.len()
            invariant
                i <= other@.len(),
                bytes@ == old(self)@ + other@.subrange(0, i as int),
            decreases other@.len() - i,
        {
            bytes.push(other[i]);
            i += 1;
            assert(bytes@ =~= old(self)@ + other@.subrange(0, i as int));
        }
        assert(other@.subrange(0, i as int) =~= other@);
        *self = TxBuffer { bytes, capacity };
        Ok(())
    }
}

} // verus!
