//! Helpers that fill a transmit buffer.

use vstd::prelude::*;
use vstd::string::StringSliceAdditionalSpecFns;
use crate::communication::TxBuffer;

verus! {

/// Appends the bytes of `arg` to the buffer. They have to fit.
pub fn fill_with_bytes(buffer: &mut TxBuffer, arg: &[u8])
    requires
        old(buffer).fits(arg@.len()),
    ensures
        final(buffer)@ == old(buffer)@ + arg@,
        final(buffer).spec_capacity() == old(buffer).spec_capacity(),
{
    let _ = buffer.extend_from_slice(arg);
}

/// Appends the UTF-8 bytes of `arg` to the buffer. They have to fit.
pub fn fill_with_str(buffer: &mut TxBuffer, arg: &str)
    requires
        old(buffer).fits(arg.spec_bytes().len()),
    ensures
        final(buffer)@ == old(buffer)@ + arg.spec_bytes(),
        final(buffer).spec_capacity() == old(buffer).spec_capacity(),
{
    let _ = buffer.extend_from_slice(arg.as_bytes());
}

} // verus!
