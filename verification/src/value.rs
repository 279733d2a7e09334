//! Values: immutable byte strings, held as `bytes::Bytes` handles.

use bytes::Bytes;
use vstd::prelude::*;

verus! {

/// `bytes::Bytes`, a shared handle to an immutable run of bytes. Nothing of
/// its representation is visible to the verifier.
#[verifier::external_type_specification]
#[verifier::external_body]
pub struct ExBytes(Bytes);

/// The bytes that a handle gives access to, in order.
pub uninterp spec fn bytes_contents(value: Bytes) -> Seq<u8>;

/// `<Bytes as Clone>::clone`: the new handle refers to the same region of the
/// same buffer as the one it was made from, so both give the same bytes. This
/// is taken from the source of `bytes`, not proved. The call ends the process
/// instead of returning only when more than `usize::MAX / 2` handles to one
/// buffer are alive at once, more than any memory holds.
pub assume_specification[ <Bytes as Clone>::clone ](value: &Bytes) -> (copy: Bytes)
    ensures
        bytes_contents(copy) == bytes_contents(*value),
;

} // verus!
