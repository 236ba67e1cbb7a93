//! Raw kernel handle values as plain integers.
use vstd::prelude::*;

verus! {

/// `INVALID_HANDLE_VALUE` (the pointer value `-1`) as an unsigned integer.
pub const INVALID_HANDLE_VALUE: usize = usize::MAX;

/// A handle is worth closing when it is neither null nor
/// `INVALID_HANDLE_VALUE`.
pub open spec fn spec_is_valid_handle(h: usize) -> bool {
    h != 0 && h != INVALID_HANDLE_VALUE
}

/// Whether `h` names a handle that must be closed.
pub fn is_valid_handle(h: usize) -> (b: bool)
    ensures
        b == spec_is_valid_handle(h),
{
    h != 0 && h != INVALID_HANDLE_VALUE
}

} // verus!
