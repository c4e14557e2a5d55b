use vstd::prelude::*;

verus! {

/// A native object handle as the host hands it out; zero is the null handle.
pub type Handle = usize;

/// Whether a handle addresses no object.
pub open spec fn spec_is_null(h: Handle) -> bool {
    h == 0
}

/// Tests a handle against the null handle.
pub fn is_null(h: Handle) -> (r: bool)
    ensures
        r == spec_is_null(h),
{
    h == 0
}

} // verus!
