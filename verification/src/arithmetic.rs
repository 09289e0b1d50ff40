//! Bounds of machine integers.

use vstd::prelude::*;

verus! {

/// The number fits an `i128`.
pub open spec fn fits_i128(n: int) -> bool {
    i128::MIN <= n <= i128::MAX
}

} // verus!
