use vstd::prelude::*;

use crate::error::BridgeError;

verus! {

/// The smallest problem dimension the bridge serves.
pub const MIN_DIM: usize = 1;

/// The largest problem dimension the bridge serves.
pub const MAX_DIM: usize = 15;

/// Whether `n` is one of the dimensions for which a fixed-size instantiation exists.
pub open spec fn supported_dim(n: int) -> bool {
    MIN_DIM <= n <= MAX_DIM
}

/// Checks a caller's dimension against the menu of served sizes, before any
/// optimizer work begins.
pub fn check_dimension(n: usize) -> (r: Result<usize, BridgeError>)
    ensures
        supported_dim(n as int) ==> r == Ok::<usize, BridgeError>(n),
        !supported_dim(n as int) ==> r == Err::<usize, BridgeError>(
            BridgeError::UnsupportedDimension { n },
        ),
{
    if MIN_DIM <= n && n <= MAX_DIM {
        Ok(n)
    } else {
        Err(BridgeError::UnsupportedDimension { n })
    }
}

} // verus!
