//! A value of one of two shapes, as the wire format uses for arguments
//! that are either a single string or a list of strings.

use vstd::prelude::*;

verus! {

/// One of two alternatives.
#[derive(Clone, Debug)]
pub enum Either<L, R> {
    /// The first alternative.
    Left(L),
    /// The second alternative.
    Right(R),
}

} // verus!
