use vstd::prelude::*;

verus! {

/// Marks the types that this crate's extension traits are implemented for;
/// it cannot be named outside the crate, so nobody else can implement them.
pub trait Sealed {
}

/// Marks the types that can be a link of an error's chain or become an
/// error; as `Sealed`, it cannot be named outside the crate.
pub trait SealedCause {
}

} // verus!
