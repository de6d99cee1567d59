//! The traits that the `FromComposite`/`IntoComposite` (and `FromPartial`/`IntoPartial`)
//! derives implement on the input struct.
use vstd::prelude::*;

verus! {

/// Construct the original type from its composite representation plus any fields
/// that were skipped (or otherwise not directly convertible).
///
/// `Args` is a struct containing the extra field values needed to complete the
/// original struct: typically for fields that are skipped, option-wrapped, or
/// type-overridden.
pub trait FromComposite<T>: Sized {
    type Args;

    fn from_composite(composite: T, args: Self::Args) -> Self;
}

/// Convert the original type into its composite representation, discarding any
/// skipped fields.
pub trait IntoComposite<T>: Sized {
    fn into_composite(self) -> T;
}

/// Construct the original type from its partial representation plus the fields that
/// the partial representation cannot give back.
pub trait FromPartial<T>: Sized {
    type Args;

    fn from_partial(partial: T, args: Self::Args) -> Self;
}

/// Convert the original type into its partial representation, discarding any
/// skipped fields.
pub trait IntoPartial<T>: Sized {
    fn into_partial(self) -> T;
}

} // verus!
