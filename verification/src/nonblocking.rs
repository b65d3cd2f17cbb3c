//! Declaration of the would-block signalling type of the `nb` crate.

use vstd::prelude::*;

verus! {

/// Relies on `nb::Error`, a plain public enum of the `nb` crate:
/// `WouldBlock` marks a transient, retriable condition and `Other` carries a
/// fatal error. The declaration only makes the enum and its variants visible
/// to the verifier; nothing else of the crate is assumed.
#[verifier::external_type_specification]
#[verifier::reject_recursive_types(E)]
pub struct ExNbError<E>(nb::Error<E>);

} // verus!
