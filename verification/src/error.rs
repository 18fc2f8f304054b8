//! How the failures of a socket operation are told apart.
use vstd::prelude::*;

verus! {

/// `std::io::Error`, carried through unopened.
#[verifier::external_type_specification]
#[verifier::external_body]
pub struct ExIoError(std::io::Error);

/// What a retry decision reads of a failed operation.
#[derive(Clone, Copy, Debug, PartialEq, Eq, Structural)]
pub enum ErrorClass {
    /// A signal cut the operation short before it did anything.
    Interrupted,
    /// The operation cannot make progress without blocking.
    WouldBlock,
    /// Anything else.
    Other,
}

/// The class of the error kind that `std::io::Error::kind` reports.
pub uninterp spec fn class_of(error: std::io::Error) -> ErrorClass;

/// Calls `std::io::Error::kind` and tells `Interrupted` and `WouldBlock` from
/// all other kinds. Claimed: the class depends on the error alone.
#[verifier::external_body]
pub(crate) fn classify(error: &std::io::Error) -> (class: ErrorClass)
    ensures
        class == class_of(*error),
{
    match error.kind() {
        std::io::ErrorKind::Interrupted => ErrorClass::Interrupted,
        std::io::ErrorKind::WouldBlock => ErrorClass::WouldBlock,
        _ => ErrorClass::Other,
    }
}

} // verus!
