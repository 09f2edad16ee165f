use vstd::prelude::*;

verus! {

/// `std::time::SystemTimeError`: the failure of a clock reading that lies
/// before the instant it is measured against. Carried through unread.
#[verifier::external_type_specification]
#[verifier::external_body]
pub struct ExSystemTimeError(std::time::SystemTimeError);

/// The one error type of this crate.
#[derive(Debug)]
pub enum AppError {
    /// A failure described by a message, such as a rejected argument list.
    Custom(String),
    /// The system clock could not be read relative to the Unix epoch.
    SystemTimeError(std::time::SystemTimeError),
}

} // verus!
