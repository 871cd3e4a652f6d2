use vstd::prelude::*;

verus! {

/// A structural sanitization failure.
///
/// Sanitization is the validation performed before any trust decision is
/// made of a transaction; these errors are pre-admission gates, and a caller
/// must reject the transaction outright on any of them.
#[derive(Clone, Copy, Debug, PartialEq, Eq, Structural)]
pub enum SanitizeError {
    IndexOutOfBounds,
    ValueOutOfBounds,
    InvalidValue,
}

} // verus!
