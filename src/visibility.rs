//! Visibility tiers of data, and the projection of a value into what may be
//! shown to a client.
use vstd::prelude::*;

verus! {

#[derive(Debug, Clone, Copy, PartialEq, Eq, Structural)]
pub enum Visibility {
    /// Never leaves the core.
    Private,
    /// Logs and diagnostics for administrators.
    Sensitive,
    /// Safe for the user interface, not for the API.
    Sanitized,
    /// Safe everywhere.
    Public,
}

/// A value with a client-safe projection.
pub trait Sanitizable {
    type Sanitized;

    spec fn sanitized_spec(&self) -> Self::Sanitized;

    fn sanitized(&self) -> (r: Self::Sanitized)
        ensures
            r == self.sanitized_spec(),
    ;
}

/// Projects values for the user interface.
pub struct Sanitizer;

impl Sanitizer {
    pub fn for_ui<T: Sanitizable>(data: &T) -> (r: T::Sanitized)
        ensures
            r == data.sanitized_spec(),
    {
        data.sanitized()
    }

    /// Diagnostics stay switched off.
    pub fn diagnostics_enabled() -> (r: bool)
        ensures
            !r,
    {
        false
    }
}

} // verus!
