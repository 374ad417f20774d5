//! The host-plugin face of the controller: a minimal service exposed over a
//! C-compatible boundary, with the error mapping that boundary needs. The
//! foreign-function plumbing itself (constructors, panic fences, the
//! integer values of the error codes on the wire) lives with the embedding
//! application; the service logic and the mapping are here.

use vstd::prelude::*;

verus! {

/// The service's own error.
#[derive(PartialEq, Eq, Structural, Clone, Copy, Debug)]
pub enum Error {
    Bad,
}

/// The error an embedding application sees across the plugin boundary.
#[derive(PartialEq, Eq, Structural, Clone, Copy, Debug)]
pub enum FanctlFFIError {
    /// No error.
    Succeeded,
    /// A null handle or argument was passed in.
    NullPassed,
    /// The call panicked behind the boundary.
    Panic,
    /// Any error of the service itself.
    OtherError,
}

/// Maps a service error to what the plugin boundary reports.
pub fn ffi_error_from(e: Error) -> (r: FanctlFFIError)
    ensures
        r == FanctlFFIError::OtherError,
{
    match e {
        Error::Bad => FanctlFFIError::OtherError,
    }
}

/// A deliberately small service: it holds one value and hands it back.
pub struct SimpleService {
    /// The value the service was built with.
    pub some_value: u32,
}

impl SimpleService {
    /// Builds the service. Construction cannot fail; the `Result` shape is
    /// what the plugin boundary expects of a constructor.
    pub fn new_with(some_value: u32) -> (r: Result<SimpleService, Error>)
        ensures
            r matches Ok(s) && s.some_value == some_value,
    {
        Ok(SimpleService { some_value })
    }

    /// Echoes its argument. The fallible shape is what the plugin boundary
    /// expects; this service never fails.
    pub fn maybe_fails(&self, x: u32) -> (r: Result<u32, Error>)
        ensures
            r matches Ok(v) && v == x,
    {
        Ok(x)
    }

    /// The held value.
    pub fn just_return_value(&self) -> (r: u32)
        ensures
            r == self.some_value,
    {
        self.some_value
    }
}

} // verus!
