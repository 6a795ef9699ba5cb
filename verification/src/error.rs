//! An opaque carrier of an `HRESULT` code, used to propagate failures
//! across abstraction boundaries.

use crate::hresult::HRESULT;
use vstd::prelude::*;

verus! {

/// An error value: a carrier of the [`HRESULT`] code that caused it.
#[derive(Copy, Clone, Debug, PartialEq, Eq, Structural)]
#[must_use]
pub struct Error {
    code: HRESULT,
}

impl Error {
    /// The code this error carries.
    pub closed spec fn spec_code(self) -> HRESULT {
        self.code
    }

    /// The error value that carries the given code.
    pub closed spec fn spec_from_hresult(code: HRESULT) -> Error {
        Error { code }
    }

    /// The error built from a code carries exactly that code.
    pub proof fn lemma_spec_from_hresult_code(code: HRESULT)
        ensures
            Error::spec_from_hresult(code).spec_code() == code,
    {
    }

    /// Builds the error that carries the given code.
    pub fn from_hresult(code: HRESULT) -> (r: Error)
        ensures
            r == Error::spec_from_hresult(code),
            r.spec_code() == code,
    {
        Error { code }
    }

    /// Returns the code this error carries.
    pub fn code(&self) -> (r: HRESULT)
        ensures
            r == self.spec_code(),
    {
        self.code
    }
}

} // verus!
