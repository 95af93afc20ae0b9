//! The GSSAPI error taxonomy.
//!
//! A failed provider call reports a major status (a GSS-level routine or
//! calling error) and may attach a mechanism-specific minor status. Both
//! are non-zero words; zero means "no error" and is therefore not a
//! representable error code. Rendering a code as human-readable text needs
//! the provider's `gss_display_status` call and so lives outside the
//! verified library; the codes themselves are plain words with exact
//! constructors.
use vstd::prelude::*;

verus! {

/// A non-zero mechanism-specific (minor) status word.
#[derive(Clone, Copy, Debug, PartialEq, Eq, Structural)]
pub struct MechanismErrorCode {
    code: u32,
}

impl MechanismErrorCode {
    pub closed spec fn spec_code(&self) -> u32 {
        self.code
    }

    /// Wrap a minor status word; zero means "no mechanism error".
    pub fn new(val: u32) -> (r: Option<MechanismErrorCode>)
        ensures
            val == 0 <==> r is None,
            r matches Some(c) ==> c.spec_code() == val && val != 0,
    {
        if val == 0 {
            None
        } else {
            Some(MechanismErrorCode { code: val })
        }
    }

    pub fn code(&self) -> (r: u32)
        ensures
            r == self.spec_code(),
    {
        self.code
    }
}

/// A non-zero GSS major status word.
#[derive(Clone, Copy, Debug, PartialEq, Eq, Structural)]
pub struct GssErrorCode {
    code: u32,
}

impl GssErrorCode {
    pub closed spec fn spec_code(&self) -> u32 {
        self.code
    }

    /// Wrap a major status word; zero is `GSS_S_COMPLETE`, not an error.
    pub fn new(val: u32) -> (r: Option<GssErrorCode>)
        ensures
            val == 0 <==> r is None,
            r matches Some(c) ==> c.spec_code() == val && val != 0,
    {
        if val == 0 {
            None
        } else {
            Some(GssErrorCode { code: val })
        }
    }

    pub fn code(&self) -> (r: u32)
        ensures
            r == self.spec_code(),
    {
        self.code
    }
}

/// A failed GSSAPI call: either the GSS-level major status or, when the
/// mechanism attached detail, the mechanism's minor status.
#[derive(Clone, Copy, Debug, PartialEq, Eq, Structural)]
pub enum Error {
    Gss(GssErrorCode),
    Mechanism(MechanismErrorCode),
}

impl Error {
    /// Classify a major status word as an error, if it is one.
    pub fn gss(val: u32) -> (r: Option<Error>)
        ensures
            val == 0 <==> r is None,
            r matches Some(e) ==> e matches Error::Gss(c) && c.spec_code() == val,
    {
        match GssErrorCode::new(val) {
            Some(code) => Some(Error::Gss(code)),
            None => None,
        }
    }

    /// Classify a minor status word as an error, if it is one.
    pub fn mechanism(val: u32) -> (r: Option<Error>)
        ensures
            val == 0 <==> r is None,
            r matches Some(e) ==> e matches Error::Mechanism(c) && c.spec_code() == val,
    {
        match MechanismErrorCode::new(val) {
            Some(code) => Some(Error::Mechanism(code)),
            None => None,
        }
    }
}

} // verus!
