//! Redirect responses.
use crate::cors::header_text_ok;
use vstd::prelude::*;

verus! {

/// A response that sends the client to another location.
#[derive(Debug, Clone)]
pub struct Redirect {
    status_code: u16,
    location: String,
}

impl Redirect {
    /// The status code.
    pub closed spec fn spec_status(&self) -> u16 {
        self.status_code
    }

    /// The text of the target location.
    pub closed spec fn spec_location(&self) -> Seq<char> {
        self.location@
    }

    /// Whether the redirect is sound: a 3xx status, and a location that can
    /// stand in the `Location` header.
    pub open spec fn wf(&self) -> bool {
        300 <= self.spec_status() <= 399 && header_text_ok(self.spec_location())
    }

    /// A `302 Found` redirect to `uri`.
    pub fn found(uri: String) -> (r: Redirect)
        requires
            header_text_ok(uri@),
        ensures
            r.wf(),
            r.spec_status() == 302,
            r.spec_location() == uri@,
    {
        Self::with_status_code(302, uri)
    }

    fn with_status_code(status_code: u16, uri: String) -> (r: Redirect)
        requires
            300 <= status_code <= 399,
            header_text_ok(uri@),
        ensures
            r.wf(),
            r.spec_status() == status_code,
            r.spec_location() == uri@,
    {
        Redirect { status_code, location: uri }
    }

    /// The status code.
    pub fn status_code(&self) -> (r: u16)
        ensures
            r == self.spec_status(),
    {
        self.status_code
    }

    /// The target location.
    pub fn location(&self) -> (r: &str)
        ensures
            r@ == self.spec_location(),
    {
        self.location.as_str()
    }
}

} // verus!
