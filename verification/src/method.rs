//! The HTTP methods of the requests that are signed and sent.

use vstd::prelude::*;
use vstd::string::*;

verus! {

/// The HTTP methods the signing engine is asked to sign.
#[derive(Debug, Clone, Copy, PartialEq, Eq, Structural)]
pub enum ApiCallMethod {
    POST,
    DELETE,
    GET,
}

impl ApiCallMethod {
    /// The method's name as it stands on the request line and in a signature base string.
    pub open spec fn name(self) -> Seq<char> {
        match self {
            ApiCallMethod::POST => "POST"@,
            ApiCallMethod::DELETE => "DELETE"@,
            ApiCallMethod::GET => "GET"@,
        }
    }

    /// The method's name as an owned string.
    pub fn to_text(self) -> (r: String)
        ensures
            r@ == self.name(),
    {
        String::from_str(self.as_str())
    }

    /// The method's name.
    pub fn as_str(&self) -> (r: &'static str)
        ensures
            r@ == self.name(),
    {
        match self {
            ApiCallMethod::POST => "POST",
            ApiCallMethod::DELETE => "DELETE",
            ApiCallMethod::GET => "GET",
        }
    }
}

} // verus!
