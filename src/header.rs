//! Names of the headers that the library itself sets.
use vstd::prelude::*;

verus! {

/// A header that the library sets on responses.
#[derive(PartialEq, Eq, Structural, Clone, Copy, Debug)]
pub enum Header {
    ContentLength,
    ContentType,
    Location,
}

/// The field name of a header.
pub open spec fn header_name(h: Header) -> Seq<char> {
    match h {
        Header::ContentLength => "Content-Length"@,
        Header::ContentType => "Content-Type"@,
        Header::Location => "Location"@,
    }
}

impl Header {
    /// The field name of this header.
    pub fn as_str(&self) -> (r: &'static str)
        ensures
            r@ == header_name(*self),
    {
        match self {
            Header::ContentLength => "Content-Length",
            Header::ContentType => "Content-Type",
            Header::Location => "Location",
        }
    }
}

} // verus!
