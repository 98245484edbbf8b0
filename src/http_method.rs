//! HTTP request methods and their case-insensitive parsing.
use vstd::prelude::*;
use vstd::string::*;

use crate::text::str_eq;

verus! {

/// The request methods that routes can be registered for.
#[derive(PartialEq, Eq, Structural, Clone, Copy, Debug, Hash)]
pub enum HTTPMethod {
    GET,
    POST,
    PUT,
    DELETE,
    UPDATE,
    CONFIG,
    HEAD,
    TRACE,
}

/// The canonical (upper-case) name of a method.
pub open spec fn method_name(m: HTTPMethod) -> Seq<char> {
    match m {
        HTTPMethod::GET => "GET"@,
        HTTPMethod::POST => "POST"@,
        HTTPMethod::PUT => "PUT"@,
        HTTPMethod::DELETE => "DELETE"@,
        HTTPMethod::UPDATE => "UPDATE"@,
        HTTPMethod::CONFIG => "CONFIG"@,
        HTTPMethod::HEAD => "HEAD"@,
        HTTPMethod::TRACE => "TRACE"@,
    }
}

/// The Unicode upper case of a text, as `str::to_uppercase` gives it.
pub uninterp spec fn upper_of(s: Seq<char>) -> Seq<char>;

/// Relies on `str::to_uppercase`: the upper case of the text, by the Unicode case
/// mapping; the result depends on the characters alone.
#[verifier::external_body]
fn uppercase(s: &str) -> (r: String)
    ensures
        r@ == upper_of(s@),
{
    s.to_uppercase()
}

/// Whether a token spells the name of `m` once upper-cased.
pub open spec fn names_method(s: Seq<char>, m: HTTPMethod) -> bool {
    upper_of(s) == method_name(m)
}

/// Different methods have different names.
pub proof fn lemma_method_names_distinct(a: HTTPMethod, b: HTTPMethod)
    ensures
        method_name(a) == method_name(b) ==> a == b,
{
    reveal_strlit("GET");
    reveal_strlit("POST");
    reveal_strlit("PUT");
    reveal_strlit("DELETE");
    reveal_strlit("UPDATE");
    reveal_strlit("CONFIG");
    reveal_strlit("HEAD");
    reveal_strlit("TRACE");
    if a != b && method_name(a).len() == method_name(b).len() {
        assert(method_name(a)[0] != method_name(b)[0]);
    }
}

/// A token names at most one method.
pub proof fn lemma_token_names_one_method(s: Seq<char>, a: HTTPMethod, b: HTTPMethod)
    requires
        names_method(s, a),
        names_method(s, b),
    ensures
        a == b,
{
    lemma_method_names_distinct(a, b);
}

/// A method token that names none of the known methods.
#[derive(Debug)]
pub struct UnknownMethodError {
    method: String,
}

impl UnknownMethodError {
    /// The token that was not recognised, upper-cased.
    pub closed spec fn token(&self) -> Seq<char> {
        self.method@
    }

    /// The token that was not recognised, upper-cased.
    pub fn method(&self) -> (r: &str)
        ensures
            r@ == self.token(),
    {
        self.method.as_str()
    }

    /// A sentence describing the error, naming the upper-cased token.
    pub fn message(&self) -> (r: String)
        ensures
            r@ == "Failed to convert method: `"@ + self.token() + "`"@,
    {
        crate::text::join3("Failed to convert method: `", self.method.as_str(), "`")
    }
}

impl HTTPMethod {
    /// The method whose canonical name is exactly `upper`, if any.
    pub fn from_upper(upper: &str) -> (r: Option<HTTPMethod>)
        ensures
            match r {
                Some(m) => upper@ == method_name(m),
                None => forall|m: HTTPMethod| upper@ != method_name(m),
            },
    {
        let r = if str_eq(upper, "GET") {
            Some(HTTPMethod::GET)
        } else if str_eq(upper, "POST") {
            Some(HTTPMethod::POST)
        } else if str_eq(upper, "PUT") {
            Some(HTTPMethod::PUT)
        } else if str_eq(upper, "DELETE") {
            Some(HTTPMethod::DELETE)
        } else if str_eq(upper, "UPDATE") {
            Some(HTTPMethod::UPDATE)
        } else if str_eq(upper, "CONFIG") {
            Some(HTTPMethod::CONFIG)
        } else if str_eq(upper, "HEAD") {
            Some(HTTPMethod::HEAD)
        } else if str_eq(upper, "TRACE") {
            Some(HTTPMethod::TRACE)
        } else {
            None
        };
        proof {
            if r is None {
                assert forall|m: HTTPMethod| upper@ != method_name(m) by {
                    match m {
                        HTTPMethod::GET => {},
                        HTTPMethod::POST => {},
                        HTTPMethod::PUT => {},
                        HTTPMethod::DELETE => {},
                        HTTPMethod::UPDATE => {},
                        HTTPMethod::CONFIG => {},
                        HTTPMethod::HEAD => {},
                        HTTPMethod::TRACE => {},
                    }
                }
            }
        }
        r
    }

    /// Parses a method token case-insensitively: the token is upper-cased (by the Unicode
    /// case mapping) and must then be a method's name. The error keeps the upper-cased token.
    pub fn parse(s: &str) -> (r: Result<HTTPMethod, UnknownMethodError>)
        ensures
            match r {
                Ok(m) => names_method(s@, m),
                Err(e) => (forall|m: HTTPMethod| !names_method(s@, m)) && e.token() == upper_of(s@),
            },
    {
        let upper = uppercase(s);
        match HTTPMethod::from_upper(upper.as_str()) {
            Some(m) => Ok(m),
            None => Err(UnknownMethodError { method: upper }),
        }
    }

    /// The canonical name of this method.
    pub fn as_str(&self) -> (r: &'static str)
        ensures
            r@ == method_name(*self),
    {
        match self {
            HTTPMethod::GET => "GET",
            HTTPMethod::POST => "POST",
            HTTPMethod::PUT => "PUT",
            HTTPMethod::DELETE => "DELETE",
            HTTPMethod::UPDATE => "UPDATE",
            HTTPMethod::CONFIG => "CONFIG",
            HTTPMethod::HEAD => "HEAD",
            HTTPMethod::TRACE => "TRACE",
        }
    }
}

impl<'a> TryFrom<&'a str> for HTTPMethod {
    type Error = UnknownMethodError;

    /// `parse`.
    fn try_from(value: &'a str) -> (r: Result<HTTPMethod, UnknownMethodError>)
        ensures
            match r {
                Ok(m) => names_method(value@, m),
                Err(e) => (forall|m: HTTPMethod| !names_method(value@, m)) && e.token() == upper_of(
                    value@,
                ),
            },
    {
        HTTPMethod::parse(value)
    }
}

impl<'a> vstd::std_specs::convert::TryFromSpecImpl<&'a str> for HTTPMethod {
    /// The result is described by `try_from`'s own postcondition, not by a spec value.
    open spec fn obeys_try_from_spec() -> bool {
        false
    }

    open spec fn try_from_spec(v: &'a str) -> Result<HTTPMethod, UnknownMethodError> {
        vstd::pervasive::arbitrary()
    }
}

impl TryFrom<String> for HTTPMethod {
    type Error = UnknownMethodError;

    /// `parse`.
    fn try_from(value: String) -> (r: Result<HTTPMethod, UnknownMethodError>)
        ensures
            match r {
                Ok(m) => names_method(value@, m),
                Err(e) => (forall|m: HTTPMethod| !names_method(value@, m)) && e.token() == upper_of(
                    value@,
                ),
            },
    {
        HTTPMethod::parse(value.as_str())
    }
}

impl vstd::std_specs::convert::TryFromSpecImpl<String> for HTTPMethod {
    /// The result is described by `try_from`'s own postcondition, not by a spec value.
    open spec fn obeys_try_from_spec() -> bool {
        false
    }

    open spec fn try_from_spec(v: String) -> Result<HTTPMethod, UnknownMethodError> {
        vstd::pervasive::arbitrary()
    }
}

impl Default for HTTPMethod {
    /// `GET`.
    fn default() -> (r: HTTPMethod)
        ensures
            r == HTTPMethod::GET,
    {
        HTTPMethod::GET
    }
}

} // verus!
