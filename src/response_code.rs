//! HTTP status codes and their reason phrases.
use vstd::prelude::*;

verus! {

/// The status codes this library knows by name.
#[derive(PartialEq, Eq, Structural, Clone, Copy, Debug)]
pub enum ResponseCode {
    OK,
    Created,
    Accepted,
    NonAuthoritativeInformation,
    NoContent,
    ResetContent,
    PartialContent,
    MultiStatus,
    AlreadyReported,
    IMUsed,
    MultipleChoices,
    MovedPermanently,
    Found,
    SeeOther,
    NotModified,
    TemporaryRedirect,
    PermanentRedirect,
    BadRequest,
    Unauthorized,
    PaymentRequired,
    Forbidden,
    NotFound,
    MethodNotAllowed,
    NotAcceptable,
    ProxyAuthenticationRequired,
    RequestTimeout,
    Conflict,
    Gone,
    LengthRequired,
    PreconditionFailed,
    ContentTooLarge,
    URITooLong,
    UnsupportedMediaType,
    RangeNotSatisfiable,
    ExpectationFailed,
    ImATeapot,
    MisdirectedRequest,
    UnprocessableContent,
    Locked,
    FailedDependency,
    TooEarly,
    UpgradeRequired,
    PreconditionRequired,
    TooManyRequests,
    RequestHeaderFieldsTooLarge,
    UnavailableForLegalReasons,
    InternalServerError,
    NotImplemented,
    BadGateway,
    ServiceUnavailable,
    GatewayTimeout,
    HTTPVersionNotSupported,
    VariantAlsoNegotiates,
    InsufficientStorage,
    LoopDetected,
    NotExtended,
    NetworkAuthenticationRequired,
}

/// The number of a status code.
pub open spec fn code_of(c: ResponseCode) -> u32 {
    match c {
        ResponseCode::OK => 200,
        ResponseCode::Created => 201,
        ResponseCode::Accepted => 202,
        ResponseCode::NonAuthoritativeInformation => 203,
        ResponseCode::NoContent => 204,
        ResponseCode::ResetContent => 205,
        ResponseCode::PartialContent => 206,
        ResponseCode::MultiStatus => 207,
        ResponseCode::AlreadyReported => 208,
        ResponseCode::IMUsed => 226,
        ResponseCode::MultipleChoices => 300,
        ResponseCode::MovedPermanently => 301,
        ResponseCode::Found => 302,
        ResponseCode::SeeOther => 303,
        ResponseCode::NotModified => 304,
        ResponseCode::TemporaryRedirect => 307,
        ResponseCode::PermanentRedirect => 308,
        ResponseCode::BadRequest => 400,
        ResponseCode::Unauthorized => 401,
        ResponseCode::PaymentRequired => 402,
        ResponseCode::Forbidden => 403,
        ResponseCode::NotFound => 404,
        ResponseCode::MethodNotAllowed => 405,
        ResponseCode::NotAcceptable => 406,
        ResponseCode::ProxyAuthenticationRequired => 407,
        ResponseCode::RequestTimeout => 408,
        ResponseCode::Conflict => 409,
        ResponseCode::Gone => 410,
        ResponseCode::LengthRequired => 411,
        ResponseCode::PreconditionFailed => 412,
        ResponseCode::ContentTooLarge => 413,
        ResponseCode::URITooLong => 414,
        ResponseCode::UnsupportedMediaType => 415,
        ResponseCode::RangeNotSatisfiable => 416,
        ResponseCode::ExpectationFailed => 417,
        ResponseCode::ImATeapot => 418,
        ResponseCode::MisdirectedRequest => 421,
        ResponseCode::UnprocessableContent => 422,
        ResponseCode::Locked => 423,
        ResponseCode::FailedDependency => 424,
        ResponseCode::TooEarly => 425,
        ResponseCode::UpgradeRequired => 426,
        ResponseCode::PreconditionRequired => 428,
        ResponseCode::TooManyRequests => 429,
        ResponseCode::RequestHeaderFieldsTooLarge => 431,
        ResponseCode::UnavailableForLegalReasons => 451,
        ResponseCode::InternalServerError => 500,
        ResponseCode::NotImplemented => 501,
        ResponseCode::BadGateway => 502,
        ResponseCode::ServiceUnavailable => 503,
        ResponseCode::GatewayTimeout => 504,
        ResponseCode::HTTPVersionNotSupported => 505,
        ResponseCode::VariantAlsoNegotiates => 506,
        ResponseCode::InsufficientStorage => 507,
        ResponseCode::LoopDetected => 508,
        ResponseCode::NotExtended => 510,
        ResponseCode::NetworkAuthenticationRequired => 511,
    }
}

/// The canonical reason phrase of a status code.
pub open spec fn reason_of(c: ResponseCode) -> Seq<char> {
    match c {
        ResponseCode::OK => "OK"@,
        ResponseCode::Created => "Created"@,
        ResponseCode::Accepted => "Accepted"@,
        ResponseCode::NonAuthoritativeInformation => "Non-Authoritative Information"@,
        ResponseCode::NoContent => "No Content"@,
        ResponseCode::ResetContent => "Reset Content"@,
        ResponseCode::PartialContent => "Partial Content"@,
        ResponseCode::MultiStatus => "Multi-Status"@,
        ResponseCode::AlreadyReported => "Already Reported"@,
        ResponseCode::IMUsed => "IM Used"@,
        ResponseCode::MultipleChoices => "Multiple Choices"@,
        ResponseCode::MovedPermanently => "Moved Permanently"@,
        ResponseCode::Found => "Found"@,
        ResponseCode::SeeOther => "See Other"@,
        ResponseCode::NotModified => "Not Modified"@,
        ResponseCode::TemporaryRedirect => "Temporary Redirect"@,
        ResponseCode::PermanentRedirect => "Permanent Redirect"@,
        ResponseCode::BadRequest => "Bad Request"@,
        ResponseCode::Unauthorized => "Unauthorized"@,
        ResponseCode::PaymentRequired => "Payment Required"@,
        ResponseCode::Forbidden => "Forbidden"@,
        ResponseCode::NotFound => "Not Found"@,
        ResponseCode::MethodNotAllowed => "Method Not Allowed"@,
        ResponseCode::NotAcceptable => "Not Acceptable"@,
        ResponseCode::ProxyAuthenticationRequired => "Proxy Authentication Required"@,
        ResponseCode::RequestTimeout => "Request Timeout"@,
        ResponseCode::Conflict => "Conflict"@,
        ResponseCode::Gone => "Gone"@,
        ResponseCode::LengthRequired => "Length Required"@,
        ResponseCode::PreconditionFailed => "Precondition Failed"@,
        ResponseCode::ContentTooLarge => "Content Too Large"@,
        ResponseCode::URITooLong => "URI Too Long"@,
        ResponseCode::UnsupportedMediaType => "Unsupported Media Type"@,
        ResponseCode::RangeNotSatisfiable => "Range Not Satisfiable"@,
        ResponseCode::ExpectationFailed => "Expectation Failed"@,
        ResponseCode::ImATeapot => "I'm a teapot"@,
        ResponseCode::MisdirectedRequest => "Misdirected Request"@,
        ResponseCode::UnprocessableContent => "Unprocessable Content"@,
        ResponseCode::Locked => "Locked"@,
        ResponseCode::FailedDependency => "Failed Dependency"@,
        ResponseCode::TooEarly => "Too Early"@,
        ResponseCode::UpgradeRequired => "Upgrade Required"@,
        ResponseCode::PreconditionRequired => "Precondition Required"@,
        ResponseCode::TooManyRequests => "Too Many Requests"@,
        ResponseCode::RequestHeaderFieldsTooLarge => "Request Header Fields Too Large"@,
        ResponseCode::UnavailableForLegalReasons => "Unavailable For Legal Reasons"@,
        ResponseCode::InternalServerError => "Internal Server Error"@,
        ResponseCode::NotImplemented => "Not Implemented"@,
        ResponseCode::BadGateway => "Bad Gateway"@,
        ResponseCode::ServiceUnavailable => "Service Unavailable"@,
        ResponseCode::GatewayTimeout => "Gateway Timeout"@,
        ResponseCode::HTTPVersionNotSupported => "HTTP Version Not Supported"@,
        ResponseCode::VariantAlsoNegotiates => "Variant Also Negotiates"@,
        ResponseCode::InsufficientStorage => "Insufficient Storage"@,
        ResponseCode::LoopDetected => "Loop Detected"@,
        ResponseCode::NotExtended => "Not Extended"@,
        ResponseCode::NetworkAuthenticationRequired => "Network Authentication Required"@,
    }
}

/// Whether `n` is the number of a known status code.
pub open spec fn is_known_code(n: u32) -> bool {
    exists|c: ResponseCode| code_of(c) == n
}

/// The reason phrase that goes with a status number: empty for an unknown number.
pub open spec fn status_reason(n: u32) -> Seq<char> {
    if is_known_code(n) {
        reason_of(choose|c: ResponseCode| code_of(c) == n)
    } else {
        Seq::empty()
    }
}

/// Distinct status codes have distinct numbers.
pub proof fn lemma_code_injective(a: ResponseCode, b: ResponseCode)
    ensures
        code_of(a) == code_of(b) ==> a == b,
{
}

impl ResponseCode {
    /// The number of this status code.
    pub fn code(&self) -> (r: u32)
        ensures
            r == code_of(*self),
    {
        match self {
            ResponseCode::OK => 200,
            ResponseCode::Created => 201,
            ResponseCode::Accepted => 202,
            ResponseCode::NonAuthoritativeInformation => 203,
            ResponseCode::NoContent => 204,
            ResponseCode::ResetContent => 205,
            ResponseCode::PartialContent => 206,
            ResponseCode::MultiStatus => 207,
            ResponseCode::AlreadyReported => 208,
            ResponseCode::IMUsed => 226,
            ResponseCode::MultipleChoices => 300,
            ResponseCode::MovedPermanently => 301,
            ResponseCode::Found => 302,
            ResponseCode::SeeOther => 303,
            ResponseCode::NotModified => 304,
            ResponseCode::TemporaryRedirect => 307,
            ResponseCode::PermanentRedirect => 308,
            ResponseCode::BadRequest => 400,
            ResponseCode::Unauthorized => 401,
            ResponseCode::PaymentRequired => 402,
            ResponseCode::Forbidden => 403,
            ResponseCode::NotFound => 404,
            ResponseCode::MethodNotAllowed => 405,
            ResponseCode::NotAcceptable => 406,
            ResponseCode::ProxyAuthenticationRequired => 407,
            ResponseCode::RequestTimeout => 408,
            ResponseCode::Conflict => 409,
            ResponseCode::Gone => 410,
            ResponseCode::LengthRequired => 411,
            ResponseCode::PreconditionFailed => 412,
            ResponseCode::ContentTooLarge => 413,
            ResponseCode::URITooLong => 414,
            ResponseCode::UnsupportedMediaType => 415,
            ResponseCode::RangeNotSatisfiable => 416,
            ResponseCode::ExpectationFailed => 417,
            ResponseCode::ImATeapot => 418,
            ResponseCode::MisdirectedRequest => 421,
            ResponseCode::UnprocessableContent => 422,
            ResponseCode::Locked => 423,
            ResponseCode::FailedDependency => 424,
            ResponseCode::TooEarly => 425,
            ResponseCode::UpgradeRequired => 426,
            ResponseCode::PreconditionRequired => 428,
            ResponseCode::TooManyRequests => 429,
            ResponseCode::RequestHeaderFieldsTooLarge => 431,
            ResponseCode::UnavailableForLegalReasons => 451,
            ResponseCode::InternalServerError => 500,
            ResponseCode::NotImplemented => 501,
            ResponseCode::BadGateway => 502,
            ResponseCode::ServiceUnavailable => 503,
            ResponseCode::GatewayTimeout => 504,
            ResponseCode::HTTPVersionNotSupported => 505,
            ResponseCode::VariantAlsoNegotiates => 506,
            ResponseCode::InsufficientStorage => 507,
            ResponseCode::LoopDetected => 508,
            ResponseCode::NotExtended => 510,
            ResponseCode::NetworkAuthenticationRequired => 511,
        }
    }

    /// The canonical reason phrase of this status code.
    pub fn reason(&self) -> (r: &'static str)
        ensures
            r@ == reason_of(*self),
    {
        match self {
            ResponseCode::OK => "OK",
            ResponseCode::Created => "Created",
            ResponseCode::Accepted => "Accepted",
            ResponseCode::NonAuthoritativeInformation => "Non-Authoritative Information",
            ResponseCode::NoContent => "No Content",
            ResponseCode::ResetContent => "Reset Content",
            ResponseCode::PartialContent => "Partial Content",
            ResponseCode::MultiStatus => "Multi-Status",
            ResponseCode::AlreadyReported => "Already Reported",
            ResponseCode::IMUsed => "IM Used",
            ResponseCode::MultipleChoices => "Multiple Choices",
            ResponseCode::MovedPermanently => "Moved Permanently",
            ResponseCode::Found => "Found",
            ResponseCode::SeeOther => "See Other",
            ResponseCode::NotModified => "Not Modified",
            ResponseCode::TemporaryRedirect => "Temporary Redirect",
            ResponseCode::PermanentRedirect => "Permanent Redirect",
            ResponseCode::BadRequest => "Bad Request",
            ResponseCode::Unauthorized => "Unauthorized",
            ResponseCode::PaymentRequired => "Payment Required",
            ResponseCode::Forbidden => "Forbidden",
            ResponseCode::NotFound => "Not Found",
            ResponseCode::MethodNotAllowed => "Method Not Allowed",
            ResponseCode::NotAcceptable => "Not Acceptable",
            ResponseCode::ProxyAuthenticationRequired => "Proxy Authentication Required",
            ResponseCode::RequestTimeout => "Request Timeout",
            ResponseCode::Conflict => "Conflict",
            ResponseCode::Gone => "Gone",
            ResponseCode::LengthRequired => "Length Required",
            ResponseCode::PreconditionFailed => "Precondition Failed",
            ResponseCode::ContentTooLarge => "Content Too Large",
            ResponseCode::URITooLong => "URI Too Long",
            ResponseCode::UnsupportedMediaType => "Unsupported Media Type",
            ResponseCode::RangeNotSatisfiable => "Range Not Satisfiable",
            ResponseCode::ExpectationFailed => "Expectation Failed",
            ResponseCode::ImATeapot => "I'm a teapot",
            ResponseCode::MisdirectedRequest => "Misdirected Request",
            ResponseCode::UnprocessableContent => "Unprocessable Content",
            ResponseCode::Locked => "Locked",
            ResponseCode::FailedDependency => "Failed Dependency",
            ResponseCode::TooEarly => "Too Early",
            ResponseCode::UpgradeRequired => "Upgrade Required",
            ResponseCode::PreconditionRequired => "Precondition Required",
            ResponseCode::TooManyRequests => "Too Many Requests",
            ResponseCode::RequestHeaderFieldsTooLarge => "Request Header Fields Too Large",
            ResponseCode::UnavailableForLegalReasons => "Unavailable For Legal Reasons",
            ResponseCode::InternalServerError => "Internal Server Error",
            ResponseCode::NotImplemented => "Not Implemented",
            ResponseCode::BadGateway => "Bad Gateway",
            ResponseCode::ServiceUnavailable => "Service Unavailable",
            ResponseCode::GatewayTimeout => "Gateway Timeout",
            ResponseCode::HTTPVersionNotSupported => "HTTP Version Not Supported",
            ResponseCode::VariantAlsoNegotiates => "Variant Also Negotiates",
            ResponseCode::InsufficientStorage => "Insufficient Storage",
            ResponseCode::LoopDetected => "Loop Detected",
            ResponseCode::NotExtended => "Not Extended",
            ResponseCode::NetworkAuthenticationRequired => "Network Authentication Required",
        }
    }

    /// The status code with number `n`, if there is one.
    pub fn from_code(n: u32) -> (r: Option<ResponseCode>)
        ensures
            match r {
                Some(c) => code_of(c) == n,
                None => !is_known_code(n),
            },
    {
        match n {
            200 => Some(ResponseCode::OK),
            201 => Some(ResponseCode::Created),
            202 => Some(ResponseCode::Accepted),
            203 => Some(ResponseCode::NonAuthoritativeInformation),
            204 => Some(ResponseCode::NoContent),
            205 => Some(ResponseCode::ResetContent),
            206 => Some(ResponseCode::PartialContent),
            207 => Some(ResponseCode::MultiStatus),
            208 => Some(ResponseCode::AlreadyReported),
            226 => Some(ResponseCode::IMUsed),
            300 => Some(ResponseCode::MultipleChoices),
            301 => Some(ResponseCode::MovedPermanently),
            302 => Some(ResponseCode::Found),
            303 => Some(ResponseCode::SeeOther),
            304 => Some(ResponseCode::NotModified),
            307 => Some(ResponseCode::TemporaryRedirect),
            308 => Some(ResponseCode::PermanentRedirect),
            400 => Some(ResponseCode::BadRequest),
            401 => Some(ResponseCode::Unauthorized),
            402 => Some(ResponseCode::PaymentRequired),
            403 => Some(ResponseCode::Forbidden),
            404 => Some(ResponseCode::NotFound),
            405 => Some(ResponseCode::MethodNotAllowed),
            406 => Some(ResponseCode::NotAcceptable),
            407 => Some(ResponseCode::ProxyAuthenticationRequired),
            408 => Some(ResponseCode::RequestTimeout),
            409 => Some(ResponseCode::Conflict),
            410 => Some(ResponseCode::Gone),
            411 => Some(ResponseCode::LengthRequired),
            412 => Some(ResponseCode::PreconditionFailed),
            413 => Some(ResponseCode::ContentTooLarge),
            414 => Some(ResponseCode::URITooLong),
            415 => Some(ResponseCode::UnsupportedMediaType),
            416 => Some(ResponseCode::RangeNotSatisfiable),
            417 => Some(ResponseCode::ExpectationFailed),
            418 => Some(ResponseCode::ImATeapot),
            421 => Some(ResponseCode::MisdirectedRequest),
            422 => Some(ResponseCode::UnprocessableContent),
            423 => Some(ResponseCode::Locked),
            424 => Some(ResponseCode::FailedDependency),
            425 => Some(ResponseCode::TooEarly),
            426 => Some(ResponseCode::UpgradeRequired),
            428 => Some(ResponseCode::PreconditionRequired),
            429 => Some(ResponseCode::TooManyRequests),
            431 => Some(ResponseCode::RequestHeaderFieldsTooLarge),
            451 => Some(ResponseCode::UnavailableForLegalReasons),
            500 => Some(ResponseCode::InternalServerError),
            501 => Some(ResponseCode::NotImplemented),
            502 => Some(ResponseCode::BadGateway),
            503 => Some(ResponseCode::ServiceUnavailable),
            504 => Some(ResponseCode::GatewayTimeout),
            505 => Some(ResponseCode::HTTPVersionNotSupported),
            506 => Some(ResponseCode::VariantAlsoNegotiates),
            507 => Some(ResponseCode::InsufficientStorage),
            508 => Some(ResponseCode::LoopDetected),
            510 => Some(ResponseCode::NotExtended),
            511 => Some(ResponseCode::NetworkAuthenticationRequired),
            _ => None,
        }
    }
}

impl From<ResponseCode> for u32 {
    /// The number of the status code.
    fn from(value: ResponseCode) -> (r: u32)
        ensures
            r == code_of(value),
    {
        value.code()
    }
}

impl vstd::std_specs::convert::FromSpecImpl<ResponseCode> for u32 {
    open spec fn obeys_from_spec() -> bool {
        true
    }

    open spec fn from_spec(v: ResponseCode) -> u32 {
        code_of(v)
    }
}

/// The reason phrase for a status number, or the empty string for an unknown number.
pub fn status_text(n: u32) -> (r: &'static str)
    ensures
        r@ == status_reason(n),
{
    match ResponseCode::from_code(n) {
        Some(c) => {
            proof {
                assert(is_known_code(n));
                lemma_code_injective(c, choose|d: ResponseCode| code_of(d) == n);
            }
            c.reason()
        },
        None => {
            proof {
                reveal_strlit("");
            }
            assert(""@ =~= Seq::<char>::empty());
            ""
        },
    }
}

} // verus!
