//! Responses: a status, a header map and a body, with their wire form.
use vstd::prelude::*;
use vstd::string::*;
use vstd::utf8::encode_utf8;

use crate::header::{header_name, Header};
use crate::response_code::{status_reason, status_text};
use crate::str_map::{
    entries_map, lemma_sorted_entries, pairs_of, sorted_entries, sorted_keys, StrMap,
};
use crate::text::{decimal, decimal_string, join3};
use crate::utils::{construct_message, message_page};

verus! {

/// The header block lines, `name: value` followed by CRLF, in the given order.
pub open spec fn header_lines(s: Seq<(Seq<char>, Seq<char>)>) -> Seq<char>
    decreases s.len(),
{
    if s.len() == 0 {
        Seq::empty()
    } else {
        header_lines(s.drop_last()) + s.last().0 + ": "@ + s.last().1 + "\r\n"@
    }
}

/// The status line of a response, CRLF included.
pub open spec fn status_line(status: u32) -> Seq<char> {
    "HTTP/1.1 "@ + decimal(status as nat) + " "@ + status_reason(status) + "\r\n"@
}

/// The text before the body: status line, header lines in key order, blank line.
pub open spec fn head_text(status: u32, headers: Map<Seq<char>, Seq<char>>) -> Seq<char> {
    status_line(status) + header_lines(sorted_entries(headers)) + "\r\n"@
}

/// The bytes sent for a response.
pub open spec fn wire(status: u32, headers: Map<Seq<char>, Seq<char>>, content: Seq<u8>) -> Seq<u8> {
    encode_utf8(head_text(status, headers)) + content
}

/// The header map holding only a Content-Length for `n` bytes.
pub open spec fn length_headers(n: nat) -> Map<Seq<char>, Seq<char>> {
    map![header_name(Header::ContentLength) => decimal(n)]
}

/// The canned 404 page: status 404, the HTML page naming "Not Found", its Content-Length.
pub open spec fn is_not_found_page(r: &Response) -> bool {
    &&& r.status == 404
    &&& r.content@ == encode_utf8(message_page("Not Found"@))
    &&& r.headers@ == length_headers(encode_utf8(message_page("Not Found"@)).len())
}

/// A response under construction.
#[derive(Debug)]
pub struct Response {
    pub status: u32,
    pub headers: StrMap,
    pub content: Vec<u8>,
}

impl Response {
    /// Status 200, no headers, empty body.
    pub fn new() -> (r: Response)
        ensures
            r.status == 200,
            r.headers@ == Map::<Seq<char>, Seq<char>>::empty(),
            r.content@.len() == 0,
    {
        Response { status: 200, headers: StrMap::new(), content: Vec::new() }
    }

    /// The given status, no headers, empty body.
    pub fn from_status(status: u32) -> (r: Response)
        ensures
            r.status == status,
            r.headers@ == Map::<Seq<char>, Seq<char>>::empty(),
            r.content@.len() == 0,
    {
        Response { status, headers: StrMap::new(), content: Vec::new() }
    }

    /// Status 200 with the given body and its Content-Length.
    pub fn from_content_bytevec(content: Vec<u8>) -> (r: Response)
        ensures
            r.status == 200,
            r.headers@ == length_headers(content@.len()),
            r.content@ == content@,
    {
        let mut headers = StrMap::new();
        let n = decimal_string(content.len() as u64);
        headers.insert(Header::ContentLength.as_str(), n.as_str());
        proof {
            assert(headers@ =~= length_headers(content@.len()));
        }
        Response { status: 200, headers, content }
    }

    /// Status 200 with the UTF-8 bytes of the text as body, and their Content-Length.
    pub fn from_content_string(content: String) -> (r: Response)
        ensures
            r.status == 200,
            r.headers@ == length_headers(encode_utf8(content@).len()),
            r.content@ == encode_utf8(content@),
    {
        let bytes = content.as_str().as_bytes_vec();
        Response::from_content_bytevec(bytes)
    }

    /// An HTML page: the text as body, with Content-Length and `Content-Type: text/html`.
    pub fn html(content: String) -> (r: Response)
        ensures
            r.status == 200,
            r.headers@ == length_headers(encode_utf8(content@).len()).insert(
                header_name(Header::ContentType),
                "text/html"@,
            ),
            r.content@ == encode_utf8(content@),
    {
        Response::from_content_string(content).with_header(Header::ContentType.as_str(), "text/html")
    }

    /// The canned 404 page.
    pub fn not_found() -> (r: Response)
        ensures
            is_not_found_page(&r),
    {
        let message = construct_message("Not Found".to_owned());
        let r = Response::from_status(404).with_content(message.as_str().as_bytes_vec());
        proof {
            assert(r.headers@ =~= length_headers(encode_utf8(message_page("Not Found"@)).len()));
        }
        r
    }

    /// A temporary (307) redirect to `url`.
    pub fn redirect(url: &str) -> (r: Response)
        ensures
            r.status == 307,
            r.headers@ == map![header_name(Header::Location) => url@],
            r.content@.len() == 0,
    {
        let r = Response::from_status(307).with_header(Header::Location.as_str(), url);
        proof {
            assert(r.headers@ =~= map![header_name(Header::Location) => url@]);
        }
        r
    }

    /// The response for a file that was read (`Some` bytes) or could not be read (500).
    pub fn from_read(read: Option<Vec<u8>>) -> (r: Response)
        ensures
            match read {
                Some(bytes) => r.status == 200 && r.content@ == bytes@ && r.headers@
                    == length_headers(bytes@.len()),
                None => r.status == 500 && r.content@.len() == 0 && r.headers@ == Map::<
                    Seq<char>,
                    Seq<char>,
                >::empty(),
            },
    {
        match read {
            Some(bytes) => Response::from_content_bytevec(bytes),
            None => Response::from_status(500),
        }
    }

    /// Replaces the body and sets its Content-Length.
    pub fn set_content(&mut self, content: Vec<u8>)
        ensures
            final(self).status == old(self).status,
            final(self).headers@ == old(self).headers@.insert(
                header_name(Header::ContentLength),
                decimal(content@.len()),
            ),
            final(self).content@ == content@,
    {
        let n = decimal_string(content.len() as u64);
        self.headers.insert(Header::ContentLength.as_str(), n.as_str());
        self.content = content;
    }

    /// Replaces the status.
    pub fn set_status(&mut self, status: u32)
        ensures
            final(self).status == status,
            final(self).headers@ == old(self).headers@,
            final(self).content@ == old(self).content@,
    {
        self.status = status;
    }

    /// Stores a header, replacing any earlier value under the same name.
    pub fn set_header(&mut self, key: &str, value: &str)
        ensures
            final(self).status == old(self).status,
            final(self).headers@ == old(self).headers@.insert(key@, value@),
            final(self).content@ == old(self).content@,
    {
        self.headers.insert(key, value);
    }

    /// `set_content`, returning the response.
    pub fn with_content(self, content: Vec<u8>) -> (r: Response)
        ensures
            r.status == self.status,
            r.headers@ == self.headers@.insert(
                header_name(Header::ContentLength),
                decimal(content@.len()),
            ),
            r.content@ == content@,
    {
        let mut r = self;
        r.set_content(content);
        r
    }

    /// `set_status`, returning the response.
    pub fn with_status(self, status: u32) -> (r: Response)
        ensures
            r.status == status,
            r.headers@ == self.headers@,
            r.content@ == self.content@,
    {
        let mut r = self;
        r.set_status(status);
        r
    }

    /// `set_header`, returning the response.
    pub fn with_header(self, key: &str, value: &str) -> (r: Response)
        ensures
            r.status == self.status,
            r.headers@ == self.headers@.insert(key@, value@),
            r.content@ == self.content@,
    {
        let mut r = self;
        r.set_header(key, value);
        r
    }

    /// The bytes to send: status line, header lines, blank line, body.
    pub fn build(self) -> (r: Vec<u8>)
        ensures
            r@ == wire(self.status, self.headers@, self.content@),
            sorted_keys(sorted_entries(self.headers@)),
            entries_map(sorted_entries(self.headers@)) == self.headers@,
    {
        let status_number = decimal_string(self.status as u64);
        let mut head = join3("HTTP/1.1 ", status_number.as_str(), " ");
        head = head.concat(status_text(self.status));
        head = head.concat("\r\n");
        let ghost start = head@;
        assert(start == status_line(self.status));
        let entries = self.headers.entries();
        let ghost es = pairs_of(entries@);
        let mut i: usize = 0;
        while i < entries.len()
            invariant
                i <= entries@.len(),
                es == pairs_of(entries@),
                head@ == start + header_lines(es.subrange(0, i as int)),
            decreases entries@.len() - i,
        {
            let ghost before = head@;
            head = head.concat(entries[i].0.as_str());
            head = head.concat(": ");
            head = head.concat(entries[i].1.as_str());
            head = head.concat("\r\n");
            proof {
                let sub = es.subrange(0, i + 1);
                assert(sub.drop_last() =~= es.subrange(0, i as int));
                assert(head@ =~= start + header_lines(sub));
            }
            i = i + 1;
        }
        assert(es.subrange(0, i as int) =~= es);
        head = head.concat("\r\n");
        assert(head@ =~= head_text(self.status, self.headers@));
        let mut out = head.as_str().as_bytes_vec();
        let mut content = self.content;
        out.append(&mut content);
        out
    }
}

/// Two responses whose status, header map and body agree serialise to the same bytes,
/// whatever order their headers were set in.
pub proof fn lemma_build_is_pure(a: &Response, b: &Response)
    requires
        a.status == b.status,
        a.headers@ == b.headers@,
        a.content@ == b.content@,
    ensures
        wire(a.status, a.headers@, a.content@) == wire(b.status, b.headers@, b.content@),
{
}

/// Setting two different headers in either order gives the same bytes.
pub proof fn lemma_header_order_irrelevant(
    status: u32,
    headers: Map<Seq<char>, Seq<char>>,
    content: Seq<u8>,
    k1: Seq<char>,
    v1: Seq<char>,
    k2: Seq<char>,
    v2: Seq<char>,
)
    requires
        k1 != k2,
    ensures
        wire(status, headers.insert(k1, v1).insert(k2, v2), content) == wire(
            status,
            headers.insert(k2, v2).insert(k1, v1),
            content,
        ),
{
    assert(headers.insert(k1, v1).insert(k2, v2) =~= headers.insert(k2, v2).insert(k1, v1));
}

/// A response made from bytes serialises to its status line, one Content-Length line
/// giving the number of bytes, the blank line, and then the bytes themselves.
pub proof fn lemma_bytes_round_trip(bytes: Seq<u8>)
    ensures
        wire(200, length_headers(bytes.len()), bytes) == encode_utf8(
            status_line(200) + header_name(Header::ContentLength) + ": "@ + decimal(bytes.len())
                + "\r\n"@ + "\r\n"@,
        ) + bytes,
        ({
            let w = wire(200, length_headers(bytes.len()), bytes);
            w.subrange(w.len() - bytes.len(), w.len() as int) == bytes
        }),
{
    let entry = (header_name(Header::ContentLength), decimal(bytes.len()));
    let s = seq![entry];
    assert(s.drop_last() =~= Seq::<(Seq<char>, Seq<char>)>::empty());
    assert(entries_map(s.drop_last()) == Map::<Seq<char>, Seq<char>>::empty());
    assert(header_lines(s.drop_last()) == Seq::<char>::empty());
    assert(entries_map(s) =~= length_headers(bytes.len()));
    lemma_sorted_entries(s);
    assert(header_lines(s) =~= entry.0 + ": "@ + entry.1 + "\r\n"@);
    let w = wire(200, length_headers(bytes.len()), bytes);
    let head = encode_utf8(head_text(200, length_headers(bytes.len())));
    assert(head_text(200, length_headers(bytes.len())) =~= status_line(200) + header_name(
        Header::ContentLength,
    ) + ": "@ + decimal(bytes.len()) + "\r\n"@ + "\r\n"@);
    assert(w.subrange(head.len() as int, w.len() as int) =~= bytes);
}

/// The 404 page has a non-empty HTML body that names the status.
pub proof fn lemma_not_found_page()
    ensures
        message_page("Not Found"@).subrange(12, 21) == "Not Found"@,
        encode_utf8(message_page("Not Found"@)).len() > 0,
{
    reveal_strlit("<center><h1>");
    reveal_strlit("Not Found");
    let page = message_page("Not Found"@);
    assert(page.subrange(12, 21) =~= "Not Found"@);
    assert(page.len() > 0);
}

impl From<Vec<u8>> for Response {
    /// `from_content_bytevec`.
    fn from(value: Vec<u8>) -> (r: Response)
        ensures
            r.status == 200,
            r.headers@ == length_headers(value@.len()),
            r.content@ == value@,
    {
        Response::from_content_bytevec(value)
    }
}

impl vstd::std_specs::convert::FromSpecImpl<Vec<u8>> for Response {
    /// The result is described by `from`'s own postcondition, not by a spec value.
    open spec fn obeys_from_spec() -> bool {
        false
    }

    open spec fn from_spec(v: Vec<u8>) -> Response {
        vstd::pervasive::arbitrary()
    }
}

impl From<String> for Response {
    /// `from_content_string`.
    fn from(value: String) -> (r: Response)
        ensures
            r.status == 200,
            r.headers@ == length_headers(encode_utf8(value@).len()),
            r.content@ == encode_utf8(value@),
    {
        Response::from_content_string(value)
    }
}

impl vstd::std_specs::convert::FromSpecImpl<String> for Response {
    /// The result is described by `from`'s own postcondition, not by a spec value.
    open spec fn obeys_from_spec() -> bool {
        false
    }

    open spec fn from_spec(v: String) -> Response {
        vstd::pervasive::arbitrary()
    }
}

impl From<&str> for Response {
    /// `from_content_string` on a copy of the text.
    fn from(value: &str) -> (r: Response)
        ensures
            r.status == 200,
            r.headers@ == length_headers(encode_utf8(value@).len()),
            r.content@ == encode_utf8(value@),
    {
        Response::from_content_string(value.to_owned())
    }
}

impl vstd::std_specs::convert::FromSpecImpl<&str> for Response {
    /// The result is described by `from`'s own postcondition, not by a spec value.
    open spec fn obeys_from_spec() -> bool {
        false
    }

    open spec fn from_spec(v: &str) -> Response {
        vstd::pervasive::arbitrary()
    }
}

impl Default for Response {
    /// Status 200, no headers, empty body.
    fn default() -> (r: Response)
        ensures
            r.status == 200,
            r.headers@ == Map::<Seq<char>, Seq<char>>::empty(),
            r.content@.len() == 0,
    {
        Response::new()
    }
}

} // verus!
