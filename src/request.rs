//! Requests, and parsing them from the lines of a request head.
use vstd::prelude::*;
use vstd::string::*;

use crate::http_method::{names_method, HTTPMethod, UnknownMethodError};
use crate::str_map::StrMap;
use crate::template::{captured_groups, regex_groups};
use crate::text::{find_char, first_index};

verus! {

/// A request: its method, the path it asks for, and its headers.
#[derive(Debug)]
pub struct Request {
    pub method: HTTPMethod,
    pub url: String,
    pub headers: StrMap,
}

impl Request {
    /// A `GET` request for the empty path, without headers.
    pub fn new() -> (r: Request)
        ensures
            r.method == HTTPMethod::GET,
            r.url@.len() == 0,
            r.headers@ == Map::<Seq<char>, Seq<char>>::empty(),
    {
        Request { method: HTTPMethod::GET, url: String::new(), headers: StrMap::new() }
    }
}

impl Clone for Request {
    /// A copy with the same method, URL and headers.
    fn clone(&self) -> (r: Request)
        ensures
            r.method == self.method,
            r.url@ == self.url@,
            r.headers@ == self.headers@,
    {
        Request { method: self.method, url: self.url.clone(), headers: self.headers.clone() }
    }
}

impl Default for Request {
    /// A `GET` request for the empty path, without headers.
    fn default() -> (r: Request)
        ensures
            r.method == HTTPMethod::GET,
            r.url@.len() == 0,
            r.headers@ == Map::<Seq<char>, Seq<char>>::empty(),
    {
        Request::new()
    }
}

/// The pattern of a header line: a name of ASCII letters, `-` and `_`, a colon, at most
/// one space, and a non-empty value.
pub open spec fn header_pattern() -> Seq<char> {
    "([a-zA-Z-_]+):\\s?(.+)"@
}

/// The header map after a line whose pattern groups are `groups`: the first group names
/// the header, the second is its value; no match (or fewer groups) leaves it unchanged.
pub open spec fn with_header_groups(
    m: Map<Seq<char>, Seq<char>>,
    groups: Option<Seq<Seq<char>>>,
) -> Map<Seq<char>, Seq<char>> {
    match groups {
        Some(g) => if g.len() >= 2 {
            m.insert(g[0], g[1])
        } else {
            m
        },
        None => m,
    }
}

/// The captured texts as character sequences.
pub open spec fn groups_view(groups: Option<Vec<String>>) -> Option<Seq<Seq<char>>> {
    match groups {
        Some(g) => Some(g@.map_values(|s: String| s@)),
        None => None,
    }
}

/// Adds the header that a matched header line captured: the first group is its name, the
/// second its value. `None` (the line did not match) leaves the map unchanged.
pub fn add_header(headers: &mut StrMap, groups: Option<Vec<String>>)
    ensures
        final(headers)@ == with_header_groups(old(headers)@, groups_view(groups)),
{
    match groups {
        Some(g) => {
            if g.len() >= 2 {
                headers.insert(g[0].as_str(), g[1].as_str());
            }
        },
        None => {},
    }
}

/// The header map of a list of header lines: each line that the header pattern matches
/// sets its name to its value (a later line wins); other lines are skipped.
pub open spec fn headers_from(lines: Seq<Seq<char>>) -> Map<Seq<char>, Seq<char>>
    decreases lines.len(),
{
    if lines.len() == 0 {
        Map::empty()
    } else {
        with_header_groups(headers_from(lines.drop_last()), regex_groups(header_pattern(), lines.last()))
    }
}

/// Parses header lines into a header map.
pub fn parse_headers(header_lines: Vec<String>) -> (r: StrMap)
    ensures
        r@ == headers_from(header_lines@.map_values(|s: String| s@)),
{
    let ghost ls = header_lines@.map_values(|s: String| s@);
    let mut headers = StrMap::new();
    let mut i: usize = 0;
    while i < header_lines.len()
        invariant
            i <= header_lines@.len(),
            ls == header_lines@.map_values(|s: String| s@),
            headers@ == headers_from(ls.subrange(0, i as int)),
        decreases header_lines@.len() - i,
    {
        assert(ls.subrange(0, i + 1).drop_last() =~= ls.subrange(0, i as int));
        let groups = captured_groups("([a-zA-Z-_]+):\\s?(.+)", header_lines[i].as_str());
        add_header(&mut headers, groups);
        i = i + 1;
    }
    assert(ls.subrange(0, i as int) =~= ls);
    headers
}

/// Why a request head could not be parsed.
#[derive(Debug)]
pub enum RequestError {
    /// No request line.
    Empty,
    /// The request line has no space after the method.
    Malformed,
    /// The method token names no known method.
    UnknownMethod(UnknownMethodError),
}

/// The text before the first space of a request line.
pub open spec fn method_token(line: Seq<char>) -> Seq<char> {
    line.subrange(0, first_index(line, ' '))
}

/// The request target: the text after the first space, up to the next space.
pub open spec fn request_target(line: Seq<char>) -> Seq<char> {
    let rest = line.subrange(first_index(line, ' ') + 1, line.len() as int);
    rest.subrange(0, first_index(rest, ' '))
}

/// The path of a request target: the text before its first `?`.
pub open spec fn target_path(target: Seq<char>) -> Seq<char> {
    target.subrange(0, first_index(target, '?'))
}

/// Parses the lines of a request head: the request line (`METHOD target ...`) and the
/// header lines after it. The URL is the target's path, without its query. A method
/// token that names no known method fails the parse rather than falling back to `GET`.
pub fn parse_request(lines: &Vec<String>) -> (r: Result<Request, RequestError>)
    ensures
        lines@.len() == 0 ==> (r matches Err(RequestError::Empty)),
        lines@.len() > 0 ==> ({
            let line = lines@[0]@;
            if first_index(line, ' ') == line.len() {
                r matches Err(RequestError::Malformed)
            } else if forall|m: HTTPMethod| !names_method(method_token(line), m) {
                r matches Err(RequestError::UnknownMethod(_))
            } else {
                &&& r matches Ok(req)
                &&& names_method(method_token(line), req.method)
                &&& req.url@ == target_path(request_target(line))
                &&& req.headers@ == headers_from(
                    lines@.subrange(1, lines@.len() as int).map_values(|s: String| s@),
                )
            }
        }),
{
    if lines.len() == 0 {
        return Err(RequestError::Empty);
    }
    let line = lines[0].as_str();
    let n = line.unicode_len();
    let sp = find_char(line, ' ');
    if sp == n {
        return Err(RequestError::Malformed);
    }
    let method = match HTTPMethod::parse(line.substring_char(0, sp)) {
        Ok(m) => m,
        Err(e) => {
            return Err(RequestError::UnknownMethod(e));
        },
    };
    let rest = line.substring_char(sp + 1, n);
    let target = rest.substring_char(0, find_char(rest, ' '));
    let path = target.substring_char(0, find_char(target, '?'));
    let mut header_lines: Vec<String> = Vec::new();
    let mut i: usize = 1;
    while i < lines.len()
        invariant
            1 <= i <= lines@.len(),
            header_lines@.len() == i - 1,
            forall|j: int| 0 <= j < i - 1 ==> (#[trigger] header_lines@[j])@ == lines@[j + 1]@,
        decreases lines@.len() - i,
    {
        let copy = lines[i].clone();
        header_lines.push(copy);
        i = i + 1;
    }
    assert(header_lines@.map_values(|s: String| s@) =~= lines@.subrange(1, lines@.len() as int).map_values(
        |s: String| s@,
    ));
    let headers = parse_headers(header_lines);
    assert(names_method(method_token(lines@[0]@), method));
    Ok(Request { method, url: path.to_owned(), headers })
}

} // verus!
