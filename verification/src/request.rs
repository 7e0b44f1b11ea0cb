//! The parsed representation of an incoming message: verb, path, headers
//! in insertion order, and an optional body payload that can be taken at
//! most once.
use vstd::prelude::*;

use crate::HeaderField;
use crate::HeaderFieldView;
use crate::HttpVerb;
use crate::Payload;
use crate::PayloadView;
use crate::byteseq::all_digits;
use crate::byteseq::ascii_of;
use crate::byteseq::bytes_eq;
use crate::byteseq::clone_bytes;
use crate::byteseq::copy_range;
use crate::byteseq::dec_val;
use crate::byteseq::parse_usize;
use crate::byteseq::str_bytes;

verus! {

/// The first header with the given name, scanning from position `i`.
pub open spec fn first_header_from(headers: Seq<HeaderFieldView>, name: Seq<u8>, i: int) -> Option<
    Seq<u8>,
>
    decreases headers.len() - i,
{
    if i < 0 || i >= headers.len() {
        None
    } else if headers[i].name == name {
        Some(headers[i].value)
    } else {
        first_header_from(headers, name, i + 1)
    }
}

/// The value of the first header with the given name, if any.
pub open spec fn lookup_header(headers: Seq<HeaderFieldView>, name: Seq<u8>) -> Option<Seq<u8>> {
    first_header_from(headers, name, 0)
}

/// Whitespace that may pad the entries of a comma-separated header value.
pub open spec fn is_list_ws(b: u8) -> bool {
    b == 32 || b == 9
}

/// Distance from `start` to the next comma, or to the end of `v`.
pub open spec fn comma_offset(v: Seq<u8>, start: int) -> nat
    decreases v.len() - start,
{
    if start < 0 || start >= v.len() {
        0
    } else if v[start] == 44 {
        0
    } else {
        1 + comma_offset(v, start + 1)
    }
}

/// First position at or after `s` (below `e`) that is not list whitespace.
pub open spec fn trim_start_pos(v: Seq<u8>, s: int, e: int) -> int
    decreases e - s,
{
    if s >= e || !is_list_ws(v[s]) {
        s
    } else {
        trim_start_pos(v, s + 1, e)
    }
}

/// Last position at or before `e` (above `s`) with no trailing list
/// whitespace before it.
pub open spec fn trim_end_pos(v: Seq<u8>, s: int, e: int) -> int
    decreases e - s,
{
    if e <= s || !is_list_ws(v[e - 1]) {
        e
    } else {
        trim_end_pos(v, s, e - 1)
    }
}

/// Some entry of the comma-separated list `v`, taken from `start` on and
/// trimmed of surrounding spaces and tabs, names the gzip coding.
pub open spec fn accepts_gzip_from(v: Seq<u8>, start: int) -> bool
    decreases v.len() - start,
{
    if !(0 <= start <= v.len()) {
        false
    } else {
        let e = start + comma_offset(v, start);
        let ts = trim_start_pos(v, start, e);
        let te = trim_end_pos(v, ts, e);
        if v.subrange(ts, te) == ascii_of("gzip"@) {
            true
        } else if e < v.len() {
            accepts_gzip_from(v, e + 1)
        } else {
            false
        }
    }
}

/// The declared body length: the `Content-Length` value when it is a
/// non-empty digit string whose value fits in `usize`.
pub open spec fn spec_content_length(req: RequestView) -> Option<nat> {
    match lookup_header(req.headers, ascii_of("Content-Length"@)) {
        Option::None => None,
        Option::Some(v) => if v.len() > 0 && all_digits(v) && dec_val(v) <= usize::MAX {
            Some(dec_val(v))
        } else {
            None
        },
    }
}

/// The request negotiated the gzip content coding through its
/// `Accept-Encoding` header.
pub open spec fn spec_wants_gzip(req: RequestView) -> bool {
    match lookup_header(req.headers, ascii_of("Accept-Encoding"@)) {
        Option::Some(v) => accepts_gzip_from(v, 0),
        Option::None => false,
    }
}

pub struct Request {
    verb: HttpVerb,
    path: Vec<u8>,
    headers: Vec<HeaderField>,
    body: Option<Payload>,
}

pub struct RequestView {
    pub verb: HttpVerb,
    pub path: Seq<u8>,
    pub headers: Seq<HeaderFieldView>,
    pub body: Option<PayloadView>,
}

impl View for Request {
    type V = RequestView;

    closed spec fn view(&self) -> RequestView {
        RequestView {
            verb: self.verb,
            path: self.path@,
            headers: self.headers@.map_values(|h: HeaderField| h@),
            body: match self.body {
                Some(p) => Some(p@),
                None => None,
            },
        }
    }
}

impl Request {
    pub fn new(verb: HttpVerb, path: Vec<u8>) -> (r: Request)
        ensures
            r@.verb == verb,
            r@.path == path@,
            r@.headers == Seq::<HeaderFieldView>::empty(),
            r@.body is None,
    {
        let r = Request { verb, path, headers: Vec::new(), body: None };
        proof {
            assert(r@.headers =~= Seq::<HeaderFieldView>::empty());
        }
        r
    }

    pub fn verb(&self) -> (r: HttpVerb)
        ensures
            r == self@.verb,
    {
        self.verb
    }

    pub fn path(&self) -> (r: &Vec<u8>)
        ensures
            r@ == self@.path,
    {
        &self.path
    }

    /// Takes the body; afterwards no body is left to take.
    pub fn body(&mut self) -> (r: Option<Payload>)
        ensures
            final(self)@.verb == old(self)@.verb,
            final(self)@.path == old(self)@.path,
            final(self)@.headers == old(self)@.headers,
            final(self)@.body is None,
            r is Some <==> old(self)@.body is Some,
            r is Some ==> r->0@ == old(self)@.body->0,
    {
        self.body.take()
    }

    /// Appends a header; insertion order is preserved.
    pub fn add_header(&mut self, name: &Vec<u8>, value: &Vec<u8>)
        ensures
            final(self)@.verb == old(self)@.verb,
            final(self)@.path == old(self)@.path,
            final(self)@.body == old(self)@.body,
            final(self)@.headers == old(self)@.headers.push(
                HeaderFieldView { name: name@, value: value@ },
            ),
    {
        self.headers.push(HeaderField::new(name, value));
        proof {
            assert(self@.headers =~= old(self)@.headers.push(
                HeaderFieldView { name: name@, value: value@ },
            ));
        }
    }

    /// The value of the first header whose name equals `needle` exactly.
    pub fn get_header(&self, needle: &Vec<u8>) -> (r: Option<Vec<u8>>)
        ensures
            r is Some <==> lookup_header(self@.headers, needle@) is Some,
            r is Some ==> r->0@ == lookup_header(self@.headers, needle@)->0,
    {
        let mut i: usize = 0;
        while i < self.headers.len()
            invariant
                i <= self.headers.len(),
                lookup_header(self@.headers, needle@) == first_header_from(
                    self@.headers,
                    needle@,
                    i as int,
                ),
            decreases self.headers.len() - i,
        {
            if bytes_eq(&self.headers[i].name, needle) {
                return Some(clone_bytes(&self.headers[i].value));
            }
            i += 1;
        }
        None
    }

    /// Attaches the body payload.
    pub fn set_payload(&mut self, payload: Payload)
        ensures
            final(self)@.verb == old(self)@.verb,
            final(self)@.path == old(self)@.path,
            final(self)@.headers == old(self)@.headers,
            final(self)@.body == Some(payload@),
    {
        self.body = Some(payload)
    }

    /// The declared body length: the `Content-Length` header parsed as an
    /// unsigned integer. A missing header, a non-numeric value, or a value
    /// that does not fit yields `None` rather than a failure.
    pub fn content_length(&self) -> (r: Option<usize>)
        ensures
            r is Some <==> spec_content_length(self@) is Some,
            r is Some ==> r->0 == spec_content_length(self@)->0,
    {
        proof {
            reveal_strlit("Content-Length");
        }
        match self.get_header(&str_bytes("Content-Length")) {
            Some(v) => parse_usize(&v),
            None => None,
        }
    }

    /// The client negotiated the gzip content coding: some entry of the
    /// comma-separated `Accept-Encoding` value, trimmed of spaces and
    /// tabs, is exactly `gzip`.
    pub fn wants_gzip_encoding(&self) -> (r: bool)
        ensures
            r == spec_wants_gzip(self@),
    {
        proof {
            reveal_strlit("Accept-Encoding");
        }
        match self.get_header(&str_bytes("Accept-Encoding")) {
            Some(v) => accepts_gzip(&v, 0),
            None => false,
        }
    }

    /// Rebuilds the request with the first `pref_length` bytes of the path
    /// removed, so that a handler behind a prefix route sees the path
    /// relative to its prefix. Verb, headers and body carry over.
    pub fn strip_path_prefix(req: Request, pref_length: usize) -> (r: Request)
        requires
            pref_length <= req@.path.len(),
        ensures
            r@.verb == req@.verb,
            r@.path == req@.path.skip(pref_length as int),
            r@.headers == req@.headers,
            r@.body == req@.body,
    {
        let path = copy_range(&req.path, pref_length, req.path.len());
        Request { verb: req.verb, path, headers: req.headers, body: req.body }
    }
}

/// Scans the comma-separated list `v` from `start` for an entry that,
/// trimmed, is exactly `gzip`.
fn accepts_gzip(v: &Vec<u8>, start: usize) -> (r: bool)
    requires
        start <= v.len(),
    ensures
        r == accepts_gzip_from(v@, start as int),
    decreases v@.len() - start,
{
    let e = find_comma(v, start);
    let ts = find_trim_start(v, start, e);
    let te = find_trim_end(v, ts, e);
    proof {
        reveal_strlit("gzip");
    }
    if bytes_eq(&copy_range(v, ts, te), &str_bytes("gzip")) {
        true
    } else if e < v.len() {
        accepts_gzip(v, e + 1)
    } else {
        false
    }
}

/// Position of the first comma at or after `start`, or the end of `v`.
fn find_comma(v: &Vec<u8>, start: usize) -> (r: usize)
    requires
        start <= v.len(),
    ensures
        r == start + comma_offset(v@, start as int),
        start <= r <= v.len(),
        r < v.len() ==> v@[r as int] == 44,
{
    let mut j = start;
    while j < v.len() && v[j] != 44
        invariant
            start <= j <= v.len(),
            comma_offset(v@, start as int) == j - start + comma_offset(v@, j as int),
        decreases v.len() - j,
    {
        j += 1;
    }
    j
}

/// First position at or after `s` (below `e`) that is not a space or tab.
fn find_trim_start(v: &Vec<u8>, s: usize, e: usize) -> (r: usize)
    requires
        s <= e <= v.len(),
    ensures
        r == trim_start_pos(v@, s as int, e as int),
        s <= r <= e,
{
    let mut j = s;
    while j < e && (v[j] == 32 || v[j] == 9)
        invariant
            s <= j <= e <= v.len(),
            trim_start_pos(v@, s as int, e as int) == trim_start_pos(v@, j as int, e as int),
        decreases e - j,
    {
        j += 1;
    }
    j
}

/// End position after dropping trailing spaces and tabs from `v[s..e]`.
fn find_trim_end(v: &Vec<u8>, s: usize, e: usize) -> (r: usize)
    requires
        s <= e <= v.len(),
    ensures
        r == trim_end_pos(v@, s as int, e as int),
        s <= r <= e,
{
    let mut j = e;
    while j > s && (v[j - 1] == 32 || v[j - 1] == 9)
        invariant
            s <= j <= e <= v.len(),
            trim_end_pos(v@, s as int, e as int) == trim_end_pos(v@, s as int, j as int),
        decreases j,
    {
        j -= 1;
    }
    j
}

} // verus!
