//! The wire-level request parser. It consumes the head of the input — the
//! request line and the header lines up to and including the blank-line
//! terminator — and leaves everything after it unread, attached to the
//! request as a streamed body. The body is never read at parse time, no
//! matter what any header declares.
use vstd::prelude::*;

use crate::HeaderFieldView;
use crate::HttpError;
use crate::HttpErrorKind;
use crate::HttpVerb;
use crate::Payload;
use crate::PayloadView;
use crate::byteseq::ascii_of;
use crate::byteseq::bytes_eq;
use crate::byteseq::copy_range;
use crate::byteseq::str_bytes;
use crate::request::Request;
use crate::stream::ByteStream;

verus! {

/// Whitespace as the request-line tokenizer sees it.
pub open spec fn is_ws(b: u8) -> bool {
    b == 32 || b == 9 || b == 13 || b == 10
}

/// Length of the line starting at `pos`: everything up to and including
/// the first line-feed byte, or up to the end of input if none is left.
pub open spec fn line_len(data: Seq<u8>, pos: int) -> nat
    decreases data.len() - pos,
{
    if !(0 <= pos < data.len()) {
        0
    } else if data[pos] == 10 {
        1
    } else {
        1 + line_len(data, pos + 1)
    }
}

/// First position in `[i, e)` that is not whitespace, or `e`.
pub open spec fn skip_ws(data: Seq<u8>, i: int, e: int) -> int
    decreases e - i,
{
    if !(0 <= i && i < e) {
        i
    } else if is_ws(data[i]) {
        skip_ws(data, i + 1, e)
    } else {
        i
    }
}

/// First whitespace position in `[i, e)`, or `e`.
pub open spec fn scan_token(data: Seq<u8>, i: int, e: int) -> int
    decreases e - i,
{
    if !(0 <= i && i < e) {
        i
    } else if !is_ws(data[i]) {
        scan_token(data, i + 1, e)
    } else {
        i
    }
}

/// End of `[s, e)` after dropping trailing whitespace.
pub open spec fn trim_ws_end(data: Seq<u8>, s: int, e: int) -> int
    decreases e - s,
{
    if e <= s || !is_ws(data[e - 1]) {
        e
    } else {
        trim_ws_end(data, s, e - 1)
    }
}

/// First position `i` in `[i, t - 1)` where a colon is followed by a
/// space, the single accepted name/value separator; `t` when there is
/// none.
pub open spec fn colon_space_pos(data: Seq<u8>, i: int, t: int) -> int
    decreases t - i,
{
    if !(0 <= i && i + 1 < t) {
        t
    } else if data[i] == 58 && data[i + 1] == 32 {
        i
    } else {
        colon_space_pos(data, i + 1, t)
    }
}

/// The verb named by the first request-line token. An unrecognized verb
/// is `Unknown`, which is not by itself a parse failure.
pub open spec fn spec_verb(tok: Seq<u8>) -> HttpVerb {
    if tok == ascii_of("GET"@) {
        HttpVerb::Get
    } else if tok == ascii_of("POST"@) {
        HttpVerb::Post
    } else {
        HttpVerb::Unknown
    }
}

/// The verb and path of the request line `data[0, e)`, split on
/// whitespace. `None` when there is no second token: a request line
/// without a path is a parse failure.
pub open spec fn spec_request_line(data: Seq<u8>, e: int) -> Option<(HttpVerb, Seq<u8>)> {
    let a0 = skip_ws(data, 0, e);
    let e0 = scan_token(data, a0, e);
    let a1 = skip_ws(data, e0, e);
    let e1 = scan_token(data, a1, e);
    if a1 >= e {
        None
    } else {
        Some((spec_verb(data.subrange(a0, e0)), data.subrange(a1, e1)))
    }
}

/// The header lines from `pos` on, up to the blank-line terminator.
/// Returns the fields in order and the position just past the blank line,
/// where the body starts. Running out of input before the blank line is
/// `UnexpectedEof`; a non-empty line without the `": "` separator after
/// trailing-whitespace trimming is `InvalidHeader`.
pub open spec fn spec_headers(data: Seq<u8>, pos: int) -> Result<
    (Seq<HeaderFieldView>, int),
    HttpErrorKind,
>
    decreases data.len() - pos,
    via spec_headers_decreases
{
    if !(0 <= pos < data.len()) {
        Err(HttpErrorKind::UnexpectedEof)
    } else {
        let e = pos + line_len(data, pos);
        if e == pos + 2 && data[pos] == 13 && data[pos + 1] == 10 {
            Ok((Seq::empty(), e))
        } else {
            let t = trim_ws_end(data, pos, e);
            let c = colon_space_pos(data, pos, t);
            if c >= t {
                Err(HttpErrorKind::InvalidHeader)
            } else {
                match spec_headers(data, e) {
                    Ok((hs, b)) => Ok(
                        (
                            seq![
                                HeaderFieldView {
                                    name: data.subrange(pos, c),
                                    value: data.subrange(c + 2, t),
                                },
                            ] + hs,
                            b,
                        ),
                    ),
                    Err(k) => Err(k),
                }
            }
        }
    }
}

/// A line never runs past the end of the input.
pub proof fn lemma_line_len_bound(data: Seq<u8>, pos: int)
    requires
        0 <= pos <= data.len(),
    ensures
        pos + line_len(data, pos) <= data.len(),
    decreases data.len() - pos,
{
    if pos < data.len() && data[pos] != 10 {
        lemma_line_len_bound(data, pos + 1);
    }
}

#[via_fn]
proof fn spec_headers_decreases(data: Seq<u8>, pos: int) {
    if 0 <= pos < data.len() {
        assert(line_len(data, pos) >= 1);
        lemma_line_len_bound(data, pos);
    }
}

/// What parsing the whole input yields: verb, path, headers, and the
/// position where the unread body begins.
pub open spec fn spec_parse_query(data: Seq<u8>) -> Result<
    (HttpVerb, Seq<u8>, Seq<HeaderFieldView>, int),
    HttpErrorKind,
> {
    let le = line_len(data, 0) as int;
    match spec_request_line(data, le) {
        Option::None => Err(HttpErrorKind::InvalidRequestLine),
        Option::Some((verb, path)) => match spec_headers(data, le) {
            Ok((hs, body_start)) => Ok((verb, path, hs, body_start)),
            Err(k) => Err(k),
        },
    }
}

/// Parses one request from the buffered input. On success the request
/// carries the parsed verb, path and headers, and its body is a stream of
/// exactly the bytes after the blank-line terminator, still unread.
pub fn parse_query(data: Vec<u8>) -> (r: Result<Request, HttpError>)
    ensures
        ({
            match spec_parse_query(data@) {
                Err(k) => r is Err && r->Err_0 == HttpError { kind: k },
                Ok((verb, path, hs, body_start)) => r is Ok && {
                    let req = r->Ok_0@;
                    &&& req.verb == verb
                    &&& req.path == path
                    &&& req.headers == hs
                    &&& req.body == Some(PayloadView::Stream(data@.skip(body_start)))
                },
            }
        }),
{
    let le = find_line_end(&data, 0);
    let a0 = find_skip_ws(&data, 0, le);
    let e0 = find_scan_token(&data, a0, le);
    let a1 = find_skip_ws(&data, e0, le);
    let e1 = find_scan_token(&data, a1, le);
    if a1 >= le {
        return Err(HttpError { kind: HttpErrorKind::InvalidRequestLine });
    }
    let tok0 = copy_range(&data, a0, e0);
    proof {
        reveal_strlit("GET");
        reveal_strlit("POST");
    }
    let verb = if bytes_eq(&tok0, &str_bytes("GET")) {
        HttpVerb::Get
    } else if bytes_eq(&tok0, &str_bytes("POST")) {
        HttpVerb::Post
    } else {
        HttpVerb::Unknown
    };
    let path = copy_range(&data, a1, e1);
    let mut request = Request::new(verb, path);
    let ghost verb0 = verb;
    let ghost path0 = data@.subrange(a1 as int, e1 as int);

    let mut pos = le;
    loop
        invariant_except_break
            le <= pos <= data.len(),
            le as int == line_len(data@, 0),
            spec_request_line(data@, le as int) == Some((verb0, path0)),
            request@.verb == verb0,
            request@.path == path0,
            request@.body is None,
            spec_headers(data@, le as int) == match spec_headers(data@, pos as int) {
                Ok((hs, b)) => Ok::<_, HttpErrorKind>((request@.headers + hs, b)),
                Err(k) => Err::<(Seq<HeaderFieldView>, int), _>(k),
            },
        ensures
            le as int == line_len(data@, 0),
            spec_request_line(data@, le as int) == Some((verb0, path0)),
            request@.verb == verb0,
            request@.path == path0,
            request@.body is None,
            pos <= data.len(),
            spec_headers(data@, le as int) == Ok::<_, HttpErrorKind>(
                (request@.headers, pos as int),
            ),
        decreases data.len() - pos,
    {
        if pos >= data.len() {
            proof {
                assert(spec_headers(data@, pos as int) == Err::<
                    (Seq<HeaderFieldView>, int),
                    _,
                >(HttpErrorKind::UnexpectedEof));
            }
            return Err(HttpError { kind: HttpErrorKind::UnexpectedEof });
        }
        let e = find_line_end(&data, pos);
        if e - pos == 2 && data[pos] == 13 && data[pos + 1] == 10 {
            pos = e;
            proof {
                assert(request@.headers + Seq::<HeaderFieldView>::empty() =~= request@.headers);
            }
            break;
        }
        let t = find_trim_ws_end(&data, pos, e);
        let c = find_colon_space(&data, pos, t);
        if c >= t {
            proof {
                assert(spec_headers(data@, pos as int) == Err::<
                    (Seq<HeaderFieldView>, int),
                    _,
                >(HttpErrorKind::InvalidHeader));
            }
            return Err(HttpError { kind: HttpErrorKind::InvalidHeader });
        }
        let name = copy_range(&data, pos, c);
        let value = copy_range(&data, c + 2, t);
        let ghost headers_before = request@.headers;
        let ghost hfv = HeaderFieldView { name: name@, value: value@ };
        request.add_header(&name, &value);
        proof {
            assert(spec_headers(data@, pos as int) == match spec_headers(data@, e as int) {
                Ok((hs, b)) => Ok::<_, HttpErrorKind>((seq![hfv] + hs, b)),
                Err(k) => Err::<(Seq<HeaderFieldView>, int), _>(k),
            });
            if spec_headers(data@, e as int) is Ok {
                let (hs, b) = spec_headers(data@, e as int)->Ok_0;
                assert(headers_before + (seq![hfv] + hs) =~= (headers_before.push(hfv)) + hs);
            }
        }
        pos = e;
    }
    let body = copy_range(&data, pos, data.len());
    proof {
        assert(body@ =~= data@.skip(pos as int));
    }
    request.set_payload(Payload::ReadStream(ByteStream::new(body)));
    Ok(request)
}

/// Position just past the line starting at `pos`.
fn find_line_end(v: &Vec<u8>, pos: usize) -> (r: usize)
    requires
        pos <= v.len(),
    ensures
        r == pos + line_len(v@, pos as int),
        pos <= r <= v.len(),
        pos < v.len() ==> r > pos,
{
    let mut j = pos;
    while j < v.len() && v[j] != 10
        invariant
            pos <= j <= v.len(),
            pos + line_len(v@, pos as int) == j + line_len(v@, j as int),
        decreases v.len() - j,
    {
        j += 1;
    }
    if j < v.len() {
        j + 1
    } else {
        j
    }
}

/// First non-whitespace position in `[i, e)`, or `e`.
fn find_skip_ws(v: &Vec<u8>, i: usize, e: usize) -> (r: usize)
    requires
        i <= e <= v.len(),
    ensures
        r == skip_ws(v@, i as int, e as int),
        i <= r <= e,
{
    let mut j = i;
    while j < e && (v[j] == 32 || v[j] == 9 || v[j] == 13 || v[j] == 10)
        invariant
            i <= j <= e <= v.len(),
            skip_ws(v@, i as int, e as int) == skip_ws(v@, j as int, e as int),
        decreases e - j,
    {
        j += 1;
    }
    j
}

/// First whitespace position in `[i, e)`, or `e`.
fn find_scan_token(v: &Vec<u8>, i: usize, e: usize) -> (r: usize)
    requires
        i <= e <= v.len(),
    ensures
        r == scan_token(v@, i as int, e as int),
        i <= r <= e,
{
    let mut j = i;
    while j < e && !(v[j] == 32 || v[j] == 9 || v[j] == 13 || v[j] == 10)
        invariant
            i <= j <= e <= v.len(),
            scan_token(v@, i as int, e as int) == scan_token(v@, j as int, e as int),
        decreases e - j,
    {
        j += 1;
    }
    j
}

/// End of `[s, e)` after dropping trailing whitespace.
fn find_trim_ws_end(v: &Vec<u8>, s: usize, e: usize) -> (r: usize)
    requires
        s <= e <= v.len(),
    ensures
        r == trim_ws_end(v@, s as int, e as int),
        s <= r <= e,
{
    let mut j = e;
    while j > s && (v[j - 1] == 32 || v[j - 1] == 9 || v[j - 1] == 13 || v[j - 1] == 10)
        invariant
            s <= j <= e <= v.len(),
            trim_ws_end(v@, s as int, e as int) == trim_ws_end(v@, s as int, j as int),
        decreases j,
    {
        j -= 1;
    }
    j
}

/// First position of a `": "` separator in `[i, t)`, or `t`.
fn find_colon_space(v: &Vec<u8>, i: usize, t: usize) -> (r: usize)
    requires
        i <= t <= v.len(),
    ensures
        r == colon_space_pos(v@, i as int, t as int),
        i <= r <= t,
        r < t ==> r + 1 < t,
{
    let mut j = i;
    while t - j > 1 && !(v[j] == 58 && v[j + 1] == 32)
        invariant
            i <= j <= t <= v.len(),
            colon_space_pos(v@, i as int, t as int) == colon_space_pos(v@, j as int, t as int),
        decreases t - j,
    {
        j += 1;
    }
    if t - j > 1 {
        j
    } else {
        t
    }
}

} // verus!
