//! The outgoing message and its serialization: status line, header lines
//! and blank line in fixed order, then the body, written buffered or
//! drained from a stream in bounded chunks.
use vstd::prelude::*;

use crate::HeaderField;
use crate::HeaderFieldView;
use crate::HttpError;
use crate::Payload;
use crate::PayloadView;
use crate::StatusCode;
use crate::blocks_bytes;
use crate::payload_bytes;
use crate::byteseq::ascii_of;
use crate::byteseq::crlf;
use crate::byteseq::crlf_bytes;
use crate::byteseq::str_bytes;
use crate::handlers::COPY_BUFFER_DEFAULT_SIZE;
use crate::stream::ByteSink;
use crate::stream::copy_bytes;

verus! {

/// The fixed code-and-reason text of the status line.
pub open spec fn status_text(code: StatusCode) -> Seq<u8> {
    match code {
        StatusCode::HttpOk => ascii_of("200 OK"@),
        StatusCode::Created => ascii_of("201 Created"@),
        StatusCode::NotFound => ascii_of("404 Not Found"@),
        StatusCode::Forbidden => ascii_of("403 Forbidden"@),
        StatusCode::InternalServerError => ascii_of("500 Internal Server Error"@),
    }
}

/// `HTTP/1.1 <code> <reason>\r\n`.
pub open spec fn status_line_bytes(code: StatusCode) -> Seq<u8> {
    ascii_of("HTTP/1.1 "@) + status_text(code) + crlf()
}

/// `<name>: <value>\r\n`.
pub open spec fn header_line_bytes(h: HeaderFieldView) -> Seq<u8> {
    h.name + ascii_of(": "@) + h.value + crlf()
}

/// All header lines, in insertion order.
pub open spec fn header_lines_bytes(hs: Seq<HeaderFieldView>) -> Seq<u8>
    decreases hs.len(),
{
    if hs.len() == 0 {
        Seq::empty()
    } else {
        header_lines_bytes(hs.drop_last()) + header_line_bytes(hs.last())
    }
}

/// The whole head of a response on the wire: status line, header lines,
/// blank line.
pub open spec fn header_block_bytes(r: ResponseView) -> Seq<u8> {
    status_line_bytes(r.code) + header_lines_bytes(r.headers) + crlf()
}

/// A fallible response at view level, for stating what a dispatch
/// produced.
pub open spec fn response_result_view(r: Result<Response, HttpError>) -> Result<
    ResponseView,
    HttpError,
> {
    match r {
        Ok(resp) => Ok(resp@),
        Err(e) => Err(e),
    }
}

pub struct Response {
    code: StatusCode,
    headers: Vec<HeaderField>,
    payload: Option<Payload>,
}

pub struct ResponseView {
    pub code: StatusCode,
    pub headers: Seq<HeaderFieldView>,
    pub payload: Option<PayloadView>,
}

impl View for Response {
    type V = ResponseView;

    closed spec fn view(&self) -> ResponseView {
        ResponseView {
            code: self.code,
            headers: self.headers@.map_values(|h: HeaderField| h@),
            payload: match self.payload {
                Some(p) => Some(p@),
                None => None,
            },
        }
    }
}

impl Response {
    /// A response with the given status, no headers and no body.
    pub fn from_status(status: StatusCode) -> (r: Response)
        ensures
            r@.code == status,
            r@.headers == Seq::<HeaderFieldView>::empty(),
            r@.payload is None,
    {
        let r = Response { code: status, headers: Vec::new(), payload: None };
        proof {
            assert(r@.headers =~= Seq::<HeaderFieldView>::empty());
        }
        r
    }

    /// A `200 OK` response carrying `content`, with no headers set yet.
    pub fn ok(content: Payload) -> (r: Response)
        ensures
            r@.code == StatusCode::HttpOk,
            r@.headers == Seq::<HeaderFieldView>::empty(),
            r@.payload == Some(content@),
    {
        let r = Response { code: StatusCode::HttpOk, headers: Vec::new(), payload: Some(content) };
        proof {
            assert(r@.headers =~= Seq::<HeaderFieldView>::empty());
        }
        r
    }

    pub fn not_found() -> (r: Response)
        ensures
            r@.code == StatusCode::NotFound,
            r@.headers == Seq::<HeaderFieldView>::empty(),
            r@.payload is None,
    {
        Response::from_status(StatusCode::NotFound)
    }

    pub fn forbidden() -> (r: Response)
        ensures
            r@.code == StatusCode::Forbidden,
            r@.headers == Seq::<HeaderFieldView>::empty(),
            r@.payload is None,
    {
        Response::from_status(StatusCode::Forbidden)
    }

    pub fn internal_error() -> (r: Response)
        ensures
            r@.code == StatusCode::InternalServerError,
            r@.headers == Seq::<HeaderFieldView>::empty(),
            r@.payload is None,
    {
        Response::from_status(StatusCode::InternalServerError)
    }

    pub fn code(&self) -> (r: StatusCode)
        ensures
            r == self@.code,
    {
        self.code
    }

    pub fn headers(&self) -> (r: &Vec<HeaderField>)
        ensures
            r@.map_values(|h: HeaderField| h@) == self@.headers,
    {
        &self.headers
    }

    /// Takes the payload; afterwards none is left to take.
    pub fn payload(&mut self) -> (r: Option<Payload>)
        ensures
            final(self)@.code == old(self)@.code,
            final(self)@.headers == old(self)@.headers,
            final(self)@.payload is None,
            r is Some <==> old(self)@.payload is Some,
            r is Some ==> r->0@ == old(self)@.payload->0,
    {
        self.payload.take()
    }

    /// Appends a header; insertion order is preserved.
    pub fn add_header(&mut self, name: &Vec<u8>, value: &Vec<u8>)
        ensures
            final(self)@.code == old(self)@.code,
            final(self)@.payload == old(self)@.payload,
            final(self)@.headers == old(self)@.headers.push(
                HeaderFieldView { name: name@, value: value@ },
            ),
    {
        self.headers.push(HeaderField::new(name, value));
        proof {
            assert(self@.headers =~= old(self)@.headers.push(
                HeaderFieldView { name: name@, value: value@ },
            ));
        }
    }

    /// Serializes the head onto the sink: status line, each header line
    /// in order, and the blank line, then flushes. The body is written
    /// separately.
    pub fn write_header(&self, stream: &mut ByteSink) -> (r: Result<(), HttpError>)
        ensures
            r is Ok,
            final(stream)@ == old(stream)@ + header_block_bytes(self@),
    {
        proof {
            reveal_strlit("HTTP/1.1 ");
            reveal_strlit(": ");
        }
        stream.write_all(&str_bytes("HTTP/1.1 "));
        let text = match self.code {
            StatusCode::HttpOk => {
                proof {
                    reveal_strlit("200 OK");
                }
                str_bytes("200 OK")
            },
            StatusCode::Created => {
                proof {
                    reveal_strlit("201 Created");
                }
                str_bytes("201 Created")
            },
            StatusCode::NotFound => {
                proof {
                    reveal_strlit("404 Not Found");
                }
                str_bytes("404 Not Found")
            },
            StatusCode::Forbidden => {
                proof {
                    reveal_strlit("403 Forbidden");
                }
                str_bytes("403 Forbidden")
            },
            StatusCode::InternalServerError => {
                proof {
                    reveal_strlit("500 Internal Server Error");
                }
                str_bytes("500 Internal Server Error")
            },
        };
        stream.write_all(&text);
        stream.write_all(&crlf_bytes());
        proof {
            assert(stream@ =~= old(stream)@ + status_line_bytes(self@.code));
        }

        let ghost base = stream@;
        let ghost hs = self@.headers;
        let colon_sep = str_bytes(": ");
        let line_sep = crlf_bytes();
        let mut i: usize = 0;
        while i < self.headers.len()
            invariant
                i <= self.headers.len(),
                hs == self@.headers,
                hs.len() == self.headers.len(),
                forall|j: int| 0 <= j < hs.len() ==> #[trigger] hs[j] == self.headers@[j]@,
                colon_sep@ == ascii_of(": "@),
                line_sep@ == crlf(),
                stream@ == base + header_lines_bytes(hs.take(i as int)),
            decreases self.headers.len() - i,
        {
            stream.write_all(&self.headers[i].name);
            stream.write_all(&colon_sep);
            stream.write_all(&self.headers[i].value);
            stream.write_all(&line_sep);
            proof {
                assert(hs.take(i + 1).drop_last() =~= hs.take(i as int));
                assert(hs.take(i + 1).last() == hs[i as int]);
                assert(stream@ =~= base + header_lines_bytes(hs.take(i + 1)));
            }
            i += 1;
        }
        proof {
            assert(hs.take(hs.len() as int) =~= hs);
        }

        // End of header
        stream.write_all(&crlf_bytes());
        stream.flush();
        proof {
            assert(stream@ =~= old(stream)@ + header_block_bytes(self@));
        }
        Ok(())
    }
}

/// Writes a body to the sink: a buffered payload block by block, in
/// order; a streamed payload by the bounded-chunk copy loop until the
/// stream is exhausted.
pub fn write_payload(payload: Payload, stream: &mut ByteSink) -> (r: Result<(), HttpError>)
    ensures
        r is Ok,
        final(stream)@ == old(stream)@ + payload_bytes(payload@),
{
    match payload {
        Payload::Simple(blocks) => {
            let ghost bs = blocks.deep_view();
            let ghost base = stream@;
            let mut i: usize = 0;
            while i < blocks.len()
                invariant
                    i <= blocks.len(),
                    bs == blocks.deep_view(),
                    bs.len() == blocks.len(),
                    forall|j: int| 0 <= j < bs.len() ==> #[trigger] bs[j] == blocks@[j]@,
                    stream@ == base + blocks_bytes(bs.take(i as int)),
                decreases blocks.len() - i,
            {
                stream.write_all(&blocks[i]);
                proof {
                    assert(bs.take(i + 1).drop_last() =~= bs.take(i as int));
                    assert(stream@ =~= base + blocks_bytes(bs.take(i + 1)));
                }
                i += 1;
            }
            proof {
                assert(bs.take(bs.len() as int) =~= bs);
            }
            stream.flush();
            Ok(())
        },
        Payload::ReadStream(mut source) => {
            let ghost src0 = source@;
            let n = source.remaining();
            match copy_bytes(&mut source, stream, n, COPY_BUFFER_DEFAULT_SIZE) {
                Ok(_) => {
                    proof {
                        assert(src0.take(n as int) =~= src0);
                    }
                    Ok(())
                },
                Err(e) => Err(e),
            }
        },
    }
}

} // verus!
