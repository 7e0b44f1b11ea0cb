//! The built-in handlers: echo, user-agent echo, file download and file
//! upload. Each takes the shared configuration and the (prefix-stripped)
//! request; the file handlers additionally take the outcome of the one
//! filesystem call they depend on, so that everything after that call is
//! plain logic.
use vstd::prelude::*;

use crate::HeaderFieldView;
use crate::HttpError;
use crate::HttpErrorKind;
use crate::Payload;
use crate::PayloadView;
use crate::StatusCode;
use crate::byteseq::ascii_of;
use crate::byteseq::clone_bytes;
use crate::byteseq::dec_rep;
use crate::byteseq::str_bytes;
use crate::byteseq::to_decimal;
use crate::byteseq::to_decimal_u64;
use crate::config::Configuration;
use crate::fs_model::FileCreateOutcome;
use crate::fs_model::FileOpenOutcome;
use crate::fs_model::FsErrorKind;
use crate::request::Request;
use crate::request::RequestView;
use crate::request::lookup_header;
use crate::request::spec_content_length;
use crate::request::spec_wants_gzip;
use crate::response::Response;
use crate::response::response_result_view;
use crate::response::ResponseView;
use crate::stream::ByteSink;
use crate::stream::copy_bytes;

verus! {

/// Chunk size of the upload copy loop: bounds per-connection memory for
/// body transfer regardless of the declared length. A tunable constant,
/// not a protocol requirement.
pub const COPY_BUFFER_DEFAULT_SIZE: usize = 1024;

/// What the gzip content coding produces for a byte sequence. The
/// compressed form is a function of the input alone: a fixed ten-byte
/// header, the deflate stream, and a checksum trailer.
pub uninterp spec fn gzip_of(data: Seq<u8>) -> Seq<u8>;

/// Relies on `async_compression::tokio::bufread::GzipEncoder` driven to
/// the end over an in-memory cursor: it emits the gzip coding of the
/// input, which depends on the input bytes alone.
#[verifier::external_body]
fn gzip_compress(data: &Vec<u8>) -> (r: Vec<u8>)
    ensures
        r@ == gzip_of(data@),
{
    let mut buf = vec![];
    let rt = tokio::runtime::Builder::new_current_thread().build().expect("runtime");
    let cursor = std::io::Cursor::new(data.as_slice());
    let mut encoder = async_compression::tokio::bufread::GzipEncoder::new(cursor);
    rt.block_on(tokio::io::AsyncReadExt::read_to_end(&mut encoder, &mut buf))
        .expect("encoding from an in-memory cursor cannot fail");
    buf
}

pub open spec fn content_type_text_plain() -> HeaderFieldView {
    HeaderFieldView { name: ascii_of("Content-Type"@), value: ascii_of("text/plain"@) }
}

pub open spec fn content_type_octet_stream() -> HeaderFieldView {
    HeaderFieldView {
        name: ascii_of("Content-Type"@),
        value: ascii_of("application/octet-stream"@),
    }
}

pub open spec fn content_disposition_attachment() -> HeaderFieldView {
    HeaderFieldView { name: ascii_of("Content-Disposition"@), value: ascii_of("attachment"@) }
}

pub open spec fn content_length_header(n: nat) -> HeaderFieldView {
    HeaderFieldView { name: ascii_of("Content-Length"@), value: dec_rep(n) }
}

/// The body the echo handler answers with: the (stripped) request path,
/// gzip-coded exactly when the request negotiated it.
pub open spec fn spec_echo_body(req: RequestView) -> Seq<u8> {
    if spec_wants_gzip(req) {
        gzip_of(req.path)
    } else {
        req.path
    }
}

/// A `200` text response carrying `body` buffered, with `Content-Type:
/// text/plain` and, exactly when the body is non-empty, a
/// `Content-Length` for it.
pub open spec fn spec_plain_text_response(body: Seq<u8>, resp: ResponseView) -> bool {
    &&& resp.code == StatusCode::HttpOk
    &&& resp.payload == Some(PayloadView::Simple(seq![body]))
    &&& resp.headers == if body.len() > 0 {
        seq![content_type_text_plain(), content_length_header(body.len())]
    } else {
        seq![content_type_text_plain()]
    }
}

/// A `200` response streaming a file body, with the declared size as
/// `Content-Length` exactly when it is non-zero, then the octet-stream
/// content type and the attachment disposition.
pub open spec fn spec_file_stream_response(size: nat, content: Seq<u8>, resp: ResponseView) -> bool {
    &&& resp.code == StatusCode::HttpOk
    &&& resp.payload == Some(PayloadView::Stream(content))
    &&& resp.headers == if size > 0 {
        seq![
            content_length_header(size),
            content_type_octet_stream(),
            content_disposition_attachment(),
        ]
    } else {
        seq![content_type_octet_stream(), content_disposition_attachment()]
    }
}

/// The status each filesystem failure maps to.
pub open spec fn spec_fs_error_code(kind: FsErrorKind) -> StatusCode {
    match kind {
        FsErrorKind::NotFound => StatusCode::NotFound,
        FsErrorKind::PermissionDenied => StatusCode::Forbidden,
        FsErrorKind::Other => StatusCode::InternalServerError,
    }
}

/// A bare status response, no headers and no body.
pub open spec fn spec_status_response(code: StatusCode, resp: ResponseView) -> bool {
    &&& resp.code == code
    &&& resp.headers == Seq::<HeaderFieldView>::empty()
    &&& resp.payload is None
}

/// What the echo handler returns for a request.
pub open spec fn spec_echo_post(req: RequestView, r: Result<ResponseView, HttpError>) -> bool {
    &&& r is Ok
    &&& spec_plain_text_response(spec_echo_body(req), r->Ok_0)
}

/// What the user-agent handler returns: the first `User-Agent` value as
/// a text body, or a failure when the header is absent.
pub open spec fn spec_user_agent_post(req: RequestView, r: Result<ResponseView, HttpError>) -> bool {
    match lookup_header(req.headers, ascii_of("User-Agent"@)) {
        Option::None => r is Err && r->Err_0 == HttpError { kind: HttpErrorKind::MissingHeader },
        Option::Some(agent) => r is Ok && spec_plain_text_response(agent, r->Ok_0),
    }
}

/// Echoes the request path (already stripped of the route prefix) back
/// as a `text/plain` body, gzip-coded when negotiated.
pub fn handle_echo(_config: &Configuration, request: Request) -> (r: Result<Response, HttpError>)
    ensures
        spec_echo_post(request@, response_result_view(r)),
{
    let raw_text = clone_bytes(request.path());
    let text = if request.wants_gzip_encoding() {
        gzip_compress(&raw_text)
    } else {
        raw_text
    };
    let ghost body = text@;
    let tlen = text.len();
    let length = to_decimal(tlen);
    let mut blocks: Vec<Vec<u8>> = Vec::new();
    blocks.push(text);
    proof {
        assert(blocks.deep_view() =~~= seq![body]);
    }
    let mut response = Response::ok(Payload::Simple(blocks));
    proof {
        reveal_strlit("Content-Type");
        reveal_strlit("text/plain");
        reveal_strlit("Content-Length");
    }
    response.add_header(&str_bytes("Content-Type"), &str_bytes("text/plain"));

    if tlen > 0 {
        response.add_header(&str_bytes("Content-Length"), &length);
        proof {
            assert(response@.headers =~= seq![
                content_type_text_plain(),
                content_length_header(body.len()),
            ]);
        }
    } else {
        proof {
            assert(response@.headers =~= seq![content_type_text_plain()]);
        }
    }

    Ok(response)
}

/// Echoes the request's `User-Agent` value back as a `text/plain` body;
/// a request without that header is a dispatch failure.
pub fn handle_user_agent(_config: &Configuration, request: Request) -> (r: Result<
    Response,
    HttpError,
>)
    ensures
        spec_user_agent_post(request@, response_result_view(r)),
{
    proof {
        reveal_strlit("User-Agent");
    }
    if let Some(agent) = request.get_header(&str_bytes("User-Agent")) {
        let ghost body = agent@;
        let alen = agent.len();
        let length = to_decimal(alen);
        let mut blocks: Vec<Vec<u8>> = Vec::new();
        blocks.push(agent);
        proof {
            assert(blocks.deep_view() =~~= seq![body]);
        }
        let mut response = Response::ok(Payload::Simple(blocks));
        proof {
            reveal_strlit("Content-Type");
            reveal_strlit("text/plain");
            reveal_strlit("Content-Length");
        }
        response.add_header(&str_bytes("Content-Type"), &str_bytes("text/plain"));
        if alen > 0 {
            response.add_header(&str_bytes("Content-Length"), &length);
            proof {
                assert(response@.headers =~= seq![
                    content_type_text_plain(),
                    content_length_header(body.len()),
                ]);
            }
        } else {
            proof {
                assert(response@.headers =~= seq![content_type_text_plain()]);
            }
        }
        Ok(response)
    } else {
        crate::build_error(HttpErrorKind::MissingHeader)
    }
}

/// The structured response for a failed filesystem call: not-found maps
/// to `404`, permission-denied to `403`, anything else to `500`.
pub fn fs_error_response(kind: FsErrorKind) -> (r: Response)
    ensures
        spec_status_response(spec_fs_error_code(kind), r@),
{
    match kind {
        FsErrorKind::NotFound => Response::not_found(),
        FsErrorKind::PermissionDenied => Response::forbidden(),
        FsErrorKind::Other => Response::internal_error(),
    }
}

/// Builds the download response from the outcome of opening the file:
/// on success a streamed body with its headers, on failure the mapped
/// status. Always a structured response, never a dropped connection.
pub fn handle_download_file(
    _config: &Configuration,
    _request: &Request,
    outcome: FileOpenOutcome,
) -> (r: Result<Response, HttpError>)
    ensures
        r is Ok,
        match outcome {
            FileOpenOutcome::Opened { size, content } => spec_file_stream_response(
                size as nat,
                content@,
                r->Ok_0@,
            ),
            FileOpenOutcome::Failed(kind) => spec_status_response(
                spec_fs_error_code(kind),
                r->Ok_0@,
            ),
        },
{
    match outcome {
        FileOpenOutcome::Opened { size, content } => {
            let ghost content0 = content@;
            let length = to_decimal_u64(size);
            let mut response = Response::ok(Payload::ReadStream(content));
            proof {
                reveal_strlit("Content-Length");
                reveal_strlit("Content-Type");
                reveal_strlit("application/octet-stream");
                reveal_strlit("Content-Disposition");
                reveal_strlit("attachment");
            }
            if size > 0 {
                response.add_header(&str_bytes("Content-Length"), &length);
            }
            response.add_header(&str_bytes("Content-Type"), &str_bytes("application/octet-stream"));
            response.add_header(&str_bytes("Content-Disposition"), &str_bytes("attachment"));
            proof {
                if size > 0 {
                    assert(response@.headers =~= seq![
                        content_length_header(size as nat),
                        content_type_octet_stream(),
                        content_disposition_attachment(),
                    ]);
                } else {
                    assert(response@.headers =~= seq![
                        content_type_octet_stream(),
                        content_disposition_attachment(),
                    ]);
                }
            }
            Ok(response)
        },
        FileOpenOutcome::Failed(kind) => Ok(fs_error_response(kind)),
    }
}

/// The upload source: the request's streamed body, provided a declared
/// `Content-Length` is there to bound the copy.
pub open spec fn spec_upload_stream(req: RequestView) -> Option<Seq<u8>> {
    match req.body {
        Some(PayloadView::Stream(b)) => if spec_content_length(req) is Some {
            Some(b)
        } else {
            None
        },
        _ => None,
    }
}

/// Drains the request body into the created file and answers `201`: the
/// declared `Content-Length` fixes how many bytes are copied, in bounded
/// chunks. Without a declared length or a streamed body the answer is
/// `500`; a body that ends before the declared length is a dispatch
/// failure, leaving the full chunks copied so far in the file. A failed
/// create maps like the download failures.
pub fn handle_upload_file(
    _config: &Configuration,
    request: Request,
    outcome: FileCreateOutcome,
    file: &mut ByteSink,
) -> (r: Result<Response, HttpError>)
    ensures
        outcome matches FileCreateOutcome::Failed(kind) ==> r is Ok && spec_status_response(
            spec_fs_error_code(kind),
            r->Ok_0@,
        ) && final(file)@ == old(file)@,
        outcome is Created && spec_upload_stream(request@) is None ==> r is Ok
            && spec_status_response(StatusCode::InternalServerError, r->Ok_0@) && final(file)@
            == old(file)@,
        outcome is Created && spec_upload_stream(request@) is Some ==> ({
            let n = spec_content_length(request@)->0;
            let body = spec_upload_stream(request@)->0;
            if n <= body.len() {
                r is Ok && spec_status_response(StatusCode::Created, r->Ok_0@) && final(file)@
                    == old(file)@ + body.take(n as int)
            } else {
                r is Err && r->Err_0 == HttpError { kind: HttpErrorKind::UnexpectedEof } && exists|
                    k: int,
                |
                    0 <= k <= body.len() && final(file)@ == old(file)@ + body.take(k)
            }
        }),
{
    match outcome {
        FileCreateOutcome::Failed(kind) => Ok(fs_error_response(kind)),
        FileCreateOutcome::Created => {
            let mut request = request;
            let length = request.content_length();
            let body = request.body();
            if let (Some(length), Some(Payload::ReadStream(mut reader))) = (length, body) {
                match copy_bytes(&mut reader, file, length, COPY_BUFFER_DEFAULT_SIZE) {
                    Ok(_) => Ok(Response::from_status(StatusCode::Created)),
                    Err(e) => Err(e),
                }
            } else {
                Ok(Response::internal_error())
            }
        },
    }
}

} // verus!
