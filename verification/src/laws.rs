//! The engine's cross-cutting guarantees, stated in one place and
//! proved from the contracts of the modules they span. The per-function
//! guarantees — routing determinism, prefix-stripping faithfulness, the
//! filesystem error mapping — live beside the functions they describe,
//! in `route` and `handlers`.
use vstd::prelude::*;

use crate::HttpError;
use crate::HttpErrorKind;
use crate::HttpVerb;
use crate::PayloadView;
use crate::StatusCode;
use crate::byteseq::ascii_of;
use crate::fs_model::FsEntryView;
use crate::fs_model::lemma_find_entry_characterize;
use crate::fs_model::lemma_find_entry_minimal;
use crate::fs_model::spec_find_entry;
use crate::handlers::content_length_header;
use crate::handlers::content_type_text_plain;
use crate::handlers::spec_echo_post;
use crate::handlers::spec_user_agent_post;
use crate::parser::spec_parse_query;
use crate::request::RequestView;
use crate::request::lookup_header;
use crate::request::spec_content_length;
use crate::request::spec_wants_gzip;
use crate::response::ResponseView;
use crate::route::spec_download_via_fs;
use crate::route::spec_first_match;
use crate::route::spec_upload_base;
use crate::route::spec_upload_index;
use crate::route::spec_upload_via_fs;
use crate::route::upload_entry;
use crate::server::spec_connection_post;
use crate::server::spec_standard_routes;
use crate::config::ConfigurationView;
use crate::route::RouteView;

verus! {

/// Echo round trip: on the standard table, a `GET` whose path is the
/// echo prefix followed by `s` selects the echo route and no other, the
/// handler sees exactly `s`, and — when no content coding is negotiated
/// — answers `200` with body exactly `s`, `Content-Type: text/plain`,
/// and a `Content-Length` of `s`'s length exactly when `s` is non-empty.
pub proof fn lemma_echo_round_trip(req: RequestView, s: Seq<u8>, hr: Result<
    ResponseView,
    HttpError,
>)
    requires
        req.verb == HttpVerb::Get,
        req.path == ascii_of("/echo/"@) + s,
        !spec_wants_gzip(req),
        spec_echo_post(
            RequestView { verb: req.verb, path: s, headers: req.headers, body: req.body },
            hr,
        ),
    ensures
        spec_first_match(spec_standard_routes(), req) == Some((1int, 6nat)),
        req.path.skip(6) == s,
        hr is Ok,
        hr->Ok_0.code == StatusCode::HttpOk,
        hr->Ok_0.payload == Some(PayloadView::Simple(seq![s])),
        s.len() > 0 ==> hr->Ok_0.headers == seq![
            content_type_text_plain(),
            content_length_header(s.len()),
        ],
        s.len() == 0 ==> hr->Ok_0.headers == seq![content_type_text_plain()],
{
    reveal_strlit("/");
    reveal_strlit("/echo/");
    let routes = spec_standard_routes();
    assert(req.path.len() == 6 + s.len());
    assert(req.path != routes[0].path);
    assert(!crate::route::spec_route_matches(routes[0], req));
    assert(req.path.subrange(0, 6) =~= ascii_of("/echo/"@));
    assert(crate::route::spec_route_matches(routes[1], req));
    assert(crate::route::first_match_from(routes, req, 0) == crate::route::first_match_from(
        routes,
        req,
        1,
    ));
    assert(crate::route::first_match_from(routes, req, 1) == Some(
        (1int, routes[1].path.len()),
    ));
    assert(routes[1].path.len() == 6);
    assert(req.path.skip(6) =~= s);
    let stripped = RequestView { verb: req.verb, path: s, headers: req.headers, body: req.body };
    assert(spec_wants_gzip(stripped) == spec_wants_gzip(req));
}

/// User-agent echo: with a `User-Agent: v` header the handler answers
/// `200` with body exactly `v` and its length declared when non-zero;
/// without one it fails rather than answering `200`.
pub proof fn lemma_user_agent_echo(req: RequestView, hr: Result<ResponseView, HttpError>)
    requires
        spec_user_agent_post(req, hr),
    ensures
        match lookup_header(req.headers, ascii_of("User-Agent"@)) {
            Some(agent) => {
                &&& hr is Ok
                &&& hr->Ok_0.code == StatusCode::HttpOk
                &&& hr->Ok_0.payload == Some(PayloadView::Simple(seq![agent]))
                &&& agent.len() > 0 ==> hr->Ok_0.headers == seq![
                    content_type_text_plain(),
                    content_length_header(agent.len()),
                ]
            },
            None => hr is Err && hr->Err_0 == HttpError { kind: HttpErrorKind::MissingHeader },
        },
{
}

/// Upload/download round trip: uploading body `B` under a declared
/// `Content-Length` of `len(B)` and then downloading the same path
/// yields `201` and then `200` with a byte-identical body `B` — for any
/// body length, since the copy contract does not depend on the chunk
/// size.
pub proof fn lemma_upload_download_round_trip(
    fs0: Seq<FsEntryView>,
    full_path: Seq<u8>,
    req: RequestView,
    body: Seq<u8>,
    ur: Result<ResponseView, HttpError>,
    fs1: Seq<FsEntryView>,
    dr: Result<ResponseView, HttpError>,
)
    requires
        spec_content_length(req) == Some(body.len()),
        req.body == Some(PayloadView::Stream(body)),
        spec_upload_via_fs(fs0, full_path, req, ur, fs1),
        spec_download_via_fs(fs1, full_path, dr),
    ensures
        ur is Ok && ur->Ok_0.code == StatusCode::Created,
        dr is Ok && dr->Ok_0.code == StatusCode::HttpOk,
        dr->Ok_0.payload == Some(PayloadView::Stream(body)),
{
    let i = spec_upload_index(fs0, full_path);
    let base = spec_upload_base(fs0, full_path);
    assert(body.take(body.len() as int) =~= body);
    let entry = upload_entry(full_path, body);
    assert(fs1 == base.update(i, entry));
    lemma_find_entry_minimal(fs0, full_path);
    match spec_find_entry(fs0, full_path) {
        Some(_) => {
            assert(forall|j: int| 0 <= j < i ==> (#[trigger] fs1[j]).path != full_path);
            lemma_find_entry_characterize(fs1, full_path, i);
        },
        None => {
            assert(forall|j: int| 0 <= j < i ==> (#[trigger] fs1[j]).path != full_path);
            lemma_find_entry_characterize(fs1, full_path, i);
        },
    }
    assert(spec_find_entry(fs1, full_path) == Some(i));
    assert(fs1[i].readable);
    assert(fs1[i].data == body);
}

/// Missing-file mapping: a download of a missing path answers `404`, a
/// read-protected file `403`, and any other filesystem failure maps to
/// `500` — always a structured response, never a dropped connection.
pub proof fn lemma_missing_file_mapping(
    fs: Seq<FsEntryView>,
    full_path: Seq<u8>,
    dr: Result<ResponseView, HttpError>,
)
    requires
        spec_download_via_fs(fs, full_path, dr),
    ensures
        (dr is Ok),
        match spec_find_entry(fs, full_path) {
            Option::None => dr->Ok_0.code == StatusCode::NotFound,
            Option::Some(i) => !fs[i].readable ==> dr->Ok_0.code == StatusCode::Forbidden,
        },
        crate::handlers::spec_fs_error_code(crate::fs_model::FsErrorKind::Other)
            == StatusCode::InternalServerError,
{
}

/// Malformed-request isolation, as far as one exchange reaches: a
/// request the parser rejects ends its own connection with an error,
/// with not a byte written and the filesystem untouched. (That no other
/// connection is affected is the task model: each connection owns its
/// socket, request and response exclusively.)
pub proof fn lemma_malformed_request_isolation(
    config: ConfigurationView,
    cwd: Seq<u8>,
    fs0: Seq<FsEntryView>,
    routes: Seq<RouteView>,
    input: Seq<u8>,
    r: Result<(), HttpError>,
    fs1: Seq<FsEntryView>,
    out0: Seq<u8>,
    out1: Seq<u8>,
)
    requires
        (spec_parse_query(input) is Err),
        spec_connection_post(config, cwd, fs0, routes, input, r, fs1, out0, out1),
    ensures
        (r is Err),
        r->Err_0 == (HttpError { kind: spec_parse_query(input)->Err_0 }),
        fs1 == fs0,
        out1 == out0,
{
}

} // verus!
