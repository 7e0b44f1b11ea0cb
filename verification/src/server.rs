//! The per-connection cycle: parse the head of the input, match the
//! route table in order, strip the matched prefix, dispatch, and write
//! the response — head first, then the body. Each connection serves one
//! exchange. A parse or dispatch failure terminates the exchange with
//! nothing written: the connection is closed silently, by policy.
use vstd::prelude::*;

use crate::HeaderFieldView;
use crate::HttpError;
use crate::HttpVerb;
use crate::PayloadView;
use crate::StatusCode;
use crate::byteseq::ascii_of;
use crate::byteseq::str_bytes;
use crate::config::Configuration;
use crate::config::ConfigurationView;
use crate::fs_model::FsEntryView;
use crate::fs_model::FsModel;
use crate::parser::parse_query;
use crate::parser::spec_parse_query;
use crate::request::Request;
use crate::request::RequestView;
use crate::response::Response;
use crate::response::ResponseView;
use crate::response::header_block_bytes;
use crate::response::write_payload;
use crate::route::HandlerKind;
use crate::route::Route;
use crate::route::RouteTarget;
use crate::route::RouteView;
use crate::route::find_route;
use crate::route::spec_dispatch_post;
use crate::route::spec_first_match;
use crate::stream::ByteSink;
use crate::payload_bytes;

verus! {

/// Everything a response puts on the wire: the head, then the body if
/// one is attached.
pub open spec fn spec_response_wire(resp: ResponseView) -> Seq<u8> {
    header_block_bytes(resp) + match resp.payload {
        Some(p) => payload_bytes(p),
        None => Seq::<u8>::empty(),
    }
}

/// The default answer when no route matches: `404`, no headers, no
/// body, no handler involved.
pub open spec fn spec_default_not_found() -> ResponseView {
    ResponseView {
        code: StatusCode::NotFound,
        headers: Seq::<HeaderFieldView>::empty(),
        payload: None,
    }
}

/// The request a successful parse hands to routing.
pub open spec fn spec_parsed_request(
    verb: HttpVerb,
    path: Seq<u8>,
    hs: Seq<HeaderFieldView>,
    input: Seq<u8>,
    body_start: int,
) -> RequestView {
    RequestView { verb, path, headers: hs, body: Some(PayloadView::Stream(input.skip(body_start))) }
}

/// The whole connection contract: what is answered on the output for a
/// given input, and what the filesystem becomes.
pub open spec fn spec_connection_post(
    config: ConfigurationView,
    cwd: Seq<u8>,
    fs0: Seq<FsEntryView>,
    routes: Seq<RouteView>,
    input: Seq<u8>,
    r: Result<(), HttpError>,
    fs1: Seq<FsEntryView>,
    out0: Seq<u8>,
    out1: Seq<u8>,
) -> bool {
    match spec_parse_query(input) {
        Err(k) => r is Err && r->Err_0 == HttpError { kind: k } && fs1 == fs0 && out1 == out0,
        Ok((verb, path, hs, body_start)) => {
            let req = spec_parsed_request(verb, path, hs, input, body_start);
            match spec_first_match(routes, req) {
                Option::None => r is Ok && fs1 == fs0 && out1 == out0 + spec_response_wire(
                    spec_default_not_found(),
                ),
                Option::Some((i, l)) => {
                    let stripped = RequestView {
                        verb,
                        path: path.skip(l as int),
                        headers: hs,
                        body: Some(PayloadView::Stream(input.skip(body_start))),
                    };
                    exists|hr: Result<ResponseView, HttpError>|
                        #[trigger] spec_dispatch_post(
                            routes[i].handler,
                            config,
                            cwd,
                            fs0,
                            stripped,
                            hr,
                            fs1,
                        ) && match hr {
                            Ok(resp) => r is Ok && out1 == out0 + spec_response_wire(resp),
                            Err(e) => r is Err && r->Err_0 == e && out1 == out0,
                        }
                },
            }
        },
    }
}

/// Serves one connection: parse, route, strip the matched prefix,
/// dispatch, write the head and then the body, close. When no route
/// matches, the default `404` is answered without a handler.
pub fn handle_connection(
    config: &Configuration,
    cwd: &Vec<u8>,
    fs: &mut FsModel,
    routes: &Vec<Route>,
    input: Vec<u8>,
    out: &mut ByteSink,
) -> (r: Result<(), HttpError>)
    ensures
        spec_connection_post(
            config@,
            cwd@,
            old(fs)@,
            routes.deep_view(),
            input@,
            r,
            final(fs)@,
            old(out)@,
            final(out)@,
        ),
{
    let request = match parse_query(input) {
        Ok(request) => request,
        Err(e) => {
            return Err(e);
        },
    };

    match find_route(routes, &request) {
        None => {
            let response = Response::not_found();
            match response.write_header(out) {
                Ok(()) => {},
                Err(e) => {
                    return Err(e);
                },
            }
            proof {
                assert(out@ =~= old(out)@ + spec_response_wire(spec_default_not_found()));
            }
            Ok(())
        },
        Some((idx, size)) => {
            let stripped = Request::strip_path_prefix(request, size);
            let res = routes[idx].handle(config, cwd, fs, stripped);
            let mut response = match res {
                Ok(response) => response,
                Err(e) => {
                    return Err(e);
                },
            };
            let ghost resp0 = response@;
            match response.write_header(out) {
                Ok(()) => {},
                Err(e) => {
                    return Err(e);
                },
            }
            if let Some(payload) = response.payload() {
                match write_payload(payload, out) {
                    Ok(()) => {},
                    Err(e) => {
                        return Err(e);
                    },
                }
            } else {
                proof {
                    assert(spec_response_wire(resp0) =~= header_block_bytes(resp0));
                }
            }
            proof {
                assert(out@ =~= old(out)@ + spec_response_wire(resp0));
            }
            Ok(())
        },
    }
}

/// The standard route table, scanned in order: the bare root, the echo
/// and user-agent routes, the two file routes, and a catch-all declared
/// last so that every request gets a default answer.
pub open spec fn spec_standard_routes() -> Seq<RouteView> {
    seq![
        RouteView {
            verb: HttpVerb::Get,
            path: ascii_of("/"@),
            exact: true,
            handler: RouteTarget::Static(StatusCode::HttpOk),
        },
        RouteView {
            verb: HttpVerb::Get,
            path: ascii_of("/echo/"@),
            exact: false,
            handler: RouteTarget::Dynamic(HandlerKind::Echo),
        },
        RouteView {
            verb: HttpVerb::Get,
            path: ascii_of("/user-agent"@),
            exact: true,
            handler: RouteTarget::Dynamic(HandlerKind::UserAgent),
        },
        RouteView {
            verb: HttpVerb::Get,
            path: ascii_of("/files/"@),
            exact: false,
            handler: RouteTarget::Dynamic(HandlerKind::DownloadFile),
        },
        RouteView {
            verb: HttpVerb::Post,
            path: ascii_of("/files/"@),
            exact: false,
            handler: RouteTarget::Dynamic(HandlerKind::UploadFile),
        },
        RouteView {
            verb: HttpVerb::Any,
            path: ascii_of(""@),
            exact: false,
            handler: RouteTarget::Static(StatusCode::NotFound),
        },
    ]
}

/// Builds the standard route table.
pub fn declare_routes() -> (r: Vec<Route>)
    ensures
        r.deep_view() == spec_standard_routes(),
{
    proof {
        reveal_strlit("/");
        reveal_strlit("/echo/");
        reveal_strlit("/user-agent");
        reveal_strlit("/files/");
        reveal_strlit("");
    }
    let mut routes: Vec<Route> = Vec::new();
    routes.push(
        Route::new(HttpVerb::Get, str_bytes("/"), true, RouteTarget::Static(StatusCode::HttpOk)),
    );
    routes.push(
        Route::new(HttpVerb::Get, str_bytes("/echo/"), false, RouteTarget::Dynamic(HandlerKind::Echo)),
    );
    routes.push(
        Route::new(
            HttpVerb::Get,
            str_bytes("/user-agent"),
            true,
            RouteTarget::Dynamic(HandlerKind::UserAgent),
        ),
    );
    routes.push(
        Route::new(
            HttpVerb::Get,
            str_bytes("/files/"),
            false,
            RouteTarget::Dynamic(HandlerKind::DownloadFile),
        ),
    );
    routes.push(
        Route::new(
            HttpVerb::Post,
            str_bytes("/files/"),
            false,
            RouteTarget::Dynamic(HandlerKind::UploadFile),
        ),
    );
    // The default, it matches anything
    routes.push(
        Route::new(HttpVerb::Any, str_bytes(""), false, RouteTarget::Static(StatusCode::NotFound)),
    );
    proof {
        assert(routes.deep_view() =~= spec_standard_routes());
    }
    routes
}

} // verus!
