//! The ordered route table. A route pairs a verb condition and a path
//! condition (byte-exact match or literal byte prefix) with a target:
//! either a fixed status or one of the built-in handlers. The table is
//! scanned in declaration order and the first match wins.
use vstd::prelude::*;

use crate::HttpError;
use crate::HttpErrorKind;
use crate::HttpVerb;
use crate::StatusCode;
use crate::byteseq::bytes_eq;
use crate::byteseq::is_prefix;
use crate::byteseq::starts_with;
use crate::config::Configuration;
use crate::config::ConfigurationView;
use crate::config::joined_path;
use crate::config::spec_base_dir;
use crate::fs_model::FileCreateOutcome;
use crate::fs_model::FsEntryView;
use crate::fs_model::FsErrorKind;
use crate::fs_model::FsModel;
use crate::fs_model::spec_find_entry;
use crate::handlers::handle_download_file;
use crate::handlers::handle_echo;
use crate::handlers::handle_upload_file;
use crate::handlers::handle_user_agent;
use crate::handlers::spec_echo_post;
use crate::handlers::spec_file_stream_response;
use crate::handlers::spec_fs_error_code;
use crate::handlers::spec_status_response;
use crate::handlers::spec_upload_stream;
use crate::handlers::spec_user_agent_post;
use crate::request::Request;
use crate::request::RequestView;
use crate::request::spec_content_length;
use crate::response::Response;
use crate::response::ResponseView;
use crate::response::response_result_view;
use crate::stream::ByteSink;

verus! {

/// The built-in handlers a dynamic route can dispatch to.
#[derive(Clone, Copy, PartialEq, Eq, Structural, Debug)]
pub enum HandlerKind {
    Echo,
    UserAgent,
    DownloadFile,
    UploadFile,
}

/// What a matched route does: answer with a fixed status, or run a
/// handler.
#[derive(Clone, Copy, PartialEq, Eq, Structural, Debug)]
pub enum RouteTarget {
    Static(StatusCode),
    Dynamic(HandlerKind),
}

pub struct Route {
    verb: HttpVerb,
    path: Vec<u8>,
    // If `exact` is true, the request path must equal `path` exactly.
    // Otherwise `path` is a literal byte prefix of the request path.
    exact: bool,
    handler: RouteTarget,
}

pub struct RouteView {
    pub verb: HttpVerb,
    pub path: Seq<u8>,
    pub exact: bool,
    pub handler: RouteTarget,
}

impl View for Route {
    type V = RouteView;

    closed spec fn view(&self) -> RouteView {
        RouteView {
            verb: self.verb,
            path: self.path@,
            exact: self.exact,
            handler: self.handler,
        }
    }
}

impl DeepView for Route {
    type V = RouteView;

    open spec fn deep_view(&self) -> RouteView {
        self.view()
    }
}

/// The route's verb condition: a wildcard route takes any verb, any other
/// route exactly the request's verb.
pub open spec fn spec_verb_matches(route: RouteView, req: RequestView) -> bool {
    route.verb == HttpVerb::Any || req.verb == route.verb
}

/// The route's path condition: byte-exact equality, or a literal byte
/// prefix with no regard to segment boundaries.
pub open spec fn spec_path_matches(route: RouteView, req: RequestView) -> bool {
    if route.exact {
        req.path == route.path
    } else {
        is_prefix(req.path, route.path)
    }
}

pub open spec fn spec_route_matches(route: RouteView, req: RequestView) -> bool {
    spec_verb_matches(route, req) && spec_path_matches(route, req)
}

/// The first matching route at or after `i`, with the byte length of its
/// declared path (the matched length handed to prefix stripping).
pub open spec fn first_match_from(routes: Seq<RouteView>, req: RequestView, i: int) -> Option<
    (int, nat),
>
    decreases routes.len() - i,
{
    if i < 0 || i >= routes.len() {
        None
    } else if spec_route_matches(routes[i], req) {
        Some((i, routes[i].path.len()))
    } else {
        first_match_from(routes, req, i + 1)
    }
}

/// The first matching route of the table, scanned in declaration order.
pub open spec fn spec_first_match(routes: Seq<RouteView>, req: RequestView) -> Option<(int, nat)> {
    first_match_from(routes, req, 0)
}

/// Route `i` is the one the table selects: it matches, and no earlier
/// entry does.
pub open spec fn spec_selected(routes: Seq<RouteView>, req: RequestView, i: int) -> bool {
    &&& 0 <= i < routes.len()
    &&& spec_route_matches(routes[i], req)
    &&& forall|j: int| 0 <= j < i ==> !spec_route_matches(#[trigger] routes[j], req)
}

impl Route {
    pub fn new(verb: HttpVerb, path: Vec<u8>, exact: bool, handler: RouteTarget) -> (r: Route)
        ensures
            r@ == (RouteView { verb, path: path@, exact, handler }),
    {
        Route { verb, path, exact, handler }
    }

    /// The matched length when this route accepts the request: the byte
    /// length of the route's declared path.
    pub fn matches(&self, request: &Request) -> (r: Option<usize>)
        ensures
            r is Some <==> spec_route_matches(self@, request@),
            r is Some ==> r->0 == self@.path.len() && r->0 <= request@.path.len(),
    {
        let verb_matches = matches!(self.verb, HttpVerb::Any) || request.verb() == self.verb;
        let path_matches = if self.exact {
            bytes_eq(request.path(), &self.path)
        } else {
            starts_with(request.path(), &self.path)
        };

        if verb_matches && path_matches {
            Some(self.path.len())
        } else {
            None
        }
    }

    /// The route's target, for the dispatcher.
    pub fn target(&self) -> (r: RouteTarget)
        ensures
            r == self@.handler,
    {
        self.handler
    }
}

/// Scans the table in order; returns the index of the first matching
/// route and its matched length.
pub fn find_route(routes: &Vec<Route>, request: &Request) -> (r: Option<(usize, usize)>)
    ensures
        r is Some <==> spec_first_match(routes.deep_view(), request@) is Some,
        r is Some ==> spec_first_match(routes.deep_view(), request@) == Some(
            ((r->0).0 as int, (r->0).1 as nat),
        ) && (r->0).0 < routes.len() && (r->0).1 <= request@.path.len(),
{
    let ghost rs = routes.deep_view();
    let mut i: usize = 0;
    while i < routes.len()
        invariant
            i <= routes.len(),
            rs == routes.deep_view(),
            rs.len() == routes.len(),
            forall|j: int| 0 <= j < rs.len() ==> #[trigger] rs[j] == routes@[j]@,
            spec_first_match(rs, request@) == first_match_from(rs, request@, i as int),
        decreases routes.len() - i,
    {
        if let Some(len) = routes[i].matches(request) {
            return Some((i, len));
        }
        i += 1;
    }
    None
}

/// A file entry as an upload leaves it: readable, at the resolved path.
pub open spec fn upload_entry(path: Seq<u8>, data: Seq<u8>) -> FsEntryView {
    FsEntryView { path, data, readable: true }
}

/// What a download leaves for the client, read through the filesystem:
/// a missing path answers `404`, a read-protected one `403`, otherwise
/// the file's bytes are streamed with their size declared.
pub open spec fn spec_download_via_fs(
    fs: Seq<FsEntryView>,
    full_path: Seq<u8>,
    r: Result<ResponseView, HttpError>,
) -> bool {
    &&& r is Ok
    &&& match spec_find_entry(fs, full_path) {
        Option::None => spec_status_response(spec_fs_error_code(FsErrorKind::NotFound), r->Ok_0),
        Option::Some(i) => if fs[i].readable {
            spec_file_stream_response(fs[i].data.len(), fs[i].data, r->Ok_0)
        } else {
            spec_status_response(spec_fs_error_code(FsErrorKind::PermissionDenied), r->Ok_0)
        },
    }
}

/// Where the uploaded file sits afterwards: the entry already at the
/// path, or a fresh one at the end.
pub open spec fn spec_upload_index(fs: Seq<FsEntryView>, full_path: Seq<u8>) -> int {
    match spec_find_entry(fs, full_path) {
        Option::Some(i) => i,
        Option::None => fs.len() as int,
    }
}

/// The filesystem right after the upload target was created: the entry
/// truncated in place, or appended.
pub open spec fn spec_upload_base(fs: Seq<FsEntryView>, full_path: Seq<u8>) -> Seq<FsEntryView> {
    match spec_find_entry(fs, full_path) {
        Option::Some(i) => fs.update(i, upload_entry(full_path, Seq::empty())),
        Option::None => fs.push(upload_entry(full_path, Seq::empty())),
    }
}

/// What an upload answers and leaves in the filesystem. The target is
/// created (truncated) in every case. With a declared length and a
/// streamed body the declared count of body bytes is copied in and the
/// answer is `201`; without them the answer is `500`; a body shorter
/// than declared is a dispatch failure that leaves the full chunks
/// copied so far.
pub open spec fn spec_upload_via_fs(
    fs0: Seq<FsEntryView>,
    full_path: Seq<u8>,
    req: RequestView,
    r: Result<ResponseView, HttpError>,
    fs1: Seq<FsEntryView>,
) -> bool {
    let i = spec_upload_index(fs0, full_path);
    let base = spec_upload_base(fs0, full_path);
    &&& (spec_upload_stream(req) is None ==> r is Ok && spec_status_response(
        StatusCode::InternalServerError,
        r->Ok_0,
    ) && fs1 == base)
    &&& (spec_upload_stream(req) is Some ==> ({
        let n = spec_content_length(req)->0;
        let body = spec_upload_stream(req)->0;
        if n <= body.len() {
            r is Ok && spec_status_response(StatusCode::Created, r->Ok_0) && fs1 == base.update(
                i,
                upload_entry(full_path, body.take(n as int)),
            )
        } else {
            r is Err && r->Err_0 == HttpError { kind: HttpErrorKind::UnexpectedEof } && exists|
                k: int,
            |
                0 <= k <= body.len() && fs1 == base.update(
                    i,
                    upload_entry(full_path, body.take(k)),
                )
        }
    }))
}

/// The whole dispatch contract, by target: what the response is and
/// what the filesystem becomes.
pub open spec fn spec_dispatch_post(
    target: RouteTarget,
    config: ConfigurationView,
    cwd: Seq<u8>,
    fs0: Seq<FsEntryView>,
    req: RequestView,
    r: Result<ResponseView, HttpError>,
    fs1: Seq<FsEntryView>,
) -> bool {
    match target {
        RouteTarget::Static(code) => r is Ok && spec_status_response(code, r->Ok_0) && fs1 == fs0,
        RouteTarget::Dynamic(HandlerKind::Echo) => spec_echo_post(req, r) && fs1 == fs0,
        RouteTarget::Dynamic(HandlerKind::UserAgent) => spec_user_agent_post(req, r) && fs1 == fs0,
        RouteTarget::Dynamic(HandlerKind::DownloadFile) => spec_download_via_fs(
            fs0,
            joined_path(spec_base_dir(config, cwd), req.path),
            r,
        ) && fs1 == fs0,
        RouteTarget::Dynamic(HandlerKind::UploadFile) => spec_upload_via_fs(
            fs0,
            joined_path(spec_base_dir(config, cwd), req.path),
            req,
            r,
            fs1,
        ),
    }
}

impl RouteTarget {
    /// Invokes the target: a static target answers its fixed status and
    /// touches nothing; a dynamic target runs its handler, the file
    /// handlers with the filesystem capability.
    pub fn invoke(
        &self,
        config: &Configuration,
        cwd: &Vec<u8>,
        fs: &mut FsModel,
        request: Request,
    ) -> (r: Result<Response, HttpError>)
        ensures
            spec_dispatch_post(
                *self,
                config@,
                cwd@,
                old(fs)@,
                request@,
                response_result_view(r),
                final(fs)@,
            ),
    {
        match self {
            RouteTarget::Static(code) => Ok(Response::from_status(*code)),
            RouteTarget::Dynamic(HandlerKind::Echo) => handle_echo(config, request),
            RouteTarget::Dynamic(HandlerKind::UserAgent) => handle_user_agent(config, request),
            RouteTarget::Dynamic(HandlerKind::DownloadFile) => {
                let full = config.resolve_path(cwd, request.path());
                let outcome = fs.open(&full);
                handle_download_file(config, &request, outcome)
            },
            RouteTarget::Dynamic(HandlerKind::UploadFile) => {
                let full = config.resolve_path(cwd, request.path());
                let ghost full0 = full@;
                let ghost req0 = request@;
                let i = fs.create(&full);
                let ghost base = fs@;
                let mut sink = ByteSink::new();
                let res = handle_upload_file(
                    config,
                    request,
                    FileCreateOutcome::Created,
                    &mut sink,
                );
                let ghost w = sink@;
                let written = sink.into_bytes();
                proof {
                    crate::fs_model::lemma_find_entry_in_bounds(old(fs)@, full0);
                }
                fs.store(i, written);
                proof {
                    assert(base[i as int] == upload_entry(full0, Seq::empty()));
                    if spec_upload_stream(req0) is None {
                        assert(Seq::<u8>::empty() + Seq::<u8>::empty() =~= Seq::<u8>::empty());
                        assert(fs@ =~= base);
                    } else {
                        let n = spec_content_length(req0)->0;
                        let body = spec_upload_stream(req0)->0;
                        if n <= body.len() {
                            assert(Seq::<u8>::empty() + body.take(n as int) =~= body.take(
                                n as int,
                            ));
                        } else {
                            let k = choose|k: int|
                                0 <= k <= body.len() && w == Seq::<u8>::empty() + body.take(k);
                            assert(Seq::<u8>::empty() + body.take(k) =~= body.take(k));
                            assert(fs@ == base.update(i as int, upload_entry(full0, body.take(k))));
                        }
                    }
                }
                res
            },
        }
    }
}

impl Route {
    /// Dispatches the request to this route's target.
    pub fn handle(
        &self,
        config: &Configuration,
        cwd: &Vec<u8>,
        fs: &mut FsModel,
        request: Request,
    ) -> (r: Result<Response, HttpError>)
        ensures
            spec_dispatch_post(
                self@.handler,
                config@,
                cwd@,
                old(fs)@,
                request@,
                response_result_view(r),
                final(fs)@,
            ),
    {
        self.handler.invoke(config, cwd, fs, request)
    }
}

/// Routing is deterministic: at most one route is ever the selected one.
pub proof fn lemma_routing_deterministic(
    routes: Seq<RouteView>,
    req: RequestView,
    i: int,
    j: int,
)
    requires
        spec_selected(routes, req, i),
        spec_selected(routes, req, j),
    ensures
        i == j,
{
    if i < j {
        assert(!spec_route_matches(routes[i], req));
    } else if j < i {
        assert(!spec_route_matches(routes[j], req));
    }
}

/// What the table returns is the selected route: the first entry, in
/// declaration order, that satisfies both the verb and the path
/// condition; and it returns the length of that route's path. When it
/// returns nothing, no entry matches.
pub proof fn lemma_first_match_selected(routes: Seq<RouteView>, req: RequestView)
    ensures
        match spec_first_match(routes, req) {
            Some((i, l)) => spec_selected(routes, req, i) && l == routes[i].path.len(),
            None => forall|i: int|
                0 <= i < routes.len() ==> !spec_route_matches(#[trigger] routes[i], req),
        },
{
    lemma_first_match_from_selected(routes, req, 0);
}

proof fn lemma_first_match_from_selected(routes: Seq<RouteView>, req: RequestView, start: int)
    requires
        0 <= start <= routes.len(),
        forall|j: int| 0 <= j < start ==> !spec_route_matches(#[trigger] routes[j], req),
    ensures
        match first_match_from(routes, req, start) {
            Some((i, l)) => spec_selected(routes, req, i) && l == routes[i].path.len(),
            None => forall|i: int|
                0 <= i < routes.len() ==> !spec_route_matches(#[trigger] routes[i], req),
        },
    decreases routes.len() - start,
{
    if start < routes.len() && !spec_route_matches(routes[start], req) {
        lemma_first_match_from_selected(routes, req, start + 1);
    }
}

/// Prefix stripping is faithful: when a prefix route with path `P`
/// matches a request path `R`, the stripped path the handler receives is
/// exactly `R` without its first `len(P)` bytes, and `P` followed by the
/// stripped path reassembles `R`.
pub proof fn lemma_prefix_stripping(route: RouteView, req: RequestView)
    requires
        !route.exact,
        spec_route_matches(route, req),
    ensures
        req.path.skip(route.path.len() as int).len() == req.path.len() - route.path.len(),
        route.path + req.path.skip(route.path.len() as int) == req.path,
{
    assert(route.path + req.path.skip(route.path.len() as int) =~= req.path);
}

} // verus!
