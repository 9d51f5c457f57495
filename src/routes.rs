use vstd::prelude::*;
use vstd::string::StringSliceAdditionalSpecFns;

use crate::config::Startup;

verus! {

/// HTTP request methods, as far as routing distinguishes them.
#[derive(Clone, Copy, Debug, PartialEq, Eq, Structural)]
pub enum Method {
    Get,
    Head,
    Post,
    Put,
    Patch,
    Delete,
    Options,
    Other,
}

/// The handler that a request is dispatched to.
#[derive(Clone, Copy, Debug, PartialEq, Eq, Structural)]
pub enum Handler {
    /// Liveness probe: success with an empty body.
    Health,
    /// The compile delegate, which receives the raw request body.
    Compile,
    /// The version rewriter: always the frontend entry document.
    FrontendVersion,
    /// A file of the frontend directory, or its entry document.
    StaticAssets,
    /// The static asset server refuses methods other than GET and HEAD.
    MethodNotAllowed,
    /// No route matches.
    NotFound,
}

/// The bytes of `/health`.
pub open spec fn health_path() -> Seq<u8> {
    seq![47u8, 104u8, 101u8, 97u8, 108u8, 116u8, 104u8]
}

/// The bytes of `/compile`.
pub open spec fn compile_path() -> Seq<u8> {
    seq![47u8, 99u8, 111u8, 109u8, 112u8, 105u8, 108u8, 101u8]
}

/// The bytes of `/v`, the prefix of every versioned frontend path.
pub open spec fn version_prefix() -> Seq<u8> {
    seq![47u8, 118u8]
}

/// A path under the version prefix: `/v` followed by anything.
pub open spec fn is_version_path(p: Seq<u8>) -> bool {
    p.len() >= 2 && p.take(2) == version_prefix()
}

/// Dispatch in precedence order: `/health` (any method), `POST /compile`,
/// then, only when a frontend is served, `GET /v...` and the static assets.
pub open spec fn route_for(serves_frontend: bool, m: Method, p: Seq<u8>) -> Handler {
    if p == health_path() {
        Handler::Health
    } else if p == compile_path() && m == Method::Post {
        Handler::Compile
    } else if !serves_frontend {
        Handler::NotFound
    } else if m == Method::Get && is_version_path(p) {
        Handler::FrontendVersion
    } else if m == Method::Get || m == Method::Head {
        Handler::StaticAssets
    } else {
        Handler::MethodNotAllowed
    }
}

/// The route table, fixed at startup: the frontend routes are present
/// exactly when a frontend directory is served.
#[derive(Clone, Copy, Debug)]
pub struct RouteTable {
    pub serves_frontend: bool,
}

fn is_health_path(b: &[u8]) -> (r: bool)
    ensures
        r == (b@ == health_path()),
{
    let r = b.len() == 7 && b[0] == 47u8 && b[1] == 104u8 && b[2] == 101u8 && b[3] == 97u8
        && b[4] == 108u8 && b[5] == 116u8 && b[6] == 104u8;
    if r {
        assert(b@ =~= health_path());
    }
    r
}

fn is_compile_path(b: &[u8]) -> (r: bool)
    ensures
        r == (b@ == compile_path()),
{
    let r = b.len() == 8 && b[0] == 47u8 && b[1] == 99u8 && b[2] == 111u8 && b[3] == 109u8
        && b[4] == 112u8 && b[5] == 105u8 && b[6] == 108u8 && b[7] == 101u8;
    if r {
        assert(b@ =~= compile_path());
    }
    r
}

fn has_version_prefix(b: &[u8]) -> (r: bool)
    ensures
        r == is_version_path(b@),
{
    let r = b.len() >= 2 && b[0] == 47u8 && b[1] == 118u8;
    if b.len() >= 2 {
        if r {
            assert(b@.take(2) =~= version_prefix());
        } else {
            assert(b@.take(2)[0] == b@[0] && b@.take(2)[1] == b@[1]);
        }
    }
    r
}

impl RouteTable {
    /// The route table of a validated startup: the frontend routes are
    /// registered exactly when a frontend directory is served.
    pub fn new(startup: &Startup) -> (r: RouteTable)
        ensures
            r.serves_frontend == startup.serves_frontend_spec(),
    {
        RouteTable { serves_frontend: startup.serves_frontend() }
    }

    /// The handler for a request with method `m` on `path` (without query).
    pub fn dispatch(&self, m: Method, path: &str) -> (r: Handler)
        ensures
            r == route_for(self.serves_frontend, m, path.spec_bytes()),
    {
        let b = path.as_bytes();
        if is_health_path(b) {
            Handler::Health
        } else if is_compile_path(b) && m == Method::Post {
            Handler::Compile
        } else if !self.serves_frontend {
            Handler::NotFound
        } else if m == Method::Get && has_version_prefix(b) {
            Handler::FrontendVersion
        } else if m == Method::Get || m == Method::Head {
            Handler::StaticAssets
        } else {
            Handler::MethodNotAllowed
        }
    }
}

/// Without a frontend directory only `/health` and `POST /compile` are
/// served: every other request is not found, and neither the version
/// rewriter nor the static asset server is ever reached.
pub proof fn lemma_routes_without_frontend(m: Method, p: Seq<u8>)
    ensures
        route_for(false, m, p) == (if p == health_path() {
            Handler::Health
        } else if p == compile_path() && m == Method::Post {
            Handler::Compile
        } else {
            Handler::NotFound
        }),
        route_for(false, m, p) != Handler::FrontendVersion,
        route_for(false, m, p) != Handler::StaticAssets,
{
}

/// With a frontend directory, `GET /v` followed by any suffix goes to the
/// version rewriter, exactly as `GET /v` itself does.
pub proof fn lemma_version_suffix_ignored(suffix: Seq<u8>)
    ensures
        route_for(true, Method::Get, version_prefix() + suffix) == Handler::FrontendVersion,
        route_for(true, Method::Get, version_prefix() + suffix) == route_for(
            true,
            Method::Get,
            version_prefix(),
        ),
{
    let p = version_prefix() + suffix;
    assert(p.take(2) =~= version_prefix());
    assert(version_prefix().take(2) =~= version_prefix());
    assert(p[1] != health_path()[1]);
    assert(p[1] != compile_path()[1]);
    assert(version_prefix() != health_path());
}

/// `/health` is routed to the health handler whatever the method and
/// whether or not a frontend is served.
pub proof fn lemma_health_always_routed(serves_frontend: bool, m: Method)
    ensures
        route_for(serves_frontend, m, health_path()) == Handler::Health,
{
}

} // verus!
