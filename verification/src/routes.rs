//! The route table and the authorization dispatch.
//!
//! Routing is an explicit table, built once at startup: each entry gives a
//! method, a path pattern (literal segments and parameters), the handler
//! it names, and whether the route is protected. Resolution is first
//! match; within a common prefix, literal segments are listed before
//! parameter segments, so a literal path is never captured by a
//! parameter route. Dispatch gates protected routes on the token
//! service's outcome: an invalid token short-circuits to `Unauthorized`
//! before any handler is named.

use vstd::prelude::*;

use crate::auth::{Principal, RequestContext, TokenOutcome};
use crate::error::ApiError;

verus! {

/// An HTTP method this service routes.
#[derive(Clone, Copy, Debug, PartialEq, Eq, Structural)]
pub enum Method {
    Get,
    Post,
    Put,
    Delete,
}

/// One segment of a path pattern: a literal, or a parameter that matches
/// any one segment.
pub enum Segment {
    Lit(String),
    Param,
}

/// The handler a route names.
#[derive(Clone, Copy, Debug, PartialEq, Eq, Structural)]
pub enum HandlerId {
    GetCaptcha,
    GetCustomBg,
    PostLogin,
    GetWebsiteProfile,
    PostRegister,
    GetResourceList,
    GetResourceDetailByUuid,
    GetCarousel,
    OpenApiDoc,
    SwaggerUi,
    GetUserProfile,
    PutChangePassword,
    PutChangeProfile,
    GetOrders,
    PutUploadAvatar,
    PutBuyResource,
}

/// One route: method, path pattern, handler, and whether the
/// authorization gate guards it.
pub struct Route {
    pub method: Method,
    pub segments: Vec<Segment>,
    pub handler: HandlerId,
    pub auth_required: bool,
}

/// The pattern segment `seg` matches the concrete path segment `s`.
pub open spec fn seg_matches(seg: Segment, s: Seq<char>) -> bool {
    match seg {
        Segment::Lit(l) => l@ == s,
        Segment::Param => true,
    }
}

/// The route `r` matches the request `m` + `path`: same method, same
/// number of segments, and every segment matches.
pub open spec fn route_matches(r: Route, m: Method, path: Seq<String>) -> bool {
    &&& r.method == m
    &&& r.segments@.len() == path.len()
    &&& forall|i: int| 0 <= i < path.len() ==> seg_matches(#[trigger] r.segments@[i], path[i]@)
}

/// Whether `r` matches the request, as `route_matches` describes.
pub fn route_matches_exec(r: &Route, m: Method, path: &Vec<String>) -> (b: bool)
    ensures
        b == route_matches(*r, m, path@),
{
    if r.method != m {
        return false;
    }
    if r.segments.len() != path.len() {
        return false;
    }
    let n = path.len();
    let mut i: usize = 0;
    while i < n
        invariant
            i <= n,
            n == path@.len(),
            r.segments@.len() == n,
            r.method == m,
            forall|j: int| 0 <= j < i ==> seg_matches(#[trigger] r.segments@[j], path@[j]@),
        decreases n - i,
    {
        let ok = match &r.segments[i] {
            Segment::Lit(l) => l.eq(&path[i]),
            Segment::Param => true,
        };
        if !ok {
            assert(!seg_matches(r.segments@[i as int], path@[i as int]@));
            return false;
        }
        i += 1;
    }
    true
}

/// The index of the first route of `table` that matches the request, or
/// nothing when no route does.
pub open spec fn spec_resolve(table: Seq<Route>, m: Method, path: Seq<String>) -> Option<int>
    decreases table.len(),
{
    if table.len() == 0 {
        Option::None
    } else if route_matches(table[0], m, path) {
        Option::Some(0)
    } else {
        match spec_resolve(table.drop_first(), m, path) {
            Option::Some(i) => Option::Some(i + 1),
            Option::None => Option::None,
        }
    }
}

/// After the first `k` routes all missed, resolution is decided by what
/// comes at and after `k`.
proof fn lemma_resolve_after_misses(table: Seq<Route>, m: Method, path: Seq<String>, k: int)
    requires
        0 <= k <= table.len(),
        forall|j: int| 0 <= j < k ==> !route_matches(#[trigger] table[j], m, path),
    ensures
        (k < table.len() && route_matches(table[k], m, path)) ==> spec_resolve(table, m, path)
            == Option::Some(k),
        k == table.len() ==> spec_resolve(table, m, path) is None,
    decreases table.len(),
{
    if table.len() == 0 {
    } else if route_matches(table[0], m, path) {
    } else {
        let sub = table.drop_first();
        assert(forall|j: int| 0 <= j < sub.len() ==> sub[j] == table[j + 1]);
        if k > 0 {
            lemma_resolve_after_misses(sub, m, path, k - 1);
        }
    }
}

/// Resolves the request to the first matching route's index, or to
/// nothing, as `spec_resolve` describes.
pub fn resolve(table: &Vec<Route>, m: Method, path: &Vec<String>) -> (r: Option<usize>)
    ensures
        match r {
            Some(i) => i < table@.len() && spec_resolve(table@, m, path@) == Option::Some(
                i as int,
            ),
            None => spec_resolve(table@, m, path@) is None,
        },
{
    let n = table.len();
    let mut i: usize = 0;
    while i < n
        invariant
            i <= n,
            n == table@.len(),
            forall|j: int| 0 <= j < i ==> !route_matches(#[trigger] table@[j], m, path@),
        decreases n - i,
    {
        if route_matches_exec(&table[i], m, path) {
            proof {
                lemma_resolve_after_misses(table@, m, path@, i as int);
            }
            return Some(i);
        }
        i += 1;
    }
    proof {
        lemma_resolve_after_misses(table@, m, path@, table@.len() as int);
    }
    None
}

/// What dispatch decided for one request.
pub enum Dispatch {
    /// No route matches: 404.
    NotFound,
    /// A protected route was asked for without a valid token: 401, and no
    /// handler is named.
    Unauthorized,
    /// Invoke this handler with this request context.
    Invoke(HandlerId, RequestContext),
}

/// The dispatch decision: resolve the route; an open route proceeds with
/// no principal whatever the token outcome was, a protected route
/// proceeds only with the principal of a valid token.
pub open spec fn spec_dispatch(
    table: Seq<Route>,
    m: Method,
    path: Seq<String>,
    token: TokenOutcome,
) -> Dispatch {
    match spec_resolve(table, m, path) {
        Option::None => Dispatch::NotFound,
        Option::Some(i) => {
            if table[i].auth_required {
                match token {
                    TokenOutcome::Valid(p) => Dispatch::Invoke(
                        table[i].handler,
                        RequestContext { principal: Option::Some(p) },
                    ),
                    TokenOutcome::Invalid => Dispatch::Unauthorized,
                }
            } else {
                Dispatch::Invoke(table[i].handler, RequestContext { principal: Option::None })
            }
        },
    }
}

/// Dispatches one request, as `spec_dispatch` describes.
pub fn dispatch(table: &Vec<Route>, m: Method, path: &Vec<String>, token: TokenOutcome) -> (r:
    Dispatch)
    ensures
        r == spec_dispatch(table@, m, path@, token),
{
    match resolve(table, m, path) {
        None => Dispatch::NotFound,
        Some(i) => {
            if table[i].auth_required {
                match token {
                    TokenOutcome::Valid(p) => Dispatch::Invoke(
                        table[i].handler,
                        RequestContext { principal: Some(p) },
                    ),
                    TokenOutcome::Invalid => Dispatch::Unauthorized,
                }
            } else {
                Dispatch::Invoke(table[i].handler, RequestContext { principal: None })
            }
        },
    }
}

/// The status a dispatch decision answers with before any handler runs:
/// 404 for an unroutable request, 401 at the authorization gate, and
/// none when a handler takes over.
pub fn dispatch_status(d: &Dispatch) -> (r: Option<u16>)
    ensures
        match d {
            Dispatch::NotFound => r == Some(404u16),
            Dispatch::Unauthorized => r == Some(401u16),
            Dispatch::Invoke(_, _) => r is None,
        },
{
    match d {
        Dispatch::NotFound => Some(ApiError::NotFound.http_status()),
        Dispatch::Unauthorized => Some(ApiError::Auth.http_status()),
        Dispatch::Invoke(_, _) => None,
    }
}

/// Law: a request for a protected route without a valid bearer token is
/// short-circuited to `Unauthorized` — which maps to status 401 — and no
/// handler is ever named by the dispatch decision.
pub proof fn lemma_protected_route_rejects_invalid_token(
    table: Seq<Route>,
    m: Method,
    path: Seq<String>,
    token: TokenOutcome,
)
    requires
        spec_resolve(table, m, path) is Some,
        table[spec_resolve(table, m, path)->Some_0].auth_required,
        !(token is Valid),
    ensures
        spec_dispatch(table, m, path, token) == Dispatch::Unauthorized,
        forall|h: HandlerId, ctx: RequestContext|
            spec_dispatch(table, m, path, token) != Dispatch::Invoke(h, ctx),
        ApiError::Auth.spec_status() == 401,
{
}

/// Law: on a route that is not protected — and on an unroutable path —
/// the token outcome never affects the dispatch decision: a missing or
/// garbage token gives the same answer as a valid one.
pub proof fn lemma_open_route_ignores_token(
    table: Seq<Route>,
    m: Method,
    path: Seq<String>,
    token_a: TokenOutcome,
    token_b: TokenOutcome,
)
    requires
        match spec_resolve(table, m, path) {
            Option::Some(i) => !table[i].auth_required,
            Option::None => true,
        },
    ensures
        spec_dispatch(table, m, path, token_a) == spec_dispatch(table, m, path, token_b),
{
}

/// Law: a protected route is never reached without a prior successful
/// token validation — whenever dispatch names a handler on a protected
/// route, the request context carries exactly the principal of the
/// valid token.
pub proof fn lemma_protected_handler_gets_principal(
    table: Seq<Route>,
    m: Method,
    path: Seq<String>,
    token: TokenOutcome,
)
    requires
        spec_resolve(table, m, path) is Some,
        table[spec_resolve(table, m, path)->Some_0].auth_required,
    ensures
        match spec_dispatch(table, m, path, token) {
            Dispatch::Invoke(h, ctx) => ctx.principal is Some && token == TokenOutcome::Valid(
                ctx.principal->0,
            ),
            _ => true,
        },
{
}

/// The cross-cutting middleware wrapping a route, innermost last: CORS,
/// then logging, then panic recovery, and — only on protected routes —
/// the authorization gate, directly before the handler.
pub open spec fn spec_middleware_chain(auth_required: bool) -> Seq<MiddlewareKind> {
    if auth_required {
        seq![
            MiddlewareKind::Cors,
            MiddlewareKind::Logging,
            MiddlewareKind::PanicRecovery,
            MiddlewareKind::AuthGate,
        ]
    } else {
        seq![MiddlewareKind::Cors, MiddlewareKind::Logging, MiddlewareKind::PanicRecovery]
    }
}

/// A cross-cutting middleware of the tree.
#[derive(Clone, Copy, Debug, PartialEq, Eq, Structural)]
pub enum MiddlewareKind {
    Cors,
    Logging,
    PanicRecovery,
    AuthGate,
}

/// The middleware applied around a route's handler, in order, as
/// `spec_middleware_chain` describes.
pub fn middleware_chain(auth_required: bool) -> (r: Vec<MiddlewareKind>)
    ensures
        r@ == spec_middleware_chain(auth_required),
{
    let mut v: Vec<MiddlewareKind> = Vec::new();
    v.push(MiddlewareKind::Cors);
    v.push(MiddlewareKind::Logging);
    v.push(MiddlewareKind::PanicRecovery);
    if auth_required {
        v.push(MiddlewareKind::AuthGate);
    }
    proof {
        assert(v@ =~= spec_middleware_chain(auth_required));
    }
    v
}

/// `s` is the literal segment `l`.
pub open spec fn seg_is_lit(s: Segment, l: Seq<char>) -> bool {
    match s {
        Segment::Lit(x) => x@ == l,
        Segment::Param => false,
    }
}

/// `s` is a parameter segment.
pub open spec fn seg_is_param(s: Segment) -> bool {
    s is Param
}

/// Method, handler and protection of one route.
pub open spec fn route_shape(r: Route, m: Method, h: HandlerId, auth: bool) -> bool {
    r.method == m && r.handler == h && r.auth_required == auth
}

/// The route table of this service. Open routes come first: the root
/// captcha, the login group, the website profile, the register group,
/// the public resource listing and detail, the carousel, and the two
/// read-only API-description routes. The protected group is the user
/// subtree: profile view, password change, profile change, orders,
/// avatar upload, and resource purchase. Within a common prefix a
/// literal segment stands before a parameter segment, so first-match
/// resolution never lets a parameter capture a literal path.
pub open spec fn table_is_api(t: Seq<Route>) -> bool {
    &&& t.len() == 18
    &&& route_shape(t[0], Method::Get, HandlerId::GetCaptcha, false)
    &&& t[0].segments@.len() == 0
    &&& route_shape(t[1], Method::Get, HandlerId::GetCustomBg, false)
    &&& t[1].segments@.len() == 3
    &&& seg_is_lit(t[1].segments@[0], "comm"@)
    &&& seg_is_lit(t[1].segments@[1], "login"@)
    &&& seg_is_lit(t[1].segments@[2], "get_login_bg"@)
    &&& route_shape(t[2], Method::Post, HandlerId::PostLogin, false)
    &&& t[2].segments@.len() == 3
    &&& seg_is_lit(t[2].segments@[0], "comm"@)
    &&& seg_is_lit(t[2].segments@[1], "login"@)
    &&& seg_is_lit(t[2].segments@[2], "loading"@)
    &&& route_shape(t[3], Method::Get, HandlerId::GetCaptcha, false)
    &&& t[3].segments@.len() == 3
    &&& seg_is_lit(t[3].segments@[0], "comm"@)
    &&& seg_is_lit(t[3].segments@[1], "login"@)
    &&& seg_is_param(t[3].segments@[2])
    &&& route_shape(t[4], Method::Get, HandlerId::GetWebsiteProfile, false)
    &&& t[4].segments@.len() == 2
    &&& seg_is_lit(t[4].segments@[0], "comm"@)
    &&& seg_is_lit(t[4].segments@[1], "get_website"@)
    &&& route_shape(t[5], Method::Post, HandlerId::PostRegister, false)
    &&& t[5].segments@.len() == 3
    &&& seg_is_lit(t[5].segments@[0], "comm"@)
    &&& seg_is_lit(t[5].segments@[1], "register"@)
    &&& seg_is_lit(t[5].segments@[2], "create"@)
    &&& route_shape(t[6], Method::Get, HandlerId::GetCaptcha, false)
    &&& t[6].segments@.len() == 3
    &&& seg_is_lit(t[6].segments@[0], "comm"@)
    &&& seg_is_lit(t[6].segments@[1], "register"@)
    &&& seg_is_param(t[6].segments@[2])
    &&& route_shape(t[7], Method::Get, HandlerId::GetResourceList, false)
    &&& t[7].segments@.len() == 2
    &&& seg_is_lit(t[7].segments@[0], "index"@)
    &&& seg_is_lit(t[7].segments@[1], "resources"@)
    &&& route_shape(t[8], Method::Get, HandlerId::GetResourceDetailByUuid, false)
    &&& t[8].segments@.len() == 3
    &&& seg_is_lit(t[8].segments@[0], "index"@)
    &&& seg_is_lit(t[8].segments@[1], "resources"@)
    &&& seg_is_param(t[8].segments@[2])
    &&& route_shape(t[9], Method::Get, HandlerId::GetCarousel, false)
    &&& t[9].segments@.len() == 2
    &&& seg_is_lit(t[9].segments@[0], "index"@)
    &&& seg_is_lit(t[9].segments@[1], "carousel"@)
    &&& route_shape(t[10], Method::Get, HandlerId::OpenApiDoc, false)
    &&& t[10].segments@.len() == 2
    &&& seg_is_lit(t[10].segments@[0], "api-doc"@)
    &&& seg_is_lit(t[10].segments@[1], "openapi.json"@)
    &&& route_shape(t[11], Method::Get, HandlerId::SwaggerUi, false)
    &&& t[11].segments@.len() == 1
    &&& seg_is_lit(t[11].segments@[0], "swagger-ui"@)
    &&& route_shape(t[12], Method::Get, HandlerId::GetUserProfile, true)
    &&& t[12].segments@.len() == 4
    &&& seg_is_lit(t[12].segments@[0], "user"@)
    &&& seg_is_lit(t[12].segments@[1], "profile"@)
    &&& seg_is_lit(t[12].segments@[2], "view"@)
    &&& seg_is_param(t[12].segments@[3])
    &&& route_shape(t[13], Method::Put, HandlerId::PutChangePassword, true)
    &&& t[13].segments@.len() == 4
    &&& seg_is_lit(t[13].segments@[0], "user"@)
    &&& seg_is_lit(t[13].segments@[1], "profile"@)
    &&& seg_is_lit(t[13].segments@[2], "change_pwd"@)
    &&& seg_is_param(t[13].segments@[3])
    &&& route_shape(t[14], Method::Put, HandlerId::PutChangeProfile, true)
    &&& t[14].segments@.len() == 4
    &&& seg_is_lit(t[14].segments@[0], "user"@)
    &&& seg_is_lit(t[14].segments@[1], "profile"@)
    &&& seg_is_lit(t[14].segments@[2], "change_profile"@)
    &&& seg_is_param(t[14].segments@[3])
    &&& route_shape(t[15], Method::Get, HandlerId::GetOrders, true)
    &&& t[15].segments@.len() == 4
    &&& seg_is_lit(t[15].segments@[0], "user"@)
    &&& seg_is_lit(t[15].segments@[1], "profile"@)
    &&& seg_is_lit(t[15].segments@[2], "orders"@)
    &&& seg_is_param(t[15].segments@[3])
    &&& route_shape(t[16], Method::Put, HandlerId::PutUploadAvatar, true)
    &&& t[16].segments@.len() == 3
    &&& seg_is_lit(t[16].segments@[0], "user"@)
    &&& seg_is_lit(t[16].segments@[1], "profile"@)
    &&& seg_is_lit(t[16].segments@[2], "avatar"@)
    &&& route_shape(t[17], Method::Put, HandlerId::PutBuyResource, true)
    &&& t[17].segments@.len() == 3
    &&& seg_is_lit(t[17].segments@[0], "user"@)
    &&& seg_is_lit(t[17].segments@[1], "resource"@)
    &&& seg_is_param(t[17].segments@[2])
}

/// A literal pattern segment.
fn lit_seg(l: &str) -> (r: Segment)
    ensures
        seg_is_lit(r, l@),
{
    Segment::Lit(String::from_str(l))
}

/// A parameter pattern segment.
fn param_seg() -> (r: Segment)
    ensures
        seg_is_param(r),
{
    Segment::Param
}

/// Builds the route table of this service, as `table_is_api` describes.
#[verifier::rlimit(60)]
pub fn api() -> (r: Vec<Route>)
    ensures
        table_is_api(r@),
{
    let mut t: Vec<Route> = Vec::new();

    let s0: Vec<Segment> = Vec::new();
    t.push(
        Route {
            method: Method::Get,
            segments: s0,
            handler: HandlerId::GetCaptcha,
            auth_required: false,
        },
    );

    let mut s1: Vec<Segment> = Vec::new();
    s1.push(lit_seg("comm"));
    s1.push(lit_seg("login"));
    s1.push(lit_seg("get_login_bg"));
    t.push(
        Route {
            method: Method::Get,
            segments: s1,
            handler: HandlerId::GetCustomBg,
            auth_required: false,
        },
    );

    let mut s2: Vec<Segment> = Vec::new();
    s2.push(lit_seg("comm"));
    s2.push(lit_seg("login"));
    s2.push(lit_seg("loading"));
    t.push(
        Route {
            method: Method::Post,
            segments: s2,
            handler: HandlerId::PostLogin,
            auth_required: false,
        },
    );

    let mut s3: Vec<Segment> = Vec::new();
    s3.push(lit_seg("comm"));
    s3.push(lit_seg("login"));
    s3.push(param_seg());
    t.push(
        Route {
            method: Method::Get,
            segments: s3,
            handler: HandlerId::GetCaptcha,
            auth_required: false,
        },
    );

    let mut s4: Vec<Segment> = Vec::new();
    s4.push(lit_seg("comm"));
    s4.push(lit_seg("get_website"));
    t.push(
        Route {
            method: Method::Get,
            segments: s4,
            handler: HandlerId::GetWebsiteProfile,
            auth_required: false,
        },
    );

    let mut s5: Vec<Segment> = Vec::new();
    s5.push(lit_seg("comm"));
    s5.push(lit_seg("register"));
    s5.push(lit_seg("create"));
    t.push(
        Route {
            method: Method::Post,
            segments: s5,
            handler: HandlerId::PostRegister,
            auth_required: false,
        },
    );

    let mut s6: Vec<Segment> = Vec::new();
    s6.push(lit_seg("comm"));
    s6.push(lit_seg("register"));
    s6.push(param_seg());
    t.push(
        Route {
            method: Method::Get,
            segments: s6,
            handler: HandlerId::GetCaptcha,
            auth_required: false,
        },
    );

    let mut s7: Vec<Segment> = Vec::new();
    s7.push(lit_seg("index"));
    s7.push(lit_seg("resources"));
    t.push(
        Route {
            method: Method::Get,
            segments: s7,
            handler: HandlerId::GetResourceList,
            auth_required: false,
        },
    );

    let mut s8: Vec<Segment> = Vec::new();
    s8.push(lit_seg("index"));
    s8.push(lit_seg("resources"));
    s8.push(param_seg());
    t.push(
        Route {
            method: Method::Get,
            segments: s8,
            handler: HandlerId::GetResourceDetailByUuid,
            auth_required: false,
        },
    );

    let mut s9: Vec<Segment> = Vec::new();
    s9.push(lit_seg("index"));
    s9.push(lit_seg("carousel"));
    t.push(
        Route {
            method: Method::Get,
            segments: s9,
            handler: HandlerId::GetCarousel,
            auth_required: false,
        },
    );

    let mut s10: Vec<Segment> = Vec::new();
    s10.push(lit_seg("api-doc"));
    s10.push(lit_seg("openapi.json"));
    t.push(
        Route {
            method: Method::Get,
            segments: s10,
            handler: HandlerId::OpenApiDoc,
            auth_required: false,
        },
    );

    let mut s11: Vec<Segment> = Vec::new();
    s11.push(lit_seg("swagger-ui"));
    t.push(
        Route {
            method: Method::Get,
            segments: s11,
            handler: HandlerId::SwaggerUi,
            auth_required: false,
        },
    );

    let mut s12: Vec<Segment> = Vec::new();
    s12.push(lit_seg("user"));
    s12.push(lit_seg("profile"));
    s12.push(lit_seg("view"));
    s12.push(param_seg());
    t.push(
        Route {
            method: Method::Get,
            segments: s12,
            handler: HandlerId::GetUserProfile,
            auth_required: true,
        },
    );

    let mut s13: Vec<Segment> = Vec::new();
    s13.push(lit_seg("user"));
    s13.push(lit_seg("profile"));
    s13.push(lit_seg("change_pwd"));
    s13.push(param_seg());
    t.push(
        Route {
            method: Method::Put,
            segments: s13,
            handler: HandlerId::PutChangePassword,
            auth_required: true,
        },
    );

    let mut s14: Vec<Segment> = Vec::new();
    s14.push(lit_seg("user"));
    s14.push(lit_seg("profile"));
    s14.push(lit_seg("change_profile"));
    s14.push(param_seg());
    t.push(
        Route {
            method: Method::Put,
            segments: s14,
            handler: HandlerId::PutChangeProfile,
            auth_required: true,
        },
    );

    let mut s15: Vec<Segment> = Vec::new();
    s15.push(lit_seg("user"));
    s15.push(lit_seg("profile"));
    s15.push(lit_seg("orders"));
    s15.push(param_seg());
    t.push(
        Route {
            method: Method::Get,
            segments: s15,
            handler: HandlerId::GetOrders,
            auth_required: true,
        },
    );

    let mut s16: Vec<Segment> = Vec::new();
    s16.push(lit_seg("user"));
    s16.push(lit_seg("profile"));
    s16.push(lit_seg("avatar"));
    t.push(
        Route {
            method: Method::Put,
            segments: s16,
            handler: HandlerId::PutUploadAvatar,
            auth_required: true,
        },
    );

    let mut s17: Vec<Segment> = Vec::new();
    s17.push(lit_seg("user"));
    s17.push(lit_seg("resource"));
    s17.push(param_seg());
    t.push(
        Route {
            method: Method::Put,
            segments: s17,
            handler: HandlerId::PutBuyResource,
            auth_required: true,
        },
    );

    t
}

} // verus!
