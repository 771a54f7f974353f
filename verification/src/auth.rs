//! Authentication of HTTP requests and authorization of scoped agent-runtime tokens.
//!
//! A request is seen through [`RequestInfo`]: its method, the path of its URI, and its
//! headers by lower-case name, each with its value where the value is visible ASCII text.

use vstd::prelude::*;

use crate::api_error::{ApiError, ApiErrorView};
use vstd::string::StringSliceAdditionalSpecFns;
use crate::text::{chars_of, concat, contains_from, starts_with};

verus! {

/// The scope carried by tokens that agent runtimes receive to read skill configuration.
pub const AGENT_SKILL_CONFIG_SCOPE: &'static str = "agent_skill_config";

/// The environment variable holding the secret shared with the private-asset gateway.
pub const PRIVATE_ASSET_GATEWAY_SECRET_ENV: &'static str = "AIONUI_PRIVATE_GATEWAY_SECRET";

/// The header through which the private-asset gateway presents that secret.
pub const PRIVATE_ASSET_GATEWAY_SECRET_HEADER: &'static str = "x-aionui-private-gateway-secret";

/// The identity that local (single-user) mode admits every request as.
pub const LOCAL_USER_ID: &'static str = "system_default_user";

/// The claims of a verified session token.
pub struct TokenPayload {
    pub user_id: String,
    pub username: String,
    pub iat: u64,
    pub exp: u64,
    pub iss: String,
    pub aud: String,
    pub scope: Option<String>,
    pub conversation_id: Option<String>,
}

/// One header of a request: its lower-case name, and its value where the value is
/// visible ASCII text (`None` otherwise).
pub struct HeaderEntry {
    pub name: String,
    pub value: Option<String>,
}

/// What the authorization rules read of an HTTP request.
pub struct RequestInfo {
    pub method: String,
    pub path: String,
    pub headers: Vec<HeaderEntry>,
}

/// The authenticated user of a request.
#[derive(Clone, Debug)]
pub struct CurrentUser {
    /// User ID from the database.
    pub id: String,
    /// Username.
    pub username: String,
}

/// What the authentication rules read of the server's configuration.
pub struct AuthState {
    /// When `true`, token verification is skipped and a fixed default user is admitted.
    pub local: bool,
    /// Shared only by the server and the loopback private-asset gateway.
    pub private_asset_gateway_secret: Option<String>,
}

/// The text value of the first header named `name`: `None` where there is no such
/// header or its value is not visible ASCII text.
pub open spec fn header_text(hs: Seq<HeaderEntry>, name: Seq<char>) -> Option<Seq<char>>
    decreases hs.len(),
{
    if hs.len() == 0 {
        None
    } else if hs[0].name@ == name {
        match hs[0].value {
            Some(v) => Some(v@),
            None => None,
        }
    } else {
        header_text(hs.drop_first(), name)
    }
}

/// Whether `path` is `root` or lies below it (`root` followed by `/`).
pub open spec fn is_route_or_child(path: Seq<char>, root: Seq<char>) -> bool {
    ||| path == root
    ||| {
        &&& root.is_prefix_of(path)
        &&& path.len() > root.len()
        &&& path[root.len() as int] == '/'
    }
}

/// The routes under which an agent runtime may read private assets through the gateway.
pub open spec fn is_private_asset_route(path: Seq<char>) -> bool {
    ||| is_route_or_child(path, "/api/skills"@)
    ||| is_route_or_child(path, "/api/assistants"@)
    ||| is_route_or_child(path, "/api/providers"@)
    ||| is_route_or_child(path, "/api/mcp"@)
    ||| is_route_or_child(path, "/api/agents"@)
}

/// The conversation-cron routes that an agent runtime may call: list, create, and the
/// update of one job named by a non-empty id without `/`.
pub open spec fn is_cron_runtime_route(method: Seq<char>, path: Seq<char>) -> bool {
    if method == "GET"@ && path == "/api/internal/conversation-cron/list"@ {
        true
    } else if method == "POST"@ && path == "/api/internal/conversation-cron/create"@ {
        true
    } else if method == "PUT"@ {
        let prefix = "/api/internal/conversation-cron/jobs/"@;
        &&& prefix.is_prefix_of(path)
        &&& path.len() > prefix.len()
        &&& !path.skip(prefix.len() as int).contains('/')
    } else {
        false
    }
}

/// Whether the request presents the gateway secret: a secret is configured and not
/// empty, and the gateway header holds exactly it.
pub open spec fn gateway_trusted(hs: Seq<HeaderEntry>, expected: Option<Seq<char>>) -> bool {
    match expected {
        Some(e) => e.len() > 0 && header_text(hs, PRIVATE_ASSET_GATEWAY_SECRET_HEADER@) == Some(e),
        None => false,
    }
}

/// The conversation a token is bound to; the empty text where it names none.
pub open spec fn token_conversation(p: TokenPayload) -> Seq<char> {
    match p.conversation_id {
        Some(c) => c@,
        None => Seq::empty(),
    }
}

/// The answer to a request made with token `p`: `None` where it may proceed, else the
/// error it is refused with.
///
/// Tokens without the agent-runtime scope are not restricted. A scoped token may always
/// read the current user; otherwise the request must name the token's user and
/// conversation in its headers, and may only read that conversation, call the
/// conversation-cron routes, or reach a private-asset route through the trusted gateway.
pub open spec fn scoped_token_decision(
    p: TokenPayload,
    req: RequestInfo,
    secret: Option<Seq<char>>,
) -> Option<ApiErrorView> {
    let method = req.method@;
    let path = req.path@;
    let conversation = token_conversation(p);
    if p.scope.deep_view() != Some(AGENT_SKILL_CONFIG_SCOPE@) {
        None
    } else if method == "GET"@ && path == "/api/auth/user"@ {
        None
    } else if header_text(req.headers@, "x-aionui-user-id"@) != Some(p.user_id@) || header_text(
        req.headers@,
        "x-aionui-conversation-id"@,
    ) != Some(conversation) {
        Some(ApiErrorView::Forbidden("Agent runtime token context mismatch"@))
    } else if (method == "GET"@ && path == "/api/conversations/"@ + conversation)
        || is_cron_runtime_route(method, path) || (is_private_asset_route(path)
        && gateway_trusted(req.headers@, secret)) {
        None
    } else {
        Some(ApiErrorView::Forbidden("Agent runtime token is not authorized for this route"@))
    }
}

/// Whether two texts are equal.
pub fn str_eq(a: &str, b: &str) -> (r: bool)
    ensures
        r == (a@ == b@),
{
    a.to_owned() == b.to_owned()
}

/// The text value of the first header of `request` named `name`.
pub fn header(request: &RequestInfo, name: &str) -> (v: Option<String>)
    ensures
        v.deep_view() == header_text(request.headers@, name@),
{
    let hs = &request.headers;
    let mut i: usize = 0;
    assert(hs@.skip(0) =~= hs@);
    while i < hs.len()
        invariant
            i <= hs.len(),
            hs@ == request.headers@,
            header_text(hs@, name@) == header_text(hs@.skip(i as int), name@),
        decreases hs.len() - i,
    {
        assert(hs@.skip(i as int)[0] == hs@[i as int]);
        if str_eq(hs[i].name.as_str(), name) {
            let v = match &hs[i].value {
                Some(v) => Some(v.clone()),
                None => None,
            };
            assert(v.deep_view() == header_text(hs@.skip(i as int), name@));
            return v;
        }
        assert(hs@.skip(i as int).drop_first() =~= hs@.skip(i + 1));
        i = i + 1;
    }
    None
}

/// Compares two byte strings in time that depends on their lengths only.
pub fn constant_time_eq(expected: &[u8], actual: &[u8]) -> (r: bool)
    ensures
        r == (expected@ == actual@),
{
    if expected.len() != actual.len() {
        return false;
    }
    let mut difference: u8 = 0;
    let mut i: usize = 0;
    while i < expected.len()
        invariant
            i <= expected.len() == actual.len(),
            (difference == 0) == (forall|j: int| 0 <= j < i ==> expected@[j] == actual@[j]),
        decreases expected.len() - i,
    {
        let left = expected[i];
        let right = actual[i];
        let next = difference | (left ^ right);
        assert((next == 0) == (difference == 0 && left == right)) by (bit_vector)
            requires
                next == difference | (left ^ right),
        ;
        difference = next;
        i = i + 1;
    }
    if difference == 0 {
        assert(expected@ =~= actual@);
    }
    difference == 0
}

/// Whether `path` is `root` or lies below it.
pub fn route_is_or_has_child(path: &str, root: &str) -> (r: bool)
    ensures
        r == is_route_or_child(path@, root@),
{
    if str_eq(path, root) {
        return true;
    }
    let p = chars_of(path);
    let q = chars_of(root);
    starts_with(&p, &q) && p.len() > q.len() && p[q.len()] == '/'
}

/// Whether `(method, path)` is one of the conversation-cron routes an agent runtime may call.
pub fn is_conversation_cron_runtime_route(method: &str, path: &str) -> (r: bool)
    ensures
        r == is_cron_runtime_route(method@, path@),
{
    if str_eq(method, "GET") && str_eq(path, "/api/internal/conversation-cron/list") {
        true
    } else if str_eq(method, "POST") && str_eq(path, "/api/internal/conversation-cron/create") {
        true
    } else if str_eq(method, "PUT") {
        let p = chars_of(path);
        let prefix = chars_of("/api/internal/conversation-cron/jobs/");
        starts_with(&p, &prefix) && p.len() > prefix.len() && !contains_from(
            &p,
            prefix.len(),
            '/',
        )
    } else {
        false
    }
}

/// Whether `path` is one of the private-asset routes.
pub fn is_private_asset_path(path: &str) -> (r: bool)
    ensures
        r == is_private_asset_route(path@),
{
    route_is_or_has_child(path, "/api/skills") || route_is_or_has_child(path, "/api/assistants")
        || route_is_or_has_child(path, "/api/providers") || route_is_or_has_child(
        path,
        "/api/mcp",
    ) || route_is_or_has_child(path, "/api/agents")
}

proof fn lemma_utf8_injective(a: &str, b: &str)
    requires
        a.spec_bytes() == b.spec_bytes(),
    ensures
        a@ == b@,
{
    vstd::utf8::encode_utf8_decode_utf8(a@);
    vstd::utf8::encode_utf8_decode_utf8(b@);
}

/// Whether the request comes through the private-asset gateway: `expected` is a
/// non-empty secret and the gateway header holds it.
pub fn private_asset_gateway_is_trusted(request: &RequestInfo, expected: Option<&str>) -> (r: bool)
    ensures
        r == gateway_trusted(
            request.headers@,
            match expected {
                Some(e) => Some(e@),
                None => None,
            },
        ),
{
    let expected = match expected {
        Some(e) => e,
        None => return false,
    };
    if expected.is_empty() {
        return false;
    }
    let actual = match header(request, PRIVATE_ASSET_GATEWAY_SECRET_HEADER) {
        Some(a) => a,
        None => return false,
    };
    let actual_text = actual.as_str();
    let r = constant_time_eq(expected.as_bytes(), actual_text.as_bytes());
    proof {
        if r {
            lemma_utf8_injective(expected, actual_text);
        }
    }
    r
}

/// Refuses a request made with a scoped agent-runtime token where the token does not
/// allow it; lets every other request through.
pub fn authorize_scoped_runtime_token(
    payload: &TokenPayload,
    request: &RequestInfo,
    private_asset_gateway_secret: Option<&str>,
) -> (r: Result<(), ApiError>)
    ensures
        match r {
            Ok(()) => scoped_token_decision(
                *payload,
                *request,
                match private_asset_gateway_secret {
                    Some(e) => Some(e@),
                    None => None,
                },
            ) is None,
            Err(e) => scoped_token_decision(
                *payload,
                *request,
                match private_asset_gateway_secret {
                    Some(e) => Some(e@),
                    None => None,
                },
            ) == Some(e@),
        },
{
    let scoped = match &payload.scope {
        Some(s) => str_eq(s.as_str(), AGENT_SKILL_CONFIG_SCOPE),
        None => false,
    };
    if !scoped {
        return Ok(());
    }
    let method = request.method.as_str();
    let path = request.path.as_str();
    if str_eq(method, "GET") && str_eq(path, "/api/auth/user") {
        return Ok(());
    }
    let expected_conversation: String = match &payload.conversation_id {
        Some(c) => c.clone(),
        None => String::new(),
    };
    let user_ok = match header(request, "x-aionui-user-id") {
        Some(v) => v == payload.user_id,
        None => false,
    };
    let conversation_ok = match header(request, "x-aionui-conversation-id") {
        Some(v) => v == expected_conversation,
        None => false,
    };
    if !user_ok || !conversation_ok {
        return Err(ApiError::Forbidden("Agent runtime token context mismatch".to_owned()));
    }
    let conversation_path = concat("/api/conversations/", expected_conversation.as_str());
    let private_asset_route = is_private_asset_path(path);
    let conversation_cron_route = is_conversation_cron_runtime_route(method, path);
    let allowed = (str_eq(method, "GET") && str_eq(path, conversation_path.as_str()))
        || conversation_cron_route || (private_asset_route && private_asset_gateway_is_trusted(
        request,
        private_asset_gateway_secret,
    ));
    if !allowed {
        return Err(
            ApiError::Forbidden("Agent runtime token is not authorized for this route".to_owned()),
        );
    }
    Ok(())
}

/// How far the authentication of one request has come, with what the last outside
/// step returned.
pub enum AuthProgress {
    /// Nothing has been done yet.
    Started,
    /// The bearer token was read from the request (`None`: the request carries none).
    TokenRead(Option<String>),
    /// The token was verified (`None`: signature, expiry or revocation check failed).
    TokenVerified(Option<TokenPayload>),
    /// The token's user was looked up (`Err`: the lookup failed; `Ok(None)`: no such user).
    UserLookedUp(Result<Option<CurrentUser>, ()>),
}

/// What the authentication of a request asks for next.
pub enum AuthAction {
    /// Read the bearer token from the `Authorization` header or the session cookie.
    ReadToken,
    /// Verify this token.
    VerifyToken(String),
    /// Look up the user with this id.
    LookUpUser(String),
    /// Let the request through as this user.
    Admit(CurrentUser),
    /// Answer the request with this error.
    Reject(ApiError),
}

/// The user that local mode admits every request as.
pub fn local_current_user() -> (u: CurrentUser)
    ensures
        u.id@ == LOCAL_USER_ID@,
        u.username@ == LOCAL_USER_ID@,
{
    CurrentUser { id: LOCAL_USER_ID.to_owned(), username: LOCAL_USER_ID.to_owned() }
}

/// What one step of the authentication of `request` asks for, from what has been
/// learnt so far (see [`authentication_step`]).
pub open spec fn authentication_rule(state: AuthState, request: RequestInfo, progress: AuthProgress, a: AuthAction) -> bool {
    &&& state.local ==> (a matches AuthAction::Admit(u) && u.id@ == LOCAL_USER_ID@ && u.username@ == LOCAL_USER_ID@)
    &&& !state.local ==> match progress {
        AuthProgress::Started => a is ReadToken,
        AuthProgress::TokenRead(None) => a matches AuthAction::Reject(e)
            && e@ == ApiErrorView::Unauthorized("Authentication required"@),
        AuthProgress::TokenRead(Some(t)) => a matches AuthAction::VerifyToken(t2) && t2@ == t@,
        AuthProgress::TokenVerified(None) => a matches AuthAction::Reject(e)
            && e@ == ApiErrorView::Unauthorized("Invalid or expired token"@),
        AuthProgress::TokenVerified(Some(p)) => match scoped_token_decision(
            p,
            request,
            state.private_asset_gateway_secret.deep_view(),
        ) {
            Some(err) => a matches AuthAction::Reject(e) && e@ == err,
            None => a matches AuthAction::LookUpUser(id) && id@ == p.user_id@,
        },
        AuthProgress::UserLookedUp(Err(())) => a matches AuthAction::Reject(e)
            && e@ == ApiErrorView::Internal("Authentication service unavailable"@),
        AuthProgress::UserLookedUp(Ok(None)) => a matches AuthAction::Reject(e)
            && e@ == ApiErrorView::Unauthorized("Invalid authentication subject"@),
        AuthProgress::UserLookedUp(Ok(Some(user))) => a matches AuthAction::Admit(u)
            && u.id@ == user.id@ && u.username@ == user.username@,
    }
}

/// One step of the authentication of `request`: from what has been learnt so far, the
/// next outside step, or the verdict.
///
/// In local mode every request is admitted as the default user. Otherwise a request
/// without a token, or with one that fails verification, is refused as unauthorized; a
/// verified token is held to the scoped-token rules; its user is then looked up, and
/// the request is admitted as that user, refused as unauthorized where there is none,
/// and answered with an internal error where the lookup failed.
pub fn authentication_step(state: &AuthState, request: &RequestInfo, progress: AuthProgress) -> (a: AuthAction)
    ensures
        authentication_rule(*state, *request, progress, a),
{
    if state.local {
        return AuthAction::Admit(local_current_user());
    }
    match progress {
        AuthProgress::Started => AuthAction::ReadToken,
        AuthProgress::TokenRead(None) => AuthAction::Reject(
            ApiError::Unauthorized("Authentication required".to_owned()),
        ),
        AuthProgress::TokenRead(Some(token)) => AuthAction::VerifyToken(token),
        AuthProgress::TokenVerified(None) => AuthAction::Reject(
            ApiError::Unauthorized("Invalid or expired token".to_owned()),
        ),
        AuthProgress::TokenVerified(Some(payload)) => {
            let secret: Option<&str> = match &state.private_asset_gateway_secret {
                Some(s) => Some(s.as_str()),
                None => None,
            };
            match authorize_scoped_runtime_token(&payload, request, secret) {
                Err(e) => AuthAction::Reject(e),
                Ok(()) => AuthAction::LookUpUser(payload.user_id),
            }
        },
        AuthProgress::UserLookedUp(Err(())) => AuthAction::Reject(
            ApiError::Internal("Authentication service unavailable".to_owned()),
        ),
        AuthProgress::UserLookedUp(Ok(None)) => AuthAction::Reject(
            ApiError::Unauthorized("Invalid authentication subject".to_owned()),
        ),
        AuthProgress::UserLookedUp(Ok(Some(user))) => AuthAction::Admit(
            CurrentUser { id: user.id, username: user.username },
        ),
    }
}

// ----- laws -----

/// Tokens without the agent-runtime scope are never refused by the scoped-token rules.
pub proof fn law_unscoped_tokens_unrestricted(p: TokenPayload, req: RequestInfo, secret: Option<Seq<char>>)
    requires
        p.scope.deep_view() != Some(AGENT_SKILL_CONFIG_SCOPE@),
    ensures
        scoped_token_decision(p, req, secret) is None,
{
}

/// A scoped token is refused as a context mismatch whenever the request does not name
/// the token's user and conversation in its headers, unless it reads the current user.
pub proof fn law_scoped_token_bound_to_context(p: TokenPayload, req: RequestInfo, secret: Option<Seq<char>>)
    requires
        p.scope.deep_view() == Some(AGENT_SKILL_CONFIG_SCOPE@),
        !(req.method@ == "GET"@ && req.path@ == "/api/auth/user"@),
        header_text(req.headers@, "x-aionui-user-id"@) != Some(p.user_id@) || header_text(
            req.headers@,
            "x-aionui-conversation-id"@,
        ) != Some(token_conversation(p)),
    ensures
        scoped_token_decision(p, req, secret) == Some(
            ApiErrorView::Forbidden("Agent runtime token context mismatch"@),
        ),
{
}

proof fn lemma_route_char(path: Seq<char>, root: Seq<char>, k: int)
    requires
        is_route_or_child(path, root),
        0 <= k < root.len(),
    ensures
        path.len() > k,
        path[k] == root[k],
{
    if path != root {
        assert(path.take(root.len() as int)[k] == path[k]);
    }
}

/// A scoped token never reaches a private-asset route without the gateway secret: such
/// a request is refused, whatever headers it carries.
pub proof fn law_private_assets_need_gateway(p: TokenPayload, req: RequestInfo, secret: Option<Seq<char>>)
    requires
        p.scope.deep_view() == Some(AGENT_SKILL_CONFIG_SCOPE@),
        is_private_asset_route(req.path@),
        !gateway_trusted(req.headers@, secret),
    ensures
        scoped_token_decision(p, req, secret) is Some,
{
    let path = req.path@;
    reveal_strlit("/api/skills");
    reveal_strlit("/api/assistants");
    reveal_strlit("/api/providers");
    reveal_strlit("/api/mcp");
    reveal_strlit("/api/agents");
    reveal_strlit("/api/auth/user");
    reveal_strlit("/api/conversations/");
    reveal_strlit("/api/internal/conversation-cron/list");
    reveal_strlit("/api/internal/conversation-cron/create");
    reveal_strlit("/api/internal/conversation-cron/jobs/");
    // Every private-asset route has `s`, `a`, `p` or `m` at index 5, where the
    // current-user, conversation and conversation-cron routes have `a`+`u`, `c` and `i`.
    if is_route_or_child(path, "/api/skills"@) {
        lemma_route_char(path, "/api/skills"@, 5);
    } else if is_route_or_child(path, "/api/assistants"@) {
        lemma_route_char(path, "/api/assistants"@, 5);
        lemma_route_char(path, "/api/assistants"@, 6);
    } else if is_route_or_child(path, "/api/providers"@) {
        lemma_route_char(path, "/api/providers"@, 5);
    } else if is_route_or_child(path, "/api/mcp"@) {
        lemma_route_char(path, "/api/mcp"@, 5);
    } else {
        lemma_route_char(path, "/api/agents"@, 5);
        lemma_route_char(path, "/api/agents"@, 6);
    }
    assert(path.len() > 6 && (path[5] == 's' || path[5] == 'a' || path[5] == 'p' || path[5] == 'm'));
    assert(path[5] == 'a' ==> (path[6] == 's' || path[6] == 'g'));
    assert(path != "/api/auth/user"@) by {
        if path == "/api/auth/user"@ {
            assert(path[6] == 'u');
        }
    }
    let conversation = "/api/conversations/"@ + token_conversation(p);
    assert(path != conversation) by {
        if path == conversation {
            assert(conversation[5] == 'c');
        }
    }
    assert(!is_cron_runtime_route(req.method@, path)) by {
        let jobs = "/api/internal/conversation-cron/jobs/"@;
        if jobs.is_prefix_of(path) {
            assert(path[5] == jobs[5]);
        }
    }
}

/// Outside local mode a request is only let through as a user that the user store
/// returned for the token's subject: every admission answers a successful lookup.
pub proof fn law_admission_needs_found_user(state: AuthState, request: RequestInfo, progress: AuthProgress, a: AuthAction)
    requires
        !state.local,
        authentication_rule(state, request, progress, a),
        a is Admit,
    ensures
        progress matches AuthProgress::UserLookedUp(Ok(Some(user))) && a->Admit_0.id@ == user.id@,
{
}

/// Outside local mode a user is only looked up for a token that passed verification and
/// the scoped-token rules, and the user looked up is the token's subject.
pub proof fn law_lookup_needs_authorized_token(state: AuthState, request: RequestInfo, progress: AuthProgress, a: AuthAction)
    requires
        !state.local,
        authentication_rule(state, request, progress, a),
        a is LookUpUser,
    ensures
        progress matches AuthProgress::TokenVerified(Some(p)) && scoped_token_decision(
            p,
            request,
            state.private_asset_gateway_secret.deep_view(),
        ) is None && a->LookUpUser_0@ == p.user_id@,
{
}

proof fn lemma_root_or_child(path: Seq<char>, root: Seq<char>, rest: Seq<char>)
    requires
        path == root || path == root + seq!['/'] + rest,
    ensures
        is_route_or_child(path, root),
{
    if path != root {
        assert(path.take(root.len() as int) =~= root);
        assert(path[root.len() as int] == '/');
    }
}

/// Through the trusted gateway, a scoped token reaches every private-asset route: a
/// request for `/api/skills`, `/api/assistants`, `/api/providers`, `/api/mcp` or
/// `/api/agents`, or a path below one, that names the token's user and conversation and
/// presents the configured non-empty gateway secret is let through.
pub proof fn law_gateway_opens_private_assets(
    p: TokenPayload,
    req: RequestInfo,
    secret: Seq<char>,
    root: Seq<char>,
    rest: Seq<char>,
)
    requires
        p.scope.deep_view() == Some(AGENT_SKILL_CONFIG_SCOPE@),
        header_text(req.headers@, "x-aionui-user-id"@) == Some(p.user_id@),
        header_text(req.headers@, "x-aionui-conversation-id"@) == Some(token_conversation(p)),
        secret.len() > 0,
        header_text(req.headers@, "x-aionui-private-gateway-secret"@) == Some(secret),
        root == "/api/skills"@ || root == "/api/assistants"@ || root == "/api/providers"@
            || root == "/api/mcp"@ || root == "/api/agents"@,
        req.path@ == root || req.path@ == root + seq!['/'] + rest,
    ensures
        scoped_token_decision(p, req, Some(secret)) is None,
        is_private_asset_route(req.path@),
{
    lemma_root_or_child(req.path@, root, rest);
}

} // verus!
