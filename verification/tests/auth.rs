use aionui_core::api_error::ApiError;
use aionui_core::auth::{
    authentication_step, authorize_scoped_runtime_token, constant_time_eq,
    is_conversation_cron_runtime_route, local_current_user, private_asset_gateway_is_trusted,
    route_is_or_has_child, AuthAction, AuthProgress, AuthState, CurrentUser, HeaderEntry,
    RequestInfo, TokenPayload, AGENT_SKILL_CONFIG_SCOPE, PRIVATE_ASSET_GATEWAY_SECRET_HEADER,
};

fn scoped_payload() -> TokenPayload {
    TokenPayload {
        user_id: "user-1".into(),
        username: String::new(),
        iat: 1,
        exp: u64::MAX,
        iss: "aionui".into(),
        aud: "aionui-webui".into(),
        scope: Some(AGENT_SKILL_CONFIG_SCOPE.into()),
        conversation_id: Some("conv-1".into()),
    }
}

fn request(method: &str, path: &str, headers: &[(&str, &str)]) -> RequestInfo {
    RequestInfo {
        method: method.to_string(),
        path: path.to_string(),
        headers: headers
            .iter()
            .map(|(n, v)| HeaderEntry { name: n.to_string(), value: Some(v.to_string()) })
            .collect(),
    }
}

fn context_request(method: &str, path: &str, user_id: &str, conversation_id: &str) -> RequestInfo {
    request(
        method,
        path,
        &[("x-aionui-user-id", user_id), ("x-aionui-conversation-id", conversation_id)],
    )
}

#[test]
fn scoped_runtime_token_enforces_route_and_context() {
    let payload = scoped_payload();
    let wrong_route = request(
        "GET",
        "/api/providers",
        &[("x-aionui-user-id", "user-1"), ("x-aionui-conversation-id", "conv-1")],
    );
    assert!(authorize_scoped_runtime_token(&payload, &wrong_route, Some("gateway-secret")).is_err());
    let valid = request(
        "GET",
        "/api/providers",
        &[
            ("x-aionui-user-id", "user-1"),
            ("x-aionui-conversation-id", "conv-1"),
            (PRIVATE_ASSET_GATEWAY_SECRET_HEADER, "gateway-secret"),
        ],
    );
    assert!(authorize_scoped_runtime_token(&payload, &valid, Some("gateway-secret")).is_ok());
    let wrong_context = request(
        "GET",
        "/api/providers",
        &[
            ("x-aionui-user-id", "user-2"),
            ("x-aionui-conversation-id", "conv-1"),
            (PRIVATE_ASSET_GATEWAY_SECRET_HEADER, "gateway-secret"),
        ],
    );
    assert!(authorize_scoped_runtime_token(&payload, &wrong_context, Some("gateway-secret")).is_err());
}

#[test]
fn scoped_runtime_token_rejects_spoofed_gateway_secret() {
    let payload = scoped_payload();
    let request = request(
        "GET",
        "/api/mcp/servers",
        &[
            ("x-aionui-user-id", "user-1"),
            ("x-aionui-conversation-id", "conv-1"),
            (PRIVATE_ASSET_GATEWAY_SECRET_HEADER, "wrong-secret"),
        ],
    );

    assert!(authorize_scoped_runtime_token(&payload, &request, Some("gateway-secret")).is_err());
}

#[test]
fn scoped_runtime_token_allows_only_conversation_cron_current_routes_for_its_context() {
    let payload = scoped_payload();

    for (method, path) in [
        ("GET", "/api/internal/conversation-cron/list"),
        ("POST", "/api/internal/conversation-cron/create"),
        ("PUT", "/api/internal/conversation-cron/jobs/cron-1"),
    ] {
        assert!(
            authorize_scoped_runtime_token(
                &payload,
                &context_request(method, path, "user-1", "conv-1"),
                Some("gateway-secret")
            )
            .is_ok(),
            "{method} {path} should be allowed"
        );
    }

    for (method, path) in [
        ("POST", "/api/internal/conversation-cron/list"),
        ("GET", "/api/internal/conversation-cron/create"),
        ("GET", "/api/internal/conversation-cron/jobs/cron-1"),
        ("PUT", "/api/internal/conversation-cron/jobs/"),
        ("PUT", "/api/internal/conversation-cron/jobs/cron-1/run"),
        ("GET", "/api/cron/jobs"),
    ] {
        assert!(
            authorize_scoped_runtime_token(
                &payload,
                &context_request(method, path, "user-1", "conv-1"),
                Some("gateway-secret")
            )
            .is_err(),
            "{method} {path} should be rejected"
        );
    }

    assert!(authorize_scoped_runtime_token(
        &payload,
        &context_request("GET", "/api/internal/conversation-cron/list", "other-user", "conv-1"),
        Some("gateway-secret")
    )
    .is_err());
    assert!(authorize_scoped_runtime_token(
        &payload,
        &context_request(
            "GET",
            "/api/internal/conversation-cron/list",
            "user-1",
            "other-conversation"
        ),
        Some("gateway-secret")
    )
    .is_err());
}

#[test]
fn test_local_auth_middleware_injects_default_user() {
    let user = local_current_user();
    assert_eq!(format!("{}:{}", user.id, user.username), "system_default_user:system_default_user");
}

#[test]
fn unscoped_tokens_are_not_restricted() {
    let mut payload = scoped_payload();
    payload.scope = None;
    let r = request("DELETE", "/api/anything", &[]);
    assert!(authorize_scoped_runtime_token(&payload, &r, None).is_ok());
}

#[test]
fn scoped_token_may_read_current_user_without_context() {
    let payload = scoped_payload();
    let r = request("GET", "/api/auth/user", &[]);
    assert!(authorize_scoped_runtime_token(&payload, &r, None).is_ok());
}

#[test]
fn scoped_token_reads_its_own_conversation_only() {
    let payload = scoped_payload();
    let own = context_request("GET", "/api/conversations/conv-1", "user-1", "conv-1");
    assert!(authorize_scoped_runtime_token(&payload, &own, None).is_ok());
    let other = context_request("GET", "/api/conversations/conv-2", "user-1", "conv-1");
    match authorize_scoped_runtime_token(&payload, &other, None) {
        Err(ApiError::Forbidden(m)) => {
            assert_eq!(m, "Agent runtime token is not authorized for this route")
        }
        other => panic!("unexpected {other:?}"),
    }
}

#[test]
fn context_mismatch_message() {
    let payload = scoped_payload();
    let r = context_request("GET", "/api/providers", "user-2", "conv-1");
    match authorize_scoped_runtime_token(&payload, &r, None) {
        Err(ApiError::Forbidden(m)) => assert_eq!(m, "Agent runtime token context mismatch"),
        other => panic!("unexpected {other:?}"),
    }
}

#[test]
fn missing_conversation_claim_expects_empty_header() {
    let mut payload = scoped_payload();
    payload.conversation_id = None;
    let r = context_request("GET", "/api/internal/conversation-cron/list", "user-1", "");
    assert!(authorize_scoped_runtime_token(&payload, &r, None).is_ok());
}

#[test]
fn header_that_is_not_text_does_not_match() {
    let payload = scoped_payload();
    let r = RequestInfo {
        method: "GET".into(),
        path: "/api/internal/conversation-cron/list".into(),
        headers: vec![
            HeaderEntry { name: "x-aionui-user-id".into(), value: None },
            HeaderEntry { name: "x-aionui-user-id".into(), value: Some("user-1".into()) },
            HeaderEntry { name: "x-aionui-conversation-id".into(), value: Some("conv-1".into()) },
        ],
    };
    assert!(authorize_scoped_runtime_token(&payload, &r, None).is_err());
}

#[test]
fn gateway_requires_non_empty_secret() {
    let r = request("GET", "/api/skills", &[(PRIVATE_ASSET_GATEWAY_SECRET_HEADER, "")]);
    assert!(!private_asset_gateway_is_trusted(&r, Some("")));
    assert!(!private_asset_gateway_is_trusted(&r, None));
    let ok = request("GET", "/api/skills", &[(PRIVATE_ASSET_GATEWAY_SECRET_HEADER, "s3")]);
    assert!(private_asset_gateway_is_trusted(&ok, Some("s3")));
    assert!(!private_asset_gateway_is_trusted(&ok, Some("s4")));
}

#[test]
fn constant_time_eq_compares_bytes() {
    assert!(constant_time_eq(b"abc", b"abc"));
    assert!(!constant_time_eq(b"abc", b"abd"));
    assert!(!constant_time_eq(b"abc", b"ab"));
    assert!(constant_time_eq(b"", b""));
}

#[test]
fn route_children() {
    assert!(route_is_or_has_child("/api/mcp", "/api/mcp"));
    assert!(route_is_or_has_child("/api/mcp/servers", "/api/mcp"));
    assert!(!route_is_or_has_child("/api/mcpx", "/api/mcp"));
    assert!(!route_is_or_has_child("/api", "/api/mcp"));
}

#[test]
fn cron_routes() {
    assert!(is_conversation_cron_runtime_route("PUT", "/api/internal/conversation-cron/jobs/a"));
    assert!(!is_conversation_cron_runtime_route("PUT", "/api/internal/conversation-cron/jobs/a/b"));
    assert!(!is_conversation_cron_runtime_route("DELETE", "/api/internal/conversation-cron/jobs/a"));
}

#[test]
fn authentication_steps() {
    let state = AuthState { local: false, private_asset_gateway_secret: None };
    let r = request("GET", "/api/auth/user", &[]);
    assert!(matches!(authentication_step(&state, &r, AuthProgress::Started), AuthAction::ReadToken));
    match authentication_step(&state, &r, AuthProgress::TokenRead(None)) {
        AuthAction::Reject(ApiError::Unauthorized(m)) => assert_eq!(m, "Authentication required"),
        _ => panic!("expected rejection"),
    }
    match authentication_step(&state, &r, AuthProgress::TokenRead(Some("t".into()))) {
        AuthAction::VerifyToken(t) => assert_eq!(t, "t"),
        _ => panic!("expected verification"),
    }
    match authentication_step(&state, &r, AuthProgress::TokenVerified(None)) {
        AuthAction::Reject(ApiError::Unauthorized(m)) => assert_eq!(m, "Invalid or expired token"),
        _ => panic!("expected rejection"),
    }
    match authentication_step(&state, &r, AuthProgress::TokenVerified(Some(scoped_payload()))) {
        AuthAction::LookUpUser(id) => assert_eq!(id, "user-1"),
        _ => panic!("expected lookup"),
    }
    let denied = request("GET", "/api/providers", &[]);
    match authentication_step(&state, &denied, AuthProgress::TokenVerified(Some(scoped_payload()))) {
        AuthAction::Reject(ApiError::Forbidden(m)) => {
            assert_eq!(m, "Agent runtime token context mismatch")
        }
        _ => panic!("expected rejection"),
    }
    match authentication_step(&state, &r, AuthProgress::UserLookedUp(Err(()))) {
        AuthAction::Reject(ApiError::Internal(m)) => {
            assert_eq!(m, "Authentication service unavailable")
        }
        _ => panic!("expected rejection"),
    }
    match authentication_step(&state, &r, AuthProgress::UserLookedUp(Ok(None))) {
        AuthAction::Reject(ApiError::Unauthorized(m)) => {
            assert_eq!(m, "Invalid authentication subject")
        }
        _ => panic!("expected rejection"),
    }
    let found = CurrentUser { id: "u".into(), username: "name".into() };
    match authentication_step(&state, &r, AuthProgress::UserLookedUp(Ok(Some(found)))) {
        AuthAction::Admit(u) => {
            assert_eq!(u.id, "u");
            assert_eq!(u.username, "name");
        }
        _ => panic!("expected admission"),
    }
}

#[test]
fn local_mode_admits_default_user() {
    let state = AuthState { local: true, private_asset_gateway_secret: None };
    let r = request("GET", "/anything", &[]);
    match authentication_step(&state, &r, AuthProgress::Started) {
        AuthAction::Admit(u) => assert_eq!(u.id, "system_default_user"),
        _ => panic!("expected admission"),
    }
}
