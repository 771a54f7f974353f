use aionui_core::db::{
    binding_outcome, filter_visible, keep_if_visible, may_use_oauth_tokens, oauth_delete_refused,
    oauth_upsert_refused, require_owned, resource_owner_subject, DbError, Provider,
};

fn provider(id: &str, owner: &str) -> Provider {
    Provider {
        id: id.into(),
        platform: "openai".into(),
        name: id.into(),
        base_url: String::new(),
        api_key_encrypted: String::new(),
        models: "[]".into(),
        enabled: true,
        capabilities: "[]".into(),
        context_limit: None,
        model_protocols: None,
        model_enabled: None,
        model_health: None,
        bedrock_config: None,
        is_full_url: false,
        owner_user_id: owner.into(),
    }
}

#[test]
fn listings_show_own_and_shared_rows() {
    let rows = vec![provider("1", "a"), provider("2", "__shared__"), provider("3", "b"), provider("4", "a")];
    let ids: Vec<String> = filter_visible(rows, "a").into_iter().map(|p| p.id).collect();
    assert_eq!(ids, vec!["1", "2", "4"]);
}

#[test]
fn lookups_hide_other_users_rows() {
    assert!(keep_if_visible(Some(provider("1", "b")), "a").is_none());
    assert!(keep_if_visible(Some(provider("1", "__shared__")), "a").is_some());
    assert!(keep_if_visible(None::<Provider>, "a").is_none());
}

#[test]
fn changes_need_ownership() {
    assert!(require_owned(Some(provider("p1", "a")), "a", "Provider", "p1").is_ok());
    match require_owned(Some(provider("p1", "__shared__")), "a", "Provider", "p1") {
        Err(DbError::NotFound(m)) => assert_eq!(m, "Provider 'p1' not found"),
        _ => panic!("expected not found"),
    }
    match require_owned(None::<Provider>, "a", "MCP server", "m1") {
        Err(DbError::NotFound(m)) => assert_eq!(m, "MCP server 'm1' not found"),
        _ => panic!("expected not found"),
    }
}

#[test]
fn oauth_tokens_belong_to_default_owner() {
    assert!(may_use_oauth_tokens("system_default_user"));
    assert!(!may_use_oauth_tokens("user-a"));
    assert!(matches!(oauth_upsert_refused(), DbError::NotFound(m) if m == "OAuth token owner not supported"));
    assert!(matches!(
        oauth_delete_refused("https://x"),
        DbError::NotFound(m) if m == "OAuth token for 'https://x' not found"
    ));
}

#[test]
fn bindings_report_missing_rows() {
    assert!(binding_outcome(1, "Conversation", "c1").is_ok());
    assert!(matches!(
        binding_outcome(0, "Conversation", "c1"),
        Err(DbError::NotFound(m)) if m == "Conversation 'c1' not found"
    ));
    assert!(matches!(
        binding_outcome(0, "Team", "t1"),
        Err(DbError::NotFound(m)) if m == "Team 't1' not found"
    ));
}

#[test]
fn owner_subject_is_truncated_sha256_hex() {
    // SHA-256("abc") = ba7816bf8f01cfea414140de5dae2223b00361a396177a9cb410ff61f20015ad
    assert_eq!(resource_owner_subject("abc"), "ba7816bf8f01cfea414140de");
    assert_eq!(resource_owner_subject("").len(), 24);
    assert_eq!(resource_owner_subject(""), "e3b0c44298fc1c149afbf4c8");
    let k = resource_owner_subject("user-with-ünïcode");
    assert!(k.chars().all(|c| c.is_ascii_digit() || ('a'..='f').contains(&c)));
}

#[test]
fn db_errors_describe_themselves() {
    assert_eq!(DbError::NotFound("x".into()).describe(), "Not found: x");
    assert_eq!(DbError::Query("y".into()).describe(), "Database error: y");
}
