use aionui_core::db::{DbError, Provider};
use aionui_core::translation::{
    choose_listed_provider, finish_translation, first_enabled_model, preferred_provider_id,
    provider_query, resolve_listed_provider, resolve_preferred_provider, resolve_provider,
    translation_prompt, AgentError, MessageTranslationService, ProviderAnswer, ProviderQuery,
    ProviderWithModel, TranslationOutputSink, TranslationRun,
};

fn provider(id: &str, enabled: bool, models: &str, switches: Option<&str>) -> Provider {
    Provider {
        id: id.into(),
        platform: "bedrock".into(),
        name: id.into(),
        base_url: String::new(),
        api_key_encrypted: String::new(),
        models: models.into(),
        enabled,
        capabilities: "[]".into(),
        context_limit: None,
        model_protocols: None,
        model_enabled: switches.map(|s| s.to_string()),
        model_health: None,
        bedrock_config: None,
        is_full_url: false,
        owner_user_id: "u".into(),
    }
}

fn preferred(provider_id: &str, model: &str, use_model: Option<&str>) -> ProviderWithModel {
    ProviderWithModel {
        provider_id: provider_id.into(),
        model: model.into(),
        use_model: use_model.map(|s| s.to_string()),
    }
}

#[test]
fn first_enabled_provider_with_usable_model_is_chosen() {
    let providers = vec![
        provider("off", false, r#"["m0"]"#, None),
        provider("none", true, r#"["", "  ", "x"]"#, Some(r#"{"x": false}"#)),
        provider("bad-json", true, "not json", None),
        provider("ok", true, r#"["a", "b"]"#, Some(r#"{"a": false}"#)),
        provider("later", true, r#"["c"]"#, None),
    ];
    let (p, m) = choose_listed_provider(providers).unwrap();
    assert_eq!(p.id, "ok");
    assert_eq!(m, "b");
}

#[test]
fn unparsable_switches_enable_all_models() {
    let (p, m) = choose_listed_provider(vec![provider("p", true, r#"["a"]"#, Some("{oops"))]).unwrap();
    assert_eq!(p.id, "p");
    assert_eq!(m, "a");
}

#[test]
fn no_usable_provider_is_a_bad_request() {
    match choose_listed_provider(vec![provider("p", true, "[]", None)]) {
        Err(AgentError::BadRequest(m)) => {
            assert_eq!(m, "No enabled model provider is available for translation")
        }
        _ => panic!("expected bad request"),
    }
    match resolve_listed_provider(Err(DbError::Query("down".into()))) {
        Err(AgentError::Internal(m)) => {
            assert_eq!(m, "Failed to list translation providers: Database error: down")
        }
        _ => panic!("expected internal"),
    }
}

#[test]
fn preferred_provider_rules() {
    assert_eq!(preferred_provider_id(Some(&preferred("  p1 ", "m", None))), Some("p1".to_string()));
    assert_eq!(preferred_provider_id(Some(&preferred("   ", "m", None))), None);
    assert_eq!(preferred_provider_id(None), None);

    let p = preferred("p1", " base ", Some("  "));
    let (_, m) = resolve_preferred_provider(Ok(Some(provider("p1", true, "[]", None))), &p).unwrap();
    assert_eq!(m, "base");
    let p = preferred("p1", "base", Some(" special "));
    let (_, m) = resolve_preferred_provider(Ok(Some(provider("p1", true, "[]", None))), &p).unwrap();
    assert_eq!(m, "special");

    let expect_bad = |r: Result<(Provider, String), AgentError>, msg: &str| match r {
        Err(AgentError::BadRequest(m)) => assert_eq!(m, msg),
        _ => panic!("expected {msg}"),
    };
    expect_bad(resolve_preferred_provider(Ok(None), &p), "The conversation provider is unavailable");
    expect_bad(
        resolve_preferred_provider(Ok(Some(provider("p1", false, "[]", None))), &p),
        "The conversation provider is disabled",
    );
    expect_bad(
        resolve_preferred_provider(Ok(Some(provider("p1", true, "[]", None))), &preferred("p1", " ", None)),
        "The conversation model is unavailable",
    );
    match resolve_preferred_provider(Err(DbError::NotFound("p1".into())), &p) {
        Err(AgentError::Internal(m)) => assert_eq!(m, "Failed to load translation provider: Not found: p1"),
        _ => panic!("expected internal"),
    }
}

#[test]
fn prompts_and_settings() {
    assert_eq!(
        translation_prompt("Hallo"),
        "Translate the content between <source> and </source>.\n<source>\nHallo\n</source>"
    );
    let svc = MessageTranslationService::new([7u8; 32], "/data".into());
    let mut bedrock = provider("p", true, "[]", None);
    bedrock.bedrock_config = Some(r#"{"region":"eu-west-1"}"#.into());
    let s = svc.translation_settings(&bedrock, "m".into(), "fr-FR");
    assert!(s.uses_bedrock);
    assert_eq!(s.bedrock_config.as_deref(), Some(r#"{"region":"eu-west-1"}"#));
    assert!(s.skills.is_empty());
    assert!(s.extra_mcp_servers.is_empty());
    assert!(s.runtime_env.is_empty());
    assert!(s.session_mode.is_none());
    assert!(s.prompt_dump_dir.is_none());
    assert!(!s.session_enabled);
    assert!(!s.keeps_configured_mcp_servers);
    assert!(!s.file_cache_enabled);
    assert_eq!(s.thinking, "disabled");
    assert!(!s.auto_approve);
    assert_eq!(s.max_tool_call_malformed_turns, 1);
    assert_eq!(s.max_tool_call_failure_turns, 1);
    assert_eq!(s.max_tokens, 8192);
    assert_eq!(s.max_turns, 1);
    assert_eq!(s.session_directory, "/data/message-translation-sessions");
    assert!(s.system_prompt.starts_with(
        "You are a translation engine. Translate the supplied content into locale fr-FR. Preserve Markdown"
    ));
    let mut openai = bedrock;
    openai.platform = "openai".into();
    let o = svc.translation_settings(&openai, "m".into(), "x");
    assert!(!o.uses_bedrock);
    assert!(o.bedrock_config.is_none());
}

#[test]
fn output_is_collected_and_checked() {
    let mut sink = TranslationOutputSink::new();
    sink.emit_text_delta("Bon", "message-translation");
    sink.emit_thinking("hmm", "message-translation");
    sink.emit_text_delta("jour", "message-translation");
    assert_eq!(sink.content(), "Bonjour");
    assert_eq!(finish_translation(TranslationRun::Finished, sink.content()).unwrap(), "Bonjour");
    assert!(matches!(
        finish_translation(TranslationRun::Finished, " \n".into()),
        Err(AgentError::Internal(m)) if m == "Translation returned empty content"
    ));
    assert!(matches!(
        finish_translation(TranslationRun::TimedOut, "x".into()),
        Err(AgentError::Internal(m)) if m == "Translation timed out"
    ));
    assert!(matches!(
        finish_translation(TranslationRun::Failed("boom".into()), "x".into()),
        Err(AgentError::Internal(m)) if m == "Translation failed: boom"
    ));
}

#[test]
fn sink_collects_every_piece_in_order() {
    let mut sink = TranslationOutputSink::new();
    assert_eq!(sink.content(), "");
    sink.emit_stream_start("m");
    for piece in ["a", "", "bc", "d"] {
        sink.emit_text_delta(piece, "m");
        sink.emit_tool_call("t", "n", "{}");
        sink.emit_tool_result("t", "n", false, "ok");
        sink.emit_info("i");
        sink.emit_error("e");
    }
    sink.emit_stream_end("m", 1, 2, 3, 4, 5);
    assert_eq!(sink.content(), "abcd");
    assert_eq!(sink.content(), sink.content());
}

#[test]
fn first_enabled_model_skips_blank_and_switched_off() {
    let models: Vec<String> = vec![" ".into(), "a".into(), "b".into(), "c".into()];
    let pairs = vec![("a".to_string(), false), ("c".to_string(), true)];
    assert_eq!(first_enabled_model(&models, &pairs), Some("b".to_string()));
    let pairs = vec![("b".to_string(), false), ("b".to_string(), true), ("a".to_string(), false)];
    assert_eq!(first_enabled_model(&models, &pairs), Some("c".to_string()));
    let off = vec![("a".to_string(), false), ("b".to_string(), false), ("c".to_string(), false)];
    assert_eq!(first_enabled_model(&models, &off), None);
    assert_eq!(first_enabled_model(&Vec::new(), &Vec::new()), None);
}

#[test]
fn named_provider_is_looked_up_without_fallback() {
    let p = preferred(" p1 ", "m", None);
    assert!(matches!(provider_query(Some(&p)), ProviderQuery::ById(id) if id == "p1"));
    assert!(matches!(provider_query(Some(&preferred("  ", "m", None))), ProviderQuery::ListAll));
    assert!(matches!(provider_query(None), ProviderQuery::ListAll));
    match resolve_provider(Some(&p), ProviderAnswer::Found(Ok(None))) {
        Err(AgentError::BadRequest(m)) => assert_eq!(m, "The conversation provider is unavailable"),
        _ => panic!("expected bad request"),
    }
    let (row, m) = resolve_provider(None, ProviderAnswer::Listed(Ok(vec![provider("x", true, r#"["y"]"#, None)]))).unwrap();
    assert_eq!((row.id.as_str(), m.as_str()), ("x", "y"));
}
