use muldex::provider::{
    active_provider_is_configured, active_provider_name, llm_router_provider,
    resolve_provider_config, LegacyLlmRouterConfig, MuldexConfig, ProviderConfig, ProviderMap,
    ProviderResolutionError, ResolvedProviderConfig,
};

fn router_entry(host: &str, port: u16, key: Option<&str>, model: Option<&str>) -> ProviderConfig {
    ProviderConfig {
        kind: "openai-compatible".to_string(),
        host: Some(host.to_string()),
        port: Some(port),
        base_url: None,
        api_key: key.map(|k| k.to_string()),
        api_key_env: None,
        default_model: model.map(|m| m.to_string()),
    }
}

#[test]
fn provider_resolution_prefers_configured_default_provider() {
    let config = MuldexConfig {
        schema_version: "muldex-config-v1".to_string(),
        default_provider: Some("openai-prod".to_string()),
        providers: ProviderMap::from_pairs(vec![
            (
                "llm-router".to_string(),
                router_entry("127.0.0.1", 3000, Some("router-key"), Some("gpt-router")),
            ),
            (
                "openai-prod".to_string(),
                ProviderConfig {
                    kind: "openai-compatible".to_string(),
                    host: None,
                    port: None,
                    base_url: Some("https://api.openai.com/v1".to_string()),
                    api_key: Some("prod-key".to_string()),
                    api_key_env: None,
                    default_model: Some("gpt-5".to_string()),
                },
            ),
        ]),
        llm_router: None,
    };

    let resolved = resolve_provider_config(&config, None, &[]).expect("resolve provider");
    assert_eq!(resolved.name, "openai-prod");
    assert_eq!(resolved.base_url, "https://api.openai.com/v1");
    assert_eq!(resolved.default_model.as_deref(), Some("gpt-5"));
}

#[test]
fn provider_resolution_falls_back_to_legacy_llm_router() {
    let config = MuldexConfig {
        schema_version: "muldex-config-v1".to_string(),
        default_provider: None,
        providers: ProviderMap::new(),
        llm_router: Some(LegacyLlmRouterConfig {
            host: "127.0.0.1".to_string(),
            port: 3000,
            api_key: "legacy-key".to_string(),
            default_model: Some("gpt-5.4".to_string()),
        }),
    };

    let resolved = resolve_provider_config(&config, None, &[]).expect("resolve legacy provider");
    assert_eq!(resolved.name, "llm-router");
    assert_eq!(resolved.base_url, "http://127.0.0.1:3000/v1");
    assert_eq!(resolved.api_key.as_deref(), Some("legacy-key"));
}

#[test]
fn provider_resolution_reads_env_api_key_when_requested() {
    let config = MuldexConfig {
        schema_version: "muldex-config-v1".to_string(),
        default_provider: Some("llm-router".to_string()),
        providers: ProviderMap::from_pairs(vec![(
            "llm-router".to_string(),
            ProviderConfig {
                api_key_env: Some("MULDEX_TEST_PROVIDER_KEY".to_string()),
                ..router_entry("127.0.0.1", 3000, None, None)
            },
        )]),
        llm_router: None,
    };
    let env = vec![(
        "MULDEX_TEST_PROVIDER_KEY".to_string(),
        "env-secret".to_string(),
    )];

    let resolved = resolve_provider_config(&config, None, &env).expect("resolve env key");
    assert_eq!(resolved.api_key.as_deref(), Some("env-secret"));

    let blank = vec![("MULDEX_TEST_PROVIDER_KEY".to_string(), "   ".to_string())];
    let resolved = resolve_provider_config(&config, None, &blank).expect("resolve blank key");
    assert_eq!(resolved.api_key, None);
}

#[test]
fn provider_resolution_errors_when_unconfigured() {
    let error = resolve_provider_config(&MuldexConfig::default(), None, &[])
        .expect_err("unconfigured provider should fail");
    assert_eq!(error, ProviderResolutionError::NoProvidersConfigured);
    assert_eq!(error.message(), "no providers configured");
}

#[test]
fn provider_resolution_reports_each_error() {
    let config = MuldexConfig {
        schema_version: "muldex-config-v1".to_string(),
        default_provider: None,
        providers: ProviderMap::from_pairs(vec![
            (
                "anthropic".to_string(),
                ProviderConfig {
                    kind: "anthropic".to_string(),
                    ..router_entry("h", 1, None, None)
                },
            ),
            ("bare".to_string(), ProviderConfig::default()),
        ]),
        llm_router: None,
    };
    assert_eq!(
        resolve_provider_config(&config, Some("missing"), &[]),
        Err(ProviderResolutionError::ProviderNotFound("missing".to_string()))
    );
    let unsupported = resolve_provider_config(&config, None, &[]).unwrap_err();
    assert_eq!(
        unsupported,
        ProviderResolutionError::UnsupportedProviderKind("anthropic".to_string())
    );
    assert_eq!(unsupported.message(), "provider kind unsupported: anthropic");
    assert_eq!(
        resolve_provider_config(&config, Some("bare"), &[]),
        Err(ProviderResolutionError::MissingEndpoint("bare".to_string()))
    );
}

#[test]
fn provider_resolution_trims_trailing_slashes_and_defaults_kind() {
    let config = MuldexConfig {
        schema_version: "muldex-config-v1".to_string(),
        default_provider: None,
        providers: ProviderMap::from_pairs(vec![(
            "zeta".to_string(),
            ProviderConfig {
                base_url: Some("https://example.com/v1//".to_string()),
                ..ProviderConfig::default()
            },
        )]),
        llm_router: None,
    };
    let resolved = resolve_provider_config(&config, None, &[]).unwrap();
    assert_eq!(resolved.name, "zeta");
    assert_eq!(resolved.kind, "openai-compatible");
    assert_eq!(resolved.base_url, "https://example.com/v1");
}

#[test]
fn resolved_provider_builds_chat_completions_url_once() {
    let resolved = ResolvedProviderConfig {
        name: "llm-router".to_string(),
        kind: "openai-compatible".to_string(),
        base_url: "http://127.0.0.1:3000/v1/".to_string(),
        api_key: None,
        default_model: None,
    };

    assert_eq!(
        resolved.chat_completions_url(),
        "http://127.0.0.1:3000/v1/chat/completions"
    );
    let again = ResolvedProviderConfig {
        base_url: resolved.chat_completions_url(),
        ..resolved.clone()
    };
    assert_eq!(again.chat_completions_url(), resolved.chat_completions_url());
}

#[test]
fn active_provider_is_configured_only_when_default_provider_entry_exists() {
    let mut config = MuldexConfig {
        schema_version: "muldex-config-v1".to_string(),
        default_provider: Some("router-a".to_string()),
        providers: ProviderMap::new(),
        llm_router: None,
    };

    assert!(!active_provider_is_configured(&config, &[]));

    config.providers.insert(
        "router-a".to_string(),
        router_entry("127.0.0.1", 3000, None, Some("gpt-5.4")),
    );

    assert!(active_provider_is_configured(&config, &[]));
}

#[test]
fn active_provider_name_falls_back_to_llm_router_when_default_provider_missing() {
    let config = MuldexConfig {
        schema_version: "muldex-config-v1".to_string(),
        default_provider: None,
        providers: ProviderMap::from_pairs(vec![(
            "llm-router".to_string(),
            router_entry("127.0.0.1", 3000, None, Some("gpt-5.4")),
        )]),
        llm_router: None,
    };

    assert_eq!(active_provider_name(&config), Some("llm-router".to_string()));
    assert!(active_provider_is_configured(&config, &[]));
}

#[test]
fn active_provider_name_uses_smallest_name_last() {
    let config = MuldexConfig {
        schema_version: "v".to_string(),
        default_provider: Some("nope".to_string()),
        providers: ProviderMap::from_pairs(vec![
            ("zulu".to_string(), ProviderConfig::default()),
            ("alpha".to_string(), ProviderConfig::default()),
            ("mike".to_string(), ProviderConfig::default()),
        ]),
        llm_router: None,
    };
    assert_eq!(active_provider_name(&config), Some("alpha".to_string()));
    assert_eq!(
        config.providers.names(),
        vec!["alpha".to_string(), "mike".to_string(), "zulu".to_string()]
    );
    assert_eq!(active_provider_name(&MuldexConfig::default()), None);
}

#[test]
fn provider_map_later_pair_replaces_earlier() {
    let map = ProviderMap::from_pairs(vec![
        ("a".to_string(), router_entry("first", 1, None, None)),
        ("a".to_string(), router_entry("second", 2, None, None)),
    ]);
    assert_eq!(map.len(), 1);
    assert_eq!(map.get("a").unwrap().host.as_deref(), Some("second"));
    assert!(map.contains_key("a"));
    assert!(!map.contains_key("b"));
}

#[test]
fn llm_router_provider_prefers_entry_then_legacy_and_ensure_creates_default() {
    let mut config = MuldexConfig {
        schema_version: "v".to_string(),
        default_provider: None,
        providers: ProviderMap::new(),
        llm_router: Some(LegacyLlmRouterConfig {
            host: "10.0.0.1".to_string(),
            port: 8080,
            api_key: "k".to_string(),
            default_model: None,
        }),
    };
    assert_eq!(
        llm_router_provider(&config).unwrap().host.as_deref(),
        Some("10.0.0.1")
    );
    config.ensure_llm_router();
    let router = llm_router_provider(&config).unwrap();
    assert_eq!(router.host.as_deref(), Some("127.0.0.1"));
    assert_eq!(router.port, Some(3000));
}
