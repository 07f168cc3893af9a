use muldex::commands::{InteractiveLlmConfigCommand, InteractiveProviderCommand};
use muldex::config_commands::{
    llm_config_step, provider_command_step, provider_probe_message, router_probe_reply, ConfigStep,
    ProbeOutcome,
};
use muldex::provider::{llm_router_provider, MuldexConfig, ProviderConfig, ProviderMap};

fn openai_prod(port: Option<u16>, base_url: Option<&str>) -> ProviderConfig {
    ProviderConfig {
        kind: "openai-compatible".to_string(),
        host: port.map(|_| "127.0.0.1".to_string()),
        port,
        base_url: base_url.map(str::to_string),
        api_key: None,
        api_key_env: Some("OPENAI_API_KEY".to_string()),
        default_model: Some("gpt-5".to_string()),
    }
}

fn router_entry() -> ProviderConfig {
    ProviderConfig {
        kind: "openai-compatible".to_string(),
        host: Some("127.0.0.1".to_string()),
        port: Some(3000),
        base_url: None,
        api_key: Some("abc".to_string()),
        api_key_env: None,
        default_model: None,
    }
}

fn saved(step: ConfigStep) -> String {
    match step {
        ConfigStep::SaveAndReply(m) => m,
        other => panic!("expected a save, got {other:?}"),
    }
}

fn reply(step: ConfigStep) -> String {
    match step {
        ConfigStep::Reply(m) => m,
        other => panic!("expected a reply, got {other:?}"),
    }
}

#[test]
fn llm_router_config_commands_persist_user_config() {
    let mut config = MuldexConfig::default();
    let message = saved(llm_config_step(
        &mut config,
        InteractiveLlmConfigCommand::SetHost("127.0.0.1".to_string()),
    ));
    assert!(message.contains("llm-router host set to 127.0.0.1"));
    saved(llm_config_step(&mut config, InteractiveLlmConfigCommand::SetPort(3000)));
    let message = saved(llm_config_step(
        &mut config,
        InteractiveLlmConfigCommand::SetApiKey("secret-key".to_string()),
    ));
    assert_eq!(message, "llm-router api-key set to ***-key");

    let router = llm_router_provider(&config).expect("router config");
    assert_eq!(router.host.as_deref(), Some("127.0.0.1"));
    assert_eq!(router.port, Some(3000));
    assert_eq!(router.api_key.as_deref(), Some("secret-key"));
}

#[test]
fn llm_router_config_test_reports_missing_router_config() {
    let mut config = MuldexConfig::default();
    let message = reply(llm_config_step(&mut config, InteractiveLlmConfigCommand::Test));
    assert!(message.contains("router config missing"));
}

#[test]
fn llm_router_config_test_reports_reachable_listener() {
    let mut config = MuldexConfig::default();
    saved(llm_config_step(&mut config, InteractiveLlmConfigCommand::SetHost("127.0.0.1".to_string())));
    saved(llm_config_step(&mut config, InteractiveLlmConfigCommand::SetPort(41234)));
    let step = llm_config_step(&mut config, InteractiveLlmConfigCommand::Test);
    assert_eq!(step, ConfigStep::ProbeRouter { host: "127.0.0.1".to_string(), port: 41234 });
    let message = router_probe_reply("127.0.0.1", 41234, &ProbeOutcome::Reachable).expect("probe");
    assert!(message.contains("test ok"));
    assert_eq!(message, "llm-router test ok: 127.0.0.1:41234 reachable");
}

#[test]
fn llm_router_probe_failures_are_reported_or_raised() {
    assert_eq!(
        router_probe_reply("h", 1, &ProbeOutcome::Unreachable("refused".to_string())).unwrap(),
        "llm-router test failed: h:1 unreachable (refused)"
    );
    assert_eq!(
        router_probe_reply("h", 1, &ProbeOutcome::NoAddress).unwrap(),
        "llm-router test failed: no socket address resolved"
    );
    assert_eq!(
        router_probe_reply("h", 1, &ProbeOutcome::ResolutionFailed("bad host".to_string())),
        Err("bad host".to_string())
    );
}

#[test]
fn llm_show_describes_the_router_entry() {
    let mut config = MuldexConfig::default();
    let message = reply(llm_config_step(&mut config, InteractiveLlmConfigCommand::Show));
    assert_eq!(message, "llm-router host=127.0.0.1 port=3000 api_key=not-set default_model=None");
    saved(llm_config_step(&mut config, InteractiveLlmConfigCommand::SetDefaultModel("gpt-5.4".to_string())));
    let message = reply(llm_config_step(&mut config, InteractiveLlmConfigCommand::Show));
    assert_eq!(
        message,
        "llm-router host=127.0.0.1 port=3000 api_key=not-set default_model=Some(\"gpt-5.4\")"
    );
    saved(llm_config_step(&mut config, InteractiveLlmConfigCommand::SetHost(String::new())));
    assert_eq!(
        reply(llm_config_step(&mut config, InteractiveLlmConfigCommand::Show)),
        "llm-router config not set"
    );
    assert_eq!(
        reply(llm_config_step(&mut config, InteractiveLlmConfigCommand::Invalid("usage".to_string()))),
        "llm-router config error: usage"
    );
}

#[test]
fn provider_use_switches_default_provider() {
    let mut config = MuldexConfig {
        schema_version: "muldex-config-v1".to_string(),
        default_provider: Some("llm-router".to_string()),
        providers: ProviderMap::from_pairs(vec![
            ("llm-router".to_string(), router_entry()),
            ("openai-prod".to_string(), openai_prod(None, Some("https://api.openai.com/v1"))),
        ]),
        llm_router: None,
    };
    let message = saved(provider_command_step(
        &mut config,
        InteractiveProviderCommand::Use("openai-prod".to_string()),
    ));
    assert!(message.contains("default provider set to openai-prod"));
    assert_eq!(config.default_provider.as_deref(), Some("openai-prod"));

    let message = reply(provider_command_step(&mut config, InteractiveProviderCommand::Use("nope".to_string())));
    assert_eq!(message, "provider switch failed: nope not found");
    assert_eq!(config.default_provider.as_deref(), Some("openai-prod"));
}

#[test]
fn provider_test_reports_reachable_named_provider() {
    let mut config = MuldexConfig {
        schema_version: "muldex-config-v1".to_string(),
        default_provider: Some("openai-prod".to_string()),
        providers: ProviderMap::from_pairs(vec![("openai-prod".to_string(), openai_prod(Some(41000), None))]),
        llm_router: None,
    };
    let step = provider_command_step(&mut config, InteractiveProviderCommand::Test(Some("openai-prod".to_string())));
    assert_eq!(
        step,
        ConfigStep::ProbeProvider { name: "openai-prod".to_string(), address: "127.0.0.1:41000".to_string() }
    );
    let message = provider_probe_message("openai-prod", "127.0.0.1:41000", &ProbeOutcome::Reachable);
    assert!(message.contains("provider test ok"));
}

#[test]
fn provider_listing_and_test_failures() {
    let mut config = MuldexConfig {
        schema_version: "muldex-config-v1".to_string(),
        default_provider: None,
        providers: ProviderMap::from_pairs(vec![
            ("zeta".to_string(), openai_prod(None, None)),
            ("alpha".to_string(), openai_prod(None, Some("https://api.example.com/v1"))),
        ]),
        llm_router: None,
    };
    assert_eq!(reply(provider_command_step(&mut config, InteractiveProviderCommand::List)), "providers: alpha, zeta");
    assert_eq!(reply(provider_command_step(&mut config, InteractiveProviderCommand::Show)), "default provider: alpha");
    assert_eq!(
        reply(provider_command_step(&mut config, InteractiveProviderCommand::Test(None))),
        "provider test failed: llm-router not found"
    );
    assert_eq!(
        reply(provider_command_step(&mut config, InteractiveProviderCommand::Test(Some("zeta".to_string())))),
        "provider test failed: zeta missing endpoint (provider has no host/port or base_url)"
    );
    assert_eq!(
        provider_command_step(&mut config, InteractiveProviderCommand::Test(Some("alpha".to_string()))),
        ConfigStep::ProbeProvider { name: "alpha".to_string(), address: "api.example.com:443".to_string() }
    );
    assert_eq!(
        provider_probe_message("alpha", "api.example.com:443", &ProbeOutcome::Unreachable("timed out".to_string())),
        "provider test failed: alpha unreachable at api.example.com:443 (timed out)"
    );
    assert_eq!(
        provider_probe_message("alpha", "x:1", &ProbeOutcome::ResolutionFailed("no dns".to_string())),
        "provider test failed: alpha address resolution failed (no dns)"
    );
    let mut empty = MuldexConfig::default();
    assert_eq!(reply(provider_command_step(&mut empty, InteractiveProviderCommand::List)), "providers: none");
    assert_eq!(reply(provider_command_step(&mut empty, InteractiveProviderCommand::Show)), "default provider: not-set");
}
