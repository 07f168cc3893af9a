//! What the shell's `/config llm` and `/provider` commands do to the
//! configuration and answer. Loading and saving the configuration, and
//! probing whether an address answers, are the caller's work: a step says
//! whether to save, or which address to probe, and the probe's outcome is
//! turned into the answer here.
use vstd::prelude::*;

use crate::commands::InteractiveLlmConfigCommand;
use crate::commands::InteractiveProviderCommand;
use crate::provider::active_name;
use crate::provider::active_provider_name;
use crate::provider::default_router_entry;
use crate::provider::offered;
use crate::provider::router_name;
use crate::provider::MuldexConfig;
use crate::provider::ProviderConfig;
use crate::provider::ProviderConfigView;
use crate::shell::masked;
use crate::shell::masked_api_key;
use crate::shell::provider_socket_address;
use crate::shell::socket_address;
use crate::text::debug_option_string;
use crate::text::debug_option_text;
use crate::text::decimal;
use crate::text::join2;
use crate::text::join3;
use crate::text::to_chars;
use crate::text::u64_to_decimal;

verus! {

/// What the caller does after a configuration command.
#[derive(Clone, Debug, PartialEq, Eq)]
pub enum ConfigStep {
    /// Show the answer; the configuration is not saved.
    Reply(String),
    /// Save the changed configuration, then show the answer.
    SaveAndReply(String),
    /// Probe whether the llm-router's `host:port` answers.
    ProbeRouter { host: String, port: u16 },
    /// Probe whether the named provider's address answers.
    ProbeProvider { name: String, address: String },
}

/// How probing an address went.
#[derive(Clone, Debug, PartialEq, Eq)]
pub enum ProbeOutcome {
    /// A connection was made.
    Reachable,
    /// The address resolved to nothing.
    NoAddress,
    /// No connection could be made, for the reason given.
    Unreachable(String),
    /// The address could not be resolved, for the reason given.
    ResolutionFailed(String),
}

/// The llm-router entry the commands edit: the configured one, or the local
/// default where there is none.
pub open spec fn router_entry(c: MuldexConfig) -> ProviderConfigView {
    match c.providers.lookup(router_name()) {
        Some(p) => p,
        None => default_router_entry(),
    }
}

pub open spec fn or_empty(o: Option<Seq<char>>) -> Seq<char> {
    match o {
        Some(s) => s,
        None => Seq::empty(),
    }
}

/// The answer to `/config llm show`.
pub open spec fn llm_show_text(p: ProviderConfigView) -> Seq<char> {
    if or_empty(p.host).len() == 0 {
        "llm-router config not set"@
    } else {
        "llm-router host="@ + or_empty(p.host) + " port="@ + decimal(
            match p.port {
                Some(n) => n as nat,
                None => 0,
            },
        ) + " api_key="@ + masked(or_empty(p.api_key)) + " default_model="@ + debug_option_text(
            p.default_model,
        )
    }
}

/// `c2` is `c` with the llm-router entry (created where missing) changed to
/// `entry`; nothing else changes.
pub open spec fn router_set(c: MuldexConfig, c2: MuldexConfig, entry: ProviderConfigView) -> bool {
    &&& c2.providers.wf()
    &&& c2.providers.lookup(router_name()) == Some(entry)
    &&& forall|k: Seq<char>| k != router_name() ==> c2.providers.lookup(k) == c.providers.lookup(k)
    &&& c2.schema_version == c.schema_version
    &&& c2.default_provider == c.default_provider
    &&& c2.llm_router == c.llm_router
}

pub open spec fn reply_is(s: ConfigStep, text: Seq<char>) -> bool {
    s matches ConfigStep::Reply(m) && m@ == text
}

pub open spec fn save_reply_is(s: ConfigStep, text: Seq<char>) -> bool {
    s matches ConfigStep::SaveAndReply(m) && m@ == text
}

/// What `/config llm` does: show the router entry, probe it, set one of its
/// fields (to be saved), or report a malformed command.
pub open spec fn llm_config_stepped(
    c: MuldexConfig,
    cmd: InteractiveLlmConfigCommand,
    c2: MuldexConfig,
    s: ConfigStep,
) -> bool {
    let e = router_entry(c);
    match cmd {
        InteractiveLlmConfigCommand::Show => c2 == c && reply_is(s, llm_show_text(e)),
        InteractiveLlmConfigCommand::Test => c2 == c && match offered(c, router_name()) {
            None => reply_is(s, "llm-router test failed: router config missing"@),
            Some(p) => match p.host {
                None => reply_is(s, "llm-router test failed: host missing"@),
                Some(h) => match p.port {
                    None => reply_is(s, "llm-router test failed: port missing"@),
                    Some(port) => s matches ConfigStep::ProbeRouter { host, port: q } && host@ == h
                        && q == port,
                },
            },
        },
        InteractiveLlmConfigCommand::SetHost(h) => router_set(
            c,
            c2,
            ProviderConfigView { host: Some(h@), ..e },
        ) && save_reply_is(s, "llm-router host set to "@ + h@),
        InteractiveLlmConfigCommand::SetPort(port) => router_set(
            c,
            c2,
            ProviderConfigView { port: Some(port), ..e },
        ) && save_reply_is(s, "llm-router port set to "@ + decimal(port as nat)),
        InteractiveLlmConfigCommand::SetApiKey(k) => router_set(
            c,
            c2,
            ProviderConfigView { api_key: Some(k@), ..e },
        ) && save_reply_is(s, "llm-router api-key set to "@ + masked(k@)),
        InteractiveLlmConfigCommand::SetDefaultModel(m) => router_set(
            c,
            c2,
            ProviderConfigView { default_model: Some(m@), ..e },
        ) && save_reply_is(s, "llm-router default-model set to "@ + m@),
        InteractiveLlmConfigCommand::Invalid(reason) => c2 == c && reply_is(
            s,
            "llm-router config error: "@ + reason@,
        ),
    }
}

fn router_entry_read(config: &MuldexConfig) -> (p: ProviderConfig)
    requires
        config.providers.wf(),
    ensures
        p@ == router_entry(*config),
{
    match config.providers.get("llm-router") {
        Some(p) => p.duplicate(),
        None => ProviderConfig {
            kind: "openai-compatible".to_string(),
            host: Some("127.0.0.1".to_string()),
            port: Some(3000),
            base_url: None,
            api_key: None,
            api_key_env: None,
            default_model: None,
        },
    }
}

fn store_router_entry(config: &mut MuldexConfig, p: ProviderConfig)
    requires
        old(config).providers.wf(),
    ensures
        router_set(*old(config), *final(config), p@),
{
    config.providers.insert("llm-router".to_string(), p);
}

fn llm_show(config: &MuldexConfig) -> (m: String)
    requires
        config.providers.wf(),
    ensures
        m@ == llm_show_text(router_entry(*config)),
{
    let p = router_entry_read(config);
    let host = match &p.host {
        Some(h) => h.clone(),
        None => String::new(),
    };
    if to_chars(host.as_str()).len() == 0 {
        "llm-router config not set".to_string()
    } else {
        let port: u64 = match p.port {
            Some(n) => n as u64,
            None => 0,
        };
        let key = match &p.api_key {
            Some(k) => k.clone(),
            None => String::new(),
        };
        let a = join2("llm-router host=", host.as_str());
        let b = join3(a.as_str(), " port=", u64_to_decimal(port).as_str());
        let c = join3(b.as_str(), " api_key=", masked_api_key(key.as_str()).as_str());
        let r = join3(c.as_str(), " default_model=", debug_option_string(&p.default_model).as_str());
        proof {
            assert(r@ =~= llm_show_text(router_entry(*config)));
        }
        r
    }
}

/// Runs `/config llm`: the answer to show, the answer after saving the
/// changed configuration, or the router address to probe.
pub fn llm_config_step(config: &mut MuldexConfig, command: InteractiveLlmConfigCommand) -> (s:
    ConfigStep)
    requires
        old(config).providers.wf(),
    ensures
        final(config).providers.wf(),
        llm_config_stepped(*old(config), command, *final(config), s),
{
    match command {
        InteractiveLlmConfigCommand::Show => ConfigStep::Reply(llm_show(config)),
        InteractiveLlmConfigCommand::Test => match crate::provider::llm_router_provider(config) {
            None => ConfigStep::Reply("llm-router test failed: router config missing".to_string()),
            Some(p) => match p.host {
                None => ConfigStep::Reply("llm-router test failed: host missing".to_string()),
                Some(host) => match p.port {
                    None => ConfigStep::Reply("llm-router test failed: port missing".to_string()),
                    Some(port) => ConfigStep::ProbeRouter { host, port },
                },
            },
        },
        InteractiveLlmConfigCommand::SetHost(host) => {
            let mut p = router_entry_read(config);
            p.host = Some(host.clone());
            store_router_entry(config, p);
            ConfigStep::SaveAndReply(join2("llm-router host set to ", host.as_str()))
        },
        InteractiveLlmConfigCommand::SetPort(port) => {
            let mut p = router_entry_read(config);
            p.port = Some(port);
            store_router_entry(config, p);
            ConfigStep::SaveAndReply(
                join2("llm-router port set to ", u64_to_decimal(port as u64).as_str()),
            )
        },
        InteractiveLlmConfigCommand::SetApiKey(api_key) => {
            let mut p = router_entry_read(config);
            let masked_key = masked_api_key(api_key.as_str());
            p.api_key = Some(api_key);
            store_router_entry(config, p);
            ConfigStep::SaveAndReply(join2("llm-router api-key set to ", masked_key.as_str()))
        },
        InteractiveLlmConfigCommand::SetDefaultModel(model) => {
            let mut p = router_entry_read(config);
            p.default_model = Some(model.clone());
            store_router_entry(config, p);
            ConfigStep::SaveAndReply(join2("llm-router default-model set to ", model.as_str()))
        },
        InteractiveLlmConfigCommand::Invalid(reason) => ConfigStep::Reply(
            join2("llm-router config error: ", reason.as_str()),
        ),
    }
}

/// The answer to probing the llm-router at `host:port`; an address that
/// cannot be resolved fails the command with the resolver's reason.
pub open spec fn router_probe_text(host: Seq<char>, port: u16, o: ProbeOutcome) -> Result<
    Seq<char>,
    Seq<char>,
> {
    match o {
        ProbeOutcome::Reachable => Ok(
            "llm-router test ok: "@ + host + ":"@ + decimal(port as nat) + " reachable"@,
        ),
        ProbeOutcome::NoAddress => Ok("llm-router test failed: no socket address resolved"@),
        ProbeOutcome::Unreachable(e) => Ok(
            "llm-router test failed: "@ + host + ":"@ + decimal(port as nat) + " unreachable ("@
                + e@ + ")"@,
        ),
        ProbeOutcome::ResolutionFailed(e) => Err(e@),
    }
}

pub open spec fn text_result(r: Result<String, String>) -> Result<Seq<char>, Seq<char>> {
    match r {
        Ok(m) => Ok(m@),
        Err(e) => Err(e@),
    }
}

pub fn router_probe_reply(host: &str, port: u16, outcome: &ProbeOutcome) -> (r: Result<
    String,
    String,
>)
    ensures
        text_result(r) == router_probe_text(host@, port, *outcome),
{
    let address = join3(host, ":", u64_to_decimal(port as u64).as_str());
    match outcome {
        ProbeOutcome::Reachable => {
            let m = join3("llm-router test ok: ", address.as_str(), " reachable");
            proof {
                assert(m@ =~= "llm-router test ok: "@ + host@ + ":"@ + decimal(port as nat)
                    + " reachable"@);
            }
            Ok(m)
        },
        ProbeOutcome::NoAddress => Ok("llm-router test failed: no socket address resolved".to_string()),
        ProbeOutcome::Unreachable(e) => {
            let a = join3("llm-router test failed: ", address.as_str(), " unreachable (");
            let m = join3(a.as_str(), e.as_str(), ")");
            proof {
                assert(m@ =~= "llm-router test failed: "@ + host@ + ":"@ + decimal(port as nat)
                    + " unreachable ("@ + e@ + ")"@);
            }
            Ok(m)
        },
        ProbeOutcome::ResolutionFailed(e) => Err(e.clone()),
    }
}

/// `ss` joined with `sep` between each two.
pub open spec fn joined(ss: Seq<Seq<char>>, sep: Seq<char>) -> Seq<char>
    decreases ss.len(),
{
    if ss.len() == 0 {
        Seq::empty()
    } else if ss.len() == 1 {
        ss[0]
    } else {
        joined(ss.drop_last(), sep) + sep + ss.last()
    }
}

pub(crate) fn join_with(ss: &Vec<String>, sep: &str) -> (r: String)
    ensures
        r@ == joined(ss@.map_values(|s: String| s@), sep@),
{
    let ghost vs = ss@.map_values(|s: String| s@);
    if ss.len() == 0 {
        return String::new();
    }
    let mut r = ss[0].clone();
    let mut i: usize = 1;
    assert(vs.take(1).drop_last() =~= Seq::<Seq<char>>::empty());
    while i < ss.len()
        invariant
            1 <= i <= ss@.len(),
            vs == ss@.map_values(|s: String| s@),
            r@ == joined(vs.take(i as int), sep@),
        decreases ss.len() - i,
    {
        let next = join3(r.as_str(), sep, ss[i].as_str());
        proof {
            assert(vs.take(i + 1).drop_last() =~= vs.take(i as int));
            assert(vs.take(i + 1).last() == vs[i as int]);
        }
        r = next;
        i = i + 1;
    }
    assert(vs.take(ss@.len() as int) =~= vs);
    r
}

/// What `/provider` does: show the active provider, list the providers,
/// make one the default (to be saved), pick the address of one to probe, or
/// report a malformed command.
pub open spec fn provider_stepped(
    c: MuldexConfig,
    cmd: InteractiveProviderCommand,
    c2: MuldexConfig,
    s: ConfigStep,
) -> bool {
    match cmd {
        InteractiveProviderCommand::Show => c2 == c && reply_is(
            s,
            "default provider: "@ + match active_name(c) {
                Some(n) => n,
                None => "not-set"@,
            },
        ),
        InteractiveProviderCommand::List => c2 == c && reply_is(
            s,
            if c.providers.keys().len() == 0 {
                "providers: none"@
            } else {
                "providers: "@ + joined(c.providers.keys(), ", "@)
            },
        ),
        InteractiveProviderCommand::Use(name) => if c.providers.has(name@) {
            &&& c2 == MuldexConfig { default_provider: Some(name), ..c }
            &&& save_reply_is(s, "default provider set to "@ + name@)
        } else {
            c2 == c && reply_is(s, "provider switch failed: "@ + name@ + " not found"@)
        },
        InteractiveProviderCommand::Test(name) => {
            let target = match name {
                Some(n) => n@,
                None => match c.default_provider {
                    Some(d) => d@,
                    None => router_name(),
                },
            };
            &&& c2 == c
            &&& match c.providers.lookup(target) {
                None => reply_is(s, "provider test failed: "@ + target + " not found"@),
                Some(p) => match socket_address(p) {
                    Ok(a) => s matches ConfigStep::ProbeProvider { name: n, address }
                        && n@ == target && address@ == a,
                    Err(e) => reply_is(
                        s,
                        "provider test failed: "@ + target + " missing endpoint ("@ + e + ")"@,
                    ),
                },
            }
        },
        InteractiveProviderCommand::Invalid(reason) => c2 == c && reply_is(
            s,
            "provider command error: "@ + reason@,
        ),
    }
}

/// Runs `/provider`: the answer to show, the answer after saving the changed
/// configuration, or the provider address to probe.
pub fn provider_command_step(config: &mut MuldexConfig, command: InteractiveProviderCommand) -> (s:
    ConfigStep)
    requires
        old(config).providers.wf(),
    ensures
        final(config).providers.wf(),
        provider_stepped(*old(config), command, *final(config), s),
{
    match command {
        InteractiveProviderCommand::Show => {
            let name = match active_provider_name(config) {
                Some(n) => n,
                None => "not-set".to_string(),
            };
            ConfigStep::Reply(join2("default provider: ", name.as_str()))
        },
        InteractiveProviderCommand::List => {
            if config.providers.is_empty() {
                ConfigStep::Reply("providers: none".to_string())
            } else {
                let names = config.providers.names();
                ConfigStep::Reply(join2("providers: ", join_with(&names, ", ").as_str()))
            }
        },
        InteractiveProviderCommand::Use(name) => {
            if !config.providers.contains_key(name.as_str()) {
                let m = join3("provider switch failed: ", name.as_str(), " not found");
                ConfigStep::Reply(m)
            } else {
                let m = join2("default provider set to ", name.as_str());
                config.default_provider = Some(name);
                ConfigStep::SaveAndReply(m)
            }
        },
        InteractiveProviderCommand::Test(name) => {
            let target = match name {
                Some(n) => n,
                None => match &config.default_provider {
                    Some(d) => d.clone(),
                    None => "llm-router".to_string(),
                },
            };
            match config.providers.get(target.as_str()) {
                None => ConfigStep::Reply(join3("provider test failed: ", target.as_str(), " not found")),
                Some(p) => match provider_socket_address(p) {
                    Ok(address) => ConfigStep::ProbeProvider { name: target, address },
                    Err(e) => {
                        let a = join3("provider test failed: ", target.as_str(), " missing endpoint (");
                        let m = join3(a.as_str(), e.as_str(), ")");
                        proof {
                            assert(m@ =~= "provider test failed: "@ + target@ + " missing endpoint ("@ + e@
                                + ")"@);
                        }
                        ConfigStep::Reply(m)
                    },
                },
            }
        },
        InteractiveProviderCommand::Invalid(reason) => ConfigStep::Reply(
            join2("provider command error: ", reason.as_str()),
        ),
    }
}

/// The answer to probing provider `name` at `address`.
pub open spec fn provider_probe_text(name: Seq<char>, address: Seq<char>, o: ProbeOutcome) -> Seq<
    char,
> {
    match o {
        ProbeOutcome::Reachable => "provider test ok: "@ + name + " reachable at "@ + address,
        ProbeOutcome::NoAddress => "provider test failed: "@ + name + " no socket address resolved"@,
        ProbeOutcome::Unreachable(e) => "provider test failed: "@ + name + " unreachable at "@
            + address + " ("@ + e@ + ")"@,
        ProbeOutcome::ResolutionFailed(e) => "provider test failed: "@ + name
            + " address resolution failed ("@ + e@ + ")"@,
    }
}

pub fn provider_probe_message(name: &str, address: &str, outcome: &ProbeOutcome) -> (m: String)
    ensures
        m@ == provider_probe_text(name@, address@, *outcome),
{
    match outcome {
        ProbeOutcome::Reachable => {
            let a = join3("provider test ok: ", name, " reachable at ");
            let m = join2(a.as_str(), address);
            assert(m@ =~= provider_probe_text(name@, address@, *outcome));
            m
        },
        ProbeOutcome::NoAddress => join3("provider test failed: ", name, " no socket address resolved"),
        ProbeOutcome::Unreachable(e) => {
            let a = join3("provider test failed: ", name, " unreachable at ");
            let b = join3(a.as_str(), address, " (");
            let m = join3(b.as_str(), e.as_str(), ")");
            assert(m@ =~= provider_probe_text(name@, address@, *outcome));
            m
        },
        ProbeOutcome::ResolutionFailed(e) => {
            let a = join3("provider test failed: ", name, " address resolution failed (");
            let m = join3(a.as_str(), e.as_str(), ")");
            assert(m@ =~= provider_probe_text(name@, address@, *outcome));
            m
        },
    }
}

/// The step probes provider `t`, or answers that testing `t` failed.
pub open spec fn tests_provider(s: ConfigStep, t: Seq<char>) -> bool {
    ||| s matches ConfigStep::ProbeProvider { name, .. } && name@ == t
    ||| s matches ConfigStep::Reply(m) && crate::text::starts_with(m@, "provider test failed: "@ + t + " "@)
}

proof fn lemma_prefix_starts(a: Seq<char>, b: Seq<char>)
    ensures
        crate::text::starts_with(a + b, a),
{
    assert((a + b).take(a.len() as int) =~= a);
}

/// The step tests provider `t`: it probes `t` at its address exactly when
/// `t` is configured with one, and otherwise answers that testing `t`
/// failed.
pub open spec fn tested(c: MuldexConfig, s: ConfigStep, t: Seq<char>) -> bool {
    &&& tests_provider(s, t)
    &&& (s is ProbeProvider) <==> (c.providers.has(t) && socket_address(c.providers.lookup(t)->0) is Ok)
}

/// Law: `/provider test` tests the provider it names; without a name the
/// configured default provider, and only without either the llm-router. The
/// configuration is left as it was, and a probe goes to the address of the
/// provider it names.
pub proof fn lemma_provider_test_target(
    c: MuldexConfig,
    name: Option<String>,
    c2: MuldexConfig,
    s: ConfigStep,
)
    requires
        provider_stepped(c, InteractiveProviderCommand::Test(name), c2, s),
    ensures
        c2 == c,
        name is Some ==> tested(c, s, name->0@),
        (name is None && c.default_provider is Some) ==> tested(c, s, c.default_provider->0@),
        (name is None && c.default_provider is None) ==> tested(c, s, "llm-router"@),
        s is ProbeProvider ==> c.providers.lookup(s->ProbeProvider_name@) is Some && socket_address(
            c.providers.lookup(s->ProbeProvider_name@)->0,
        ) == Ok::<Seq<char>, Seq<char>>(s->ProbeProvider_address@),
{
    let target = match name {
        Some(n) => n@,
        None => match c.default_provider {
            Some(d) => d@,
            None => router_name(),
        },
    };
    let head = "provider test failed: "@ + target + " "@;
    reveal_strlit(" ");
    reveal_strlit(" not found");
    reveal_strlit("not found");
    reveal_strlit(" missing endpoint (");
    reveal_strlit("missing endpoint (");
    match c.providers.lookup(target) {
        None => {
            lemma_prefix_starts(head, "not found"@);
            assert("provider test failed: "@ + target + " not found"@ =~= head + "not found"@);
        },
        Some(p) => match socket_address(p) {
            Ok(a) => {},
            Err(e) => {
                lemma_prefix_starts(head, "missing endpoint ("@ + e + ")"@);
                assert("provider test failed: "@ + target + " missing endpoint ("@ + e + ")"@ =~= head
                    + ("missing endpoint ("@ + e + ")"@));
            },
        },
    }
    assert(tested(c, s, target));
}

/// The llm-router entry a command starts from: the configured one, else a
/// local router at 127.0.0.1:3000 speaking the OpenAI protocol.
pub open spec fn router_base(c: MuldexConfig) -> ProviderConfigView {
    match c.providers.lookup("llm-router"@) {
        Some(p) => p,
        None => ProviderConfigView {
            kind: "openai-compatible"@,
            host: Some("127.0.0.1"@),
            port: Some(3000u16),
            base_url: None,
            api_key: None,
            api_key_env: None,
            default_model: None,
        },
    }
}

/// Law: each `/config llm set ...` command changes only the one field it
/// names of the llm-router entry (creating the local default entry first
/// where there is none), leaves every other provider, the default provider
/// and the legacy section as they were, and asks for the configuration to be
/// saved.
pub proof fn lemma_llm_set_changes_one_field(
    c: MuldexConfig,
    cmd: InteractiveLlmConfigCommand,
    c2: MuldexConfig,
    s: ConfigStep,
)
    requires
        llm_config_stepped(c, cmd, c2, s),
        cmd is SetHost || cmd is SetPort || cmd is SetApiKey || cmd is SetDefaultModel,
    ensures
        s is SaveAndReply,
        c2.default_provider == c.default_provider,
        c2.llm_router == c.llm_router,
        forall|k: Seq<char>| k != "llm-router"@ ==> c2.providers.lookup(k) == c.providers.lookup(k),
        c2.providers.lookup("llm-router"@) == Some(
            match cmd {
                InteractiveLlmConfigCommand::SetHost(h) => ProviderConfigView {
                    host: Some(h@),
                    ..router_base(c)
                },
                InteractiveLlmConfigCommand::SetPort(p) => ProviderConfigView {
                    port: Some(p),
                    ..router_base(c)
                },
                InteractiveLlmConfigCommand::SetApiKey(k) => ProviderConfigView {
                    api_key: Some(k@),
                    ..router_base(c)
                },
                InteractiveLlmConfigCommand::SetDefaultModel(m) => ProviderConfigView {
                    default_model: Some(m@),
                    ..router_base(c)
                },
                _ => router_base(c),
            },
        ),
{
}

/// Law: `/config llm test` probes the configured llm-router at its host
/// and port when both are set, and otherwise answers that the test failed;
/// the configuration is left as it was.
pub proof fn lemma_llm_test_probes_router(c: MuldexConfig, c2: MuldexConfig, s: ConfigStep)
    requires
        llm_config_stepped(c, InteractiveLlmConfigCommand::Test, c2, s),
    ensures
        c2 == c,
        c.providers.lookup("llm-router"@) matches Some(p) ==> ((s is ProbeRouter) <==> (p.host is Some
            && p.port is Some)),
        (c.providers.has("llm-router"@) && s is ProbeRouter) ==> s->ProbeRouter_host@
            == c.providers.lookup("llm-router"@)->0.host->0 && s->ProbeRouter_port == c.providers.lookup(
            "llm-router"@,
        )->0.port->0,
        (!c.providers.has("llm-router"@) && c.llm_router is None) ==> reply_is(
            s,
            "llm-router test failed: router config missing"@,
        ),
        !(s is SaveAndReply),
{
}

/// Law: `/provider use` makes a configured provider the default and asks
/// for the configuration to be saved; an unknown name changes nothing and
/// is answered, unsaved, as a failed switch.
pub proof fn lemma_provider_use_sets_default(c: MuldexConfig, name: String, c2: MuldexConfig, s: ConfigStep)
    requires
        provider_stepped(c, InteractiveProviderCommand::Use(name), c2, s),
    ensures
        c.providers.has(name@) ==> s is SaveAndReply && c2.default_provider == Some(name)
            && c2.providers == c.providers && c2.llm_router == c.llm_router,
        !c.providers.has(name@) ==> c2 == c && s is Reply,
{
}

} // verus!
