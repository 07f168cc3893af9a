//! Provider configuration: the configured providers, the legacy llm-router
//! entry, which provider is active, and how a provider resolves to an
//! endpoint, a key and a default model.
use vstd::prelude::*;

use crate::text::chars_concat;
use crate::text::chars_eq;
use crate::text::chars_less;
use crate::text::decimal;
use crate::text::ends_with;
use crate::text::from_chars;
use crate::text::lex_lt;
use crate::text::to_chars;
use crate::text::trim;
use crate::text::trim_chars;
use crate::text::trim_end_char;
use crate::text::trim_end_matching;
use crate::text::u64_to_decimal;

verus! {

pub open spec fn opt_view(o: Option<String>) -> Option<Seq<char>> {
    match o {
        Some(s) => Some(s@),
        None => None,
    }
}

fn clone_opt(o: &Option<String>) -> (r: Option<String>)
    ensures
        r == *o,
{
    match o {
        Some(s) => Some(s.clone()),
        None => None,
    }
}

#[derive(Clone, Debug, PartialEq, Eq, Default)]
pub struct ProviderConfig {
    pub kind: String,
    pub host: Option<String>,
    pub port: Option<u16>,
    pub base_url: Option<String>,
    pub api_key: Option<String>,
    pub api_key_env: Option<String>,
    pub default_model: Option<String>,
}

/// The plain content of a provider entry.
pub struct ProviderConfigView {
    pub kind: Seq<char>,
    pub host: Option<Seq<char>>,
    pub port: Option<u16>,
    pub base_url: Option<Seq<char>>,
    pub api_key: Option<Seq<char>>,
    pub api_key_env: Option<Seq<char>>,
    pub default_model: Option<Seq<char>>,
}

impl View for ProviderConfig {
    type V = ProviderConfigView;

    open spec fn view(&self) -> ProviderConfigView {
        ProviderConfigView {
            kind: self.kind@,
            host: opt_view(self.host),
            port: self.port,
            base_url: opt_view(self.base_url),
            api_key: opt_view(self.api_key),
            api_key_env: opt_view(self.api_key_env),
            default_model: opt_view(self.default_model),
        }
    }
}

impl ProviderConfig {
    /// A field-by-field copy.
    pub fn duplicate(&self) -> (r: Self)
        ensures
            r == *self,
    {
        ProviderConfig {
            kind: self.kind.clone(),
            host: clone_opt(&self.host),
            port: self.port,
            base_url: clone_opt(&self.base_url),
            api_key: clone_opt(&self.api_key),
            api_key_env: clone_opt(&self.api_key_env),
            default_model: clone_opt(&self.default_model),
        }
    }
}

#[derive(Clone, Debug, PartialEq, Eq, Default)]
pub struct LegacyLlmRouterConfig {
    pub host: String,
    pub port: u16,
    pub api_key: String,
    pub default_model: Option<String>,
}

/// The provider entry a legacy llm-router section stands for.
pub open spec fn legacy_provider_view(legacy: LegacyLlmRouterConfig) -> ProviderConfigView {
    ProviderConfigView {
        kind: "openai-compatible"@,
        host: Some(legacy.host@),
        port: Some(legacy.port),
        base_url: None,
        api_key: Some(legacy.api_key@),
        api_key_env: None,
        default_model: opt_view(legacy.default_model),
    }
}

fn legacy_provider(legacy: &LegacyLlmRouterConfig) -> (p: ProviderConfig)
    ensures
        p@ == legacy_provider_view(*legacy),
{
    ProviderConfig {
        kind: "openai-compatible".to_string(),
        host: Some(legacy.host.clone()),
        port: Some(legacy.port),
        base_url: None,
        api_key: Some(legacy.api_key.clone()),
        api_key_env: None,
        default_model: clone_opt(&legacy.default_model),
    }
}

/// Providers keyed by name. Names are kept in ascending order and none occurs
/// twice, so iteration visits them the way an ordered map does.
#[derive(Clone, Debug, PartialEq, Eq, Default)]
pub struct ProviderMap {
    entries: Vec<(String, ProviderConfig)>,
}

impl ProviderMap {
    /// The names, in iteration order.
    pub closed spec fn keys(self) -> Seq<Seq<char>> {
        self.entries@.map_values(|e: (String, ProviderConfig)| e.0@)
    }

    /// The entries' contents, in the order of `keys`.
    pub closed spec fn values(self) -> Seq<ProviderConfigView> {
        self.entries@.map_values(|e: (String, ProviderConfig)| e.1@)
    }

    /// Names strictly ascend.
    pub open spec fn wf(self) -> bool {
        &&& self.values().len() == self.keys().len()
        &&& forall|i: int, j: int|
            0 <= i < j < self.keys().len() ==> lex_lt(#[trigger] self.keys()[i], #[trigger] self.keys()[j])
    }

    pub open spec fn has(self, name: Seq<char>) -> bool {
        self.keys().contains(name)
    }

    /// The entry stored under `name`.
    pub open spec fn lookup(self, name: Seq<char>) -> Option<ProviderConfigView> {
        if self.has(name) {
            Some(self.values()[self.keys().index_of(name)])
        } else {
            None
        }
    }

    proof fn lemma_sizes(self)
        ensures
            self.keys().len() == self.entries@.len(),
            self.values().len() == self.entries@.len(),
            forall|i: int| 0 <= i < self.entries@.len() ==> #[trigger] self.keys()[i] == self.entries@[i].0@,
            forall|i: int| 0 <= i < self.entries@.len() ==> #[trigger] self.values()[i] == self.entries@[i].1@,
    {
    }

    /// In a well-formed map a name's index is the only index holding it.
    pub proof fn lemma_unique(self, i: int, name: Seq<char>)
        requires
            self.wf(),
            0 <= i < self.keys().len(),
            self.keys()[i] == name,
        ensures
            self.has(name),
            self.keys().index_of(name) == i,
            self.lookup(name) == Some(self.values()[i]),
    {
        assert(self.keys().contains(name));
        let j = self.keys().index_of(name);
        if j != i {
            if j < i {
                assert(lex_lt(self.keys()[j], self.keys()[i]));
            } else {
                assert(lex_lt(self.keys()[i], self.keys()[j]));
            }
            crate::text::lemma_lex_irreflexive(name);
        }
    }

    pub fn new() -> (m: Self)
        ensures
            m.wf(),
            m.keys().len() == 0,
    {
        let m = ProviderMap { entries: Vec::new() };
        assert(m.keys() =~= Seq::<Seq<char>>::empty());
        m
    }

    pub fn len(&self) -> (n: usize)
        ensures
            n == self.keys().len(),
    {
        proof {
            self.lemma_sizes();
        }
        self.entries.len()
    }

    pub fn is_empty(&self) -> (b: bool)
        ensures
            b == (self.keys().len() == 0),
    {
        proof {
            self.lemma_sizes();
        }
        self.entries.len() == 0
    }

    /// Index of the entry named `name`.
    fn position(&self, name: &[char]) -> (r: Option<usize>)
        requires
            self.wf(),
        ensures
            match r {
                Some(i) => i < self.keys().len() && self.keys()[i as int] == name@,
                None => !self.has(name@),
            },
    {
        proof {
            self.lemma_sizes();
        }
        let mut i: usize = 0;
        while i < self.entries.len()
            invariant
                i <= self.entries@.len(),
                self.keys().len() == self.entries@.len(),
                forall|k: int| 0 <= k < self.entries@.len() ==> #[trigger] self.keys()[k] == self.entries@[k].0@,
                forall|k: int| 0 <= k < i ==> self.keys()[k] != name@,
            decreases self.entries.len() - i,
        {
            let key = to_chars(self.entries[i].0.as_str());
            if chars_eq(&key, name) {
                return Some(i);
            }
            i = i + 1;
        }
        None
    }

    pub fn contains_key(&self, name: &str) -> (b: bool)
        requires
            self.wf(),
        ensures
            b == self.has(name@),
    {
        let n = to_chars(name);
        self.position(&n).is_some()
    }

    /// The entry stored under `name`.
    pub fn get(&self, name: &str) -> (r: Option<&ProviderConfig>)
        requires
            self.wf(),
        ensures
            match r {
                Some(p) => self.lookup(name@) == Some(p@),
                None => self.lookup(name@) is None,
            },
    {
        let n = to_chars(name);
        match self.position(&n) {
            Some(i) => {
                proof {
                    self.lemma_sizes();
                    self.lemma_unique(i as int, name@);
                }
                Some(&self.entries[i].1)
            },
            None => None,
        }
    }

    /// The smallest name.
    pub fn first_key(&self) -> (r: Option<String>)
        ensures
            match r {
                Some(k) => self.keys().len() > 0 && k@ == self.keys()[0],
                None => self.keys().len() == 0,
            },
    {
        proof {
            self.lemma_sizes();
        }
        if self.entries.len() == 0 {
            None
        } else {
            Some(self.entries[0].0.clone())
        }
    }

    /// All names in ascending order.
    pub fn names(&self) -> (r: Vec<String>)
        ensures
            r@.map_values(|s: String| s@) == self.keys(),
    {
        proof {
            self.lemma_sizes();
        }
        let mut r: Vec<String> = Vec::new();
        let mut i: usize = 0;
        while i < self.entries.len()
            invariant
                i <= self.entries@.len(),
                self.keys().len() == self.entries@.len(),
                forall|k: int| 0 <= k < self.entries@.len() ==> #[trigger] self.keys()[k] == self.entries@[k].0@,
                r@.map_values(|s: String| s@) == self.keys().take(i as int),
                r@.len() == i,
            decreases self.entries.len() - i,
        {
            r.push(self.entries[i].0.clone());
            assert(r@[i as int] == self.entries@[i as int].0);
            assert(r@.map_values(|s: String| s@) =~= self.keys().take(i + 1));
            i = i + 1;
        }
        assert(self.keys().take(i as int) =~= self.keys());
        r
    }

    fn key_less_at(&self, i: usize, n: &[char]) -> (b: bool)
        requires
            i < self.keys().len(),
        ensures
            b == lex_lt(self.keys()[i as int], n@),
    {
        proof {
            self.lemma_sizes();
        }
        let key = to_chars(self.entries[i].0.as_str());
        chars_less(&key, n)
    }

    /// Stores `config` under `name`, replacing an entry of that name.
    pub fn insert(&mut self, name: String, config: ProviderConfig)
        requires
            old(self).wf(),
        ensures
            final(self).wf(),
            final(self).lookup(name@) == Some(config@),
            forall|k: Seq<char>| k != name@ ==> final(self).lookup(k) == old(self).lookup(k),
            forall|k: Seq<char>| final(self).has(k) <==> (old(self).has(k) || k == name@),
    {
        proof {
            self.lemma_sizes();
        }
        let n = to_chars(name.as_str());
        let ghost old_keys = self.keys();
        let ghost old_vals = self.values();
        let mut i: usize = 0;
        while i < self.entries.len() && self.key_less_at(i, &n)
            invariant
                i <= self.entries@.len(),
                self.wf(),
                self.keys() == old_keys,
                self.values() == old_vals,
                n@ == name@,
                self.keys().len() == self.entries@.len(),
                forall|k: int| 0 <= k < self.entries@.len() ==> #[trigger] self.keys()[k] == self.entries@[k].0@,
                forall|k: int| 0 <= k < i ==> lex_lt(#[trigger] self.keys()[k], name@),
            decreases self.entries.len() - i,
        {
            i = i + 1;
        }
        // every name before `i` is smaller; the one at `i` (if any) is not
        let ghost at_end = i == self.entries@.len();
        let replace = if i < self.entries.len() {
            let key = to_chars(self.entries[i].0.as_str());
            chars_eq(&key, &n)
        } else {
            false
        };
        proof {
            if !at_end {
                assert(!lex_lt(self.keys()[i as int], name@));
            }
        }
        if replace {
            self.entries.set(i, (name, config));
            proof {
                self.lemma_sizes();
                assert(self.keys() =~= old_keys);
                assert(self.values() =~= old_vals.update(i as int, config@));
                self.lemma_unique(i as int, name@);
                assert forall|k: Seq<char>| k != name@ implies self.lookup(k) == old(self).lookup(k) by {
                    if old(self).has(k) {
                        let j = old_keys.index_of(k);
                        old(self).lemma_unique(j, k);
                        self.lemma_unique(j, k);
                    }
                }
            }
        } else {
            self.entries.insert(i, (name, config));
            proof {
                self.lemma_sizes();
                assert(self.keys() =~= old_keys.insert(i as int, name@));
                assert(self.values() =~= old_vals.insert(i as int, config@));
                if !at_end {
                    crate::text::lemma_lex_total(old_keys[i as int], name@);
                    assert(lex_lt(name@, old_keys[i as int]));
                }
                assert forall|a: int, b: int|
                    0 <= a < b < self.keys().len() implies lex_lt(
                    #[trigger] self.keys()[a],
                    #[trigger] self.keys()[b],
                ) by {
                    if b == i {
                        assert(lex_lt(old_keys[a], name@));
                    } else if a == i {
                        assert(self.keys()[b] == old_keys[b - 1]);
                        if b - 1 > i {
                            assert(lex_lt(old_keys[i as int], old_keys[b - 1]));
                            crate::text::lemma_lex_transitive(name@, old_keys[i as int], old_keys[b - 1]);
                        }
                    } else if a < i && b > i {
                        assert(self.keys()[b] == old_keys[b - 1]);
                        if a < b - 1 {
                            assert(lex_lt(old_keys[a], old_keys[b - 1]));
                        } else {
                            assert(false);
                        }
                    } else if a > i {
                        assert(self.keys()[a] == old_keys[a - 1]);
                        assert(self.keys()[b] == old_keys[b - 1]);
                    }
                }
                self.lemma_unique(i as int, name@);
                assert forall|k: Seq<char>| k != name@ implies self.lookup(k) == old(self).lookup(k) by {
                    if old(self).has(k) {
                        let j = old_keys.index_of(k);
                        old(self).lemma_unique(j, k);
                        if j < i {
                            self.lemma_unique(j, k);
                        } else {
                            assert(self.keys()[j + 1] == k);
                            self.lemma_unique(j + 1, k);
                        }
                    } else {
                        if self.has(k) {
                            let j = self.keys().index_of(k);
                            if j < i {
                                assert(old_keys[j] == k);
                            } else if j > i {
                                assert(old_keys[j - 1] == k);
                            }
                        }
                    }
                }
            }
        }
        proof {
            assert forall|k: Seq<char>| self.has(k) <==> (old(self).has(k) || k == name@) by {
                if k == name@ {
                } else {
                    assert(self.lookup(k) == old(self).lookup(k));
                }
            }
        }
    }
}


#[derive(Clone, Debug, PartialEq, Eq, Default)]
pub struct MuldexConfig {
    pub schema_version: String,
    pub default_provider: Option<String>,
    pub providers: ProviderMap,
    pub llm_router: Option<LegacyLlmRouterConfig>,
}

#[derive(Clone, Debug, PartialEq, Eq)]
pub struct ResolvedProviderConfig {
    pub name: String,
    pub kind: String,
    pub base_url: String,
    pub api_key: Option<String>,
    pub default_model: Option<String>,
}

#[derive(Clone, Debug, PartialEq, Eq)]
pub enum ProviderResolutionError {
    NoProvidersConfigured,
    ProviderNotFound(String),
    UnsupportedProviderKind(String),
    MissingEndpoint(String),
}

/// The plain content of a resolved provider.
pub struct ResolvedProviderView {
    pub name: Seq<char>,
    pub kind: Seq<char>,
    pub base_url: Seq<char>,
    pub api_key: Option<Seq<char>>,
    pub default_model: Option<Seq<char>>,
}

impl View for ResolvedProviderConfig {
    type V = ResolvedProviderView;

    open spec fn view(&self) -> ResolvedProviderView {
        ResolvedProviderView {
            name: self.name@,
            kind: self.kind@,
            base_url: self.base_url@,
            api_key: opt_view(self.api_key),
            default_model: opt_view(self.default_model),
        }
    }
}

/// The plain content of a resolution failure.
pub enum ResolutionErrorView {
    NoProvidersConfigured,
    ProviderNotFound(Seq<char>),
    UnsupportedProviderKind(Seq<char>),
    MissingEndpoint(Seq<char>),
}

impl View for ProviderResolutionError {
    type V = ResolutionErrorView;

    open spec fn view(&self) -> ResolutionErrorView {
        match self {
            ProviderResolutionError::NoProvidersConfigured => ResolutionErrorView::NoProvidersConfigured,
            ProviderResolutionError::ProviderNotFound(n) => ResolutionErrorView::ProviderNotFound(n@),
            ProviderResolutionError::UnsupportedProviderKind(k) => ResolutionErrorView::UnsupportedProviderKind(k@),
            ProviderResolutionError::MissingEndpoint(n) => ResolutionErrorView::MissingEndpoint(n@),
        }
    }
}

pub open spec fn result_view(
    r: Result<ResolvedProviderConfig, ProviderResolutionError>,
) -> Result<ResolvedProviderView, ResolutionErrorView> {
    match r {
        Ok(p) => Ok(p@),
        Err(e) => Err(e@),
    }
}

pub open spec fn router_name() -> Seq<char> {
    "llm-router"@
}

pub open spec fn openai_kind() -> Seq<char> {
    "openai-compatible"@
}

/// The providers a configuration offers once a legacy llm-router section is
/// counted as the `llm-router` provider (unless that name is taken).
pub open spec fn offers(c: MuldexConfig, name: Seq<char>) -> bool {
    c.providers.has(name) || (name == router_name() && c.llm_router is Some)
}

pub open spec fn offered(c: MuldexConfig, name: Seq<char>) -> Option<ProviderConfigView> {
    if c.providers.has(name) {
        c.providers.lookup(name)
    } else if name == router_name() && c.llm_router is Some {
        Some(legacy_provider_view(c.llm_router->0))
    } else {
        None
    }
}

pub open spec fn offers_any(c: MuldexConfig) -> bool {
    c.providers.keys().len() > 0 || c.llm_router is Some
}

/// The provider a configuration uses when none is named: its default provider
/// if offered, else `llm-router` if offered, else the smallest name.
pub open spec fn active_name(c: MuldexConfig) -> Option<Seq<char>> {
    if !offers_any(c) {
        None
    } else if c.default_provider is Some && offers(c, c.default_provider->0@) {
        Some(c.default_provider->0@)
    } else if offers(c, router_name()) {
        Some(router_name())
    } else {
        Some(c.providers.keys()[0])
    }
}

/// `Some(value)` for the first variable named `name` whose value is not blank.
pub open spec fn env_value(env: Seq<(String, String)>, name: Seq<char>) -> Option<Seq<char>>
    decreases env.len(),
{
    if env.len() == 0 {
        None
    } else if env[0].0@ == name {
        if trim(env[0].1@).len() > 0 {
            Some(env[0].1@)
        } else {
            None
        }
    } else {
        env_value(env.drop_first(), name)
    }
}

/// The endpoint of a provider: its base URL without trailing slashes, else
/// `http://host:port/v1`.
pub open spec fn base_url_of(p: ProviderConfigView) -> Option<Seq<char>> {
    if p.base_url is Some {
        Some(trim_end_char(p.base_url->0, '/'))
    } else if p.host is Some && p.port is Some {
        Some("http://"@ + p.host->0 + ":"@ + decimal(p.port->0 as nat) + "/v1"@)
    } else {
        None
    }
}

pub open spec fn api_key_of(p: ProviderConfigView, env: Seq<(String, String)>) -> Option<Seq<char>> {
    if p.api_key is Some {
        p.api_key
    } else if p.api_key_env is Some {
        env_value(env, p.api_key_env->0)
    } else {
        None
    }
}

/// How a configuration resolves the provider named `requested` (or the
/// active one) in the environment `env`.
pub open spec fn resolution(
    c: MuldexConfig,
    requested: Option<Seq<char>>,
    env: Seq<(String, String)>,
) -> Result<ResolvedProviderView, ResolutionErrorView> {
    if !offers_any(c) {
        Err(ResolutionErrorView::NoProvidersConfigured)
    } else {
        let name = match requested {
            Some(n) => n,
            None => active_name(c)->0,
        };
        match offered(c, name) {
            None => Err(ResolutionErrorView::ProviderNotFound(name)),
            Some(p) => if p.kind.len() > 0 && p.kind != openai_kind() {
                Err(ResolutionErrorView::UnsupportedProviderKind(p.kind))
            } else if base_url_of(p) is None {
                Err(ResolutionErrorView::MissingEndpoint(name))
            } else {
                Ok(
                    ResolvedProviderView {
                        name,
                        kind: if p.kind.len() == 0 {
                            openai_kind()
                        } else {
                            p.kind
                        },
                        base_url: base_url_of(p)->0,
                        api_key: api_key_of(p, env),
                        default_model: p.default_model,
                    },
                )
            },
        }
    }
}

/// A value found in the environment under `name` is the value of some
/// variable of that name.
proof fn lemma_env_value_from(env: Seq<(String, String)>, name: Seq<char>)
    ensures
        env_value(env, name) matches Some(v) ==> exists|i: int|
            0 <= i < env.len() && (#[trigger] env[i]).0@ == name && env[i].1@ == v,
    decreases env.len(),
{
    if env.len() > 0 && env[0].0@ != name {
        lemma_env_value_from(env.drop_first(), name);
        if env_value(env, name) is Some {
            let v = env_value(env, name)->0;
            let i = choose|i: int|
                0 <= i < env.len() - 1 && (#[trigger] env.drop_first()[i]).0@ == name
                    && env.drop_first()[i].1@ == v;
            assert(env[i + 1] == env.drop_first()[i]);
        }
    } else if env.len() > 0 {
        assert(env[0].0@ == name);
    }
}

/// Law: a provider resolves to the name asked for (or the active one), and
/// with the API key it is configured with, whatever the environment holds;
/// only a provider without a key takes one from its environment variable,
/// and then a value that variable has. Resolving in another environment
/// succeeds or fails alike.
pub proof fn lemma_configured_key_wins(
    c: MuldexConfig,
    requested: Option<Seq<char>>,
    env: Seq<(String, String)>,
    other_env: Seq<(String, String)>,
)
    requires
        resolution(c, requested, env) is Ok,
    ensures
        ({
            let v = resolution(c, requested, env)->Ok_0;
            let p = offered(c, v.name)->0;
            &&& offered(c, v.name) is Some
            &&& requested matches Some(n) ==> v.name == n
            &&& requested is None ==> active_name(c) == Some(v.name)
            &&& p.api_key is Some ==> v.api_key == p.api_key
            &&& (p.api_key is None && p.api_key_env is None) ==> v.api_key is None
            &&& (p.api_key is None && v.api_key is Some) ==> p.api_key_env is Some && exists|i: int|
                0 <= i < env.len() && (#[trigger] env[i]).0@ == p.api_key_env->0 && env[i].1@
                    == v.api_key->0
            &&& resolution(c, requested, other_env) is Ok
            &&& p.api_key is Some ==> resolution(c, requested, other_env)->Ok_0.api_key == p.api_key
        }),
{
    let v = resolution(c, requested, env)->Ok_0;
    let p = offered(c, v.name)->0;
    if p.api_key is None && p.api_key_env is Some {
        lemma_env_value_from(env, p.api_key_env->0);
    }
}

/// Law: the active provider is the configured default provider whenever the
/// configuration offers it (as an entry, or as the legacy llm-router
/// section), else the llm-router whenever that is offered, else the provider
/// with the smallest name; there is none exactly when nothing is offered,
/// and the one there is, is always offered.
pub proof fn lemma_active_provider_choice(c: MuldexConfig)
    requires
        c.providers.wf(),
    ensures
        active_name(c) is None <==> (c.providers.keys().len() == 0 && c.llm_router is None),
        active_name(c) matches Some(n) ==> (c.providers.has(n) || (n == "llm-router"@
            && c.llm_router is Some)),
        (c.default_provider is Some && (c.providers.has(c.default_provider->0@) || (
        c.default_provider->0@ == "llm-router"@ && c.llm_router is Some))) ==> active_name(c) == Some(
            c.default_provider->0@,
        ),
        (!(c.default_provider is Some && (c.providers.has(c.default_provider->0@) || (
        c.default_provider->0@ == "llm-router"@ && c.llm_router is Some))) && (c.providers.has(
            "llm-router"@,
        ) || c.llm_router is Some)) ==> active_name(c) == Some("llm-router"@),
        (!(c.default_provider is Some && c.providers.has(c.default_provider->0@)) && !c.providers.has(
            "llm-router"@,
        ) && c.llm_router is None && c.providers.keys().len() > 0) ==> (active_name(c) is Some
            && c.providers.has(active_name(c)->0) && forall|i: int|
            0 <= i < c.providers.keys().len() && c.providers.keys()[i] != active_name(c)->0 ==> lex_lt(
                active_name(c)->0,
                #[trigger] c.providers.keys()[i],
            )),
{
    if c.providers.keys().len() > 0 {
        assert(c.providers.keys().contains(c.providers.keys()[0]));
    }
}

/// The entry the configuration offers under `name`.
fn offered_provider(config: &MuldexConfig, name: &str) -> (r: Option<ProviderConfig>)
    requires
        config.providers.wf(),
    ensures
        match r {
            Some(p) => offered(*config, name@) == Some(p@),
            None => offered(*config, name@) is None,
        },
{
    match config.providers.get(name) {
        Some(p) => Some(p.duplicate()),
        None => {
            let router = to_chars("llm-router");
            let n = to_chars(name);
            if chars_eq(&n, &router) {
                match &config.llm_router {
                    Some(legacy) => Some(legacy_provider(legacy)),
                    None => None,
                }
            } else {
                None
            }
        },
    }
}

fn offers_provider(config: &MuldexConfig, name: &str) -> (b: bool)
    requires
        config.providers.wf(),
    ensures
        b == offers(*config, name@),
{
    if config.providers.contains_key(name) {
        true
    } else {
        let router = to_chars("llm-router");
        let n = to_chars(name);
        chars_eq(&n, &router) && config.llm_router.is_some()
    }
}

/// The provider a configuration uses when no name is given: the default
/// provider if the configuration offers it, else `llm-router` if offered,
/// else the provider with the smallest name; `None` when nothing is offered.
pub fn active_provider_name(config: &MuldexConfig) -> (r: Option<String>)
    requires
        config.providers.wf(),
    ensures
        opt_view(r) == active_name(*config),
{
    if config.providers.is_empty() && config.llm_router.is_none() {
        return None;
    }
    if let Some(name) = &config.default_provider {
        if offers_provider(config, name.as_str()) {
            return Some(name.clone());
        }
    }
    if offers_provider(config, "llm-router") {
        return Some("llm-router".to_string());
    }
    config.providers.first_key()
}

fn lookup_env(env: &[(String, String)], name: &str) -> (r: Option<String>)
    ensures
        opt_view(r) == env_value(env@, name@),
{
    let n = to_chars(name);
    let mut i: usize = 0;
    assert(env@.skip(0) =~= env@);
    while i < env.len()
        invariant
            i <= env@.len(),
            n@ == name@,
            env_value(env@, name@) == env_value(env@.skip(i as int), name@),
        decreases env.len() - i,
    {
        let key = to_chars(env[i].0.as_str());
        if chars_eq(&key, &n) {
            let value = to_chars(env[i].1.as_str());
            let trimmed = trim_chars(&value);
            if trimmed.len() > 0 {
                return Some(env[i].1.clone());
            } else {
                return None;
            }
        }
        assert(env@.skip(i as int).drop_first() =~= env@.skip(i + 1));
        i = i + 1;
    }
    None
}

fn resolved_base_url(p: &ProviderConfig) -> (r: Option<String>)
    ensures
        opt_view(r) == base_url_of(p@),
{
    match &p.base_url {
        Some(url) => {
            let chars = to_chars(url.as_str());
            let trimmed = trim_end_matching(&chars, '/');
            Some(from_chars(trimmed.as_slice()))
        },
        None => match (&p.host, p.port) {
            (Some(host), Some(port)) => {
                let digits = u64_to_decimal(port as u64);
                Some(crate::text::join3("http://", host.as_str(), ":").concat(digits.as_str()).concat("/v1"))
            },
            _ => None,
        },
    }
}

/// Resolves the named provider (or the active one when no name is given)
/// into an endpoint: fails when nothing is offered, when the name is not
/// offered, when the kind is not OpenAI-compatible, or when neither a base URL
/// nor host and port are set. The key is the configured one, else the value
/// of the configured environment variable in `env` when not blank.
pub fn resolve_provider_config(
    config: &MuldexConfig,
    requested_name: Option<&str>,
    env: &[(String, String)],
) -> (r: Result<ResolvedProviderConfig, ProviderResolutionError>)
    requires
        config.providers.wf(),
    ensures
        result_view(r) == resolution(*config, match requested_name {
            Some(n) => Some(n@),
            None => None,
        }, env@),
{
    if config.providers.is_empty() && config.llm_router.is_none() {
        return Err(ProviderResolutionError::NoProvidersConfigured);
    }
    let provider_name = match requested_name {
        Some(name) => name.to_string(),
        None => match active_provider_name(config) {
            Some(name) => name,
            None => {
                return Err(ProviderResolutionError::NoProvidersConfigured);
            },
        },
    };
    let provider = match offered_provider(config, provider_name.as_str()) {
        Some(p) => p,
        None => {
            return Err(ProviderResolutionError::ProviderNotFound(provider_name));
        },
    };
    let kind = to_chars(provider.kind.as_str());
    let openai = to_chars("openai-compatible");
    if kind.len() > 0 && !chars_eq(&kind, &openai) {
        return Err(ProviderResolutionError::UnsupportedProviderKind(provider.kind));
    }
    let base_url = match resolved_base_url(&provider) {
        Some(url) => url,
        None => {
            return Err(ProviderResolutionError::MissingEndpoint(provider_name));
        },
    };
    let api_key = match provider.api_key {
        Some(key) => Some(key),
        None => match &provider.api_key_env {
            Some(var) => lookup_env(env, var.as_str()),
            None => None,
        },
    };
    Ok(
        ResolvedProviderConfig {
            name: provider_name,
            kind: if kind.len() == 0 {
                "openai-compatible".to_string()
            } else {
                provider.kind
            },
            base_url,
            api_key,
            default_model: provider.default_model,
        },
    )
}


pub open spec fn completions_suffix() -> Seq<char> {
    "/chat/completions"@
}

/// The chat-completions endpoint below a base URL.
pub open spec fn completions_url(base_url: Seq<char>) -> Seq<char> {
    let trimmed = trim_end_char(base_url, '/');
    if ends_with(trimmed, completions_suffix()) {
        trimmed
    } else {
        trimmed + completions_suffix()
    }
}

pub fn chars_end_with(s: &[char], p: &[char]) -> (r: bool)
    ensures
        r == ends_with(s@, p@),
{
    if p.len() > s.len() {
        return false;
    }
    let start = s.len() - p.len();
    let r = crate::text::chars_occur_at(s, p, start);
    assert(s@.subrange(start as int, start + p@.len()) =~= s@.skip(start as int));
    r
}

impl ResolvedProviderConfig {
    /// The chat-completions endpoint of this provider: the base URL without
    /// trailing slashes, with `/chat/completions` appended unless it already
    /// ends that way.
    pub fn chat_completions_url(&self) -> (url: String)
        ensures
            url@ == completions_url(self.base_url@),
    {
        let chars = to_chars(self.base_url.as_str());
        let trimmed = trim_end_matching(&chars, '/');
        let suffix = to_chars("/chat/completions");
        if chars_end_with(&trimmed, &suffix) {
            from_chars(trimmed.as_slice())
        } else {
            let joined = chars_concat(&trimmed, &suffix);
            from_chars(joined.as_slice())
        }
    }
}

/// Trailing-slash trimming leaves a text that does not end in `/` unchanged.
pub proof fn lemma_trim_end_char_noop(s: Seq<char>, c: char)
    requires
        s.len() == 0 || s.last() != c,
    ensures
        trim_end_char(s, c) == s,
{
}

/// The chat-completions endpoint always ends in `/chat/completions`, and
/// asking for the endpoint of an endpoint gives it back unchanged.
pub proof fn lemma_completions_url_idempotent(base_url: Seq<char>)
    ensures
        ends_with(completions_url(base_url), completions_suffix()),
        completions_url(completions_url(base_url)) == completions_url(base_url),
{
    reveal_strlit("/chat/completions");
    let u = completions_url(base_url);
    let trimmed = trim_end_char(base_url, '/');
    if !ends_with(trimmed, completions_suffix()) {
        assert(u.skip(u.len() - completions_suffix().len()) =~= completions_suffix());
    }
    assert(u.last() == 's') by {
        assert(u.skip(u.len() - 17)[16] == u.last());
    }
    lemma_trim_end_char_noop(u, '/');
}

impl ProviderResolutionError {
    /// The error's message.
    pub fn message(&self) -> (m: String)
        ensures
            m@ == match self@ {
                ResolutionErrorView::NoProvidersConfigured => "no providers configured"@,
                ResolutionErrorView::ProviderNotFound(n) => "provider not found: "@ + n,
                ResolutionErrorView::UnsupportedProviderKind(k) => "provider kind unsupported: "@ + k,
                ResolutionErrorView::MissingEndpoint(n) => "provider endpoint missing for "@ + n,
            },
    {
        match self {
            ProviderResolutionError::NoProvidersConfigured => "no providers configured".to_string(),
            ProviderResolutionError::ProviderNotFound(n) => crate::text::join2(
                "provider not found: ",
                n.as_str(),
            ),
            ProviderResolutionError::UnsupportedProviderKind(k) => crate::text::join2(
                "provider kind unsupported: ",
                k.as_str(),
            ),
            ProviderResolutionError::MissingEndpoint(n) => crate::text::join2(
                "provider endpoint missing for ",
                n.as_str(),
            ),
        }
    }
}

/// The content stored under `k` by the last pair named `k`.
pub open spec fn pairs_lookup(pairs: Seq<(String, ProviderConfig)>, k: Seq<char>) -> Option<ProviderConfigView>
    decreases pairs.len(),
{
    if pairs.len() == 0 {
        None
    } else if pairs.last().0@ == k {
        Some(pairs.last().1@)
    } else {
        pairs_lookup(pairs.drop_last(), k)
    }
}

impl ProviderMap {
    /// A map holding the given entries, a later entry replacing an earlier one
    /// of the same name.
    pub fn from_pairs(pairs: Vec<(String, ProviderConfig)>) -> (m: Self)
        ensures
            m.wf(),
            forall|k: Seq<char>| m.has(k) <==> exists|i: int| 0 <= i < pairs@.len() && (#[trigger] pairs@[i]).0@ == k,
            forall|k: Seq<char>| #[trigger] m.lookup(k) == pairs_lookup(pairs@, k),
    {
        let mut m = ProviderMap::new();
        let mut pairs = pairs;
        let ghost all = pairs@;
        assert(all.skip(0) =~= all);
        while pairs.len() > 0
            invariant
                m.wf(),
                pairs@.len() <= all.len(),
                pairs@ == all.skip(all.len() - pairs@.len()),
                forall|k: Seq<char>| m.has(k) <==> exists|i: int|
                    0 <= i < all.len() - pairs@.len() && (#[trigger] all[i]).0@ == k,
                forall|k: Seq<char>| #[trigger] m.lookup(k) == pairs_lookup(all.take(all.len() - pairs@.len()), k),
            decreases pairs.len(),
        {
            let ghost done = all.len() - pairs@.len();
            let (name, config) = pairs.remove(0);
            assert(pairs@ =~= all.skip(done + 1));
            assert(all.take(done + 1).drop_last() =~= all.take(done));
            let ghost key = name@;
            assert(all[done].0@ == key);
            m.insert(name, config);
            assert forall|k: Seq<char>| m.has(k) <==> exists|i: int|
                0 <= i < all.len() - pairs@.len() && (#[trigger] all[i]).0@ == k by {
                if m.has(k) && k != key {
                    let i = choose|i: int| 0 <= i < done && (#[trigger] all[i]).0@ == k;
                }
            }
            assert forall|k: Seq<char>| #[trigger] m.lookup(k) == pairs_lookup(all.take(all.len() - pairs@.len()), k) by {
                assert(all.take(done + 1).last() == all[done]);
            }
        }
        assert(all.take(all.len() as int) =~= all);
        m
    }
}

/// The configuration's llm-router provider: the `llm-router` entry, else the
/// one its legacy section stands for.
pub fn llm_router_provider(config: &MuldexConfig) -> (r: Option<ProviderConfig>)
    requires
        config.providers.wf(),
    ensures
        match r {
            Some(p) => offered(*config, router_name()) == Some(p@),
            None => offered(*config, router_name()) is None,
        },
{
    offered_provider(config, "llm-router")
}

/// The provider resolution succeeds for the active provider.
pub fn active_provider_is_configured(config: &MuldexConfig, env: &[(String, String)]) -> (b: bool)
    requires
        config.providers.wf(),
    ensures
        b == resolution(*config, None, env@) is Ok,
{
    resolve_provider_config(config, None, env).is_ok()
}

/// The `llm-router` provider entry created on first configuration.
pub open spec fn default_router_entry() -> ProviderConfigView {
    ProviderConfigView {
        kind: "openai-compatible"@,
        host: Some("127.0.0.1"@),
        port: Some(3000),
        base_url: None,
        api_key: None,
        api_key_env: None,
        default_model: None,
    }
}

impl MuldexConfig {
    /// Makes sure an `llm-router` entry exists, creating the local default
    /// (`127.0.0.1:3000`) when missing; other entries stay as they are.
    pub fn ensure_llm_router(&mut self)
        requires
            old(self).providers.wf(),
        ensures
            final(self).providers.wf(),
            final(self).providers.has(router_name()),
            old(self).providers.has(router_name()) ==> final(self).providers == old(self).providers,
            !old(self).providers.has(router_name()) ==> final(self).providers.lookup(router_name())
                == Some(default_router_entry()),
            forall|k: Seq<char>| k != router_name() ==> final(self).providers.lookup(k) == old(self).providers.lookup(k),
            final(self).schema_version == old(self).schema_version,
            final(self).default_provider == old(self).default_provider,
            final(self).llm_router == old(self).llm_router,
    {
        if !self.providers.contains_key("llm-router") {
            self.providers.insert(
                "llm-router".to_string(),
                ProviderConfig {
                    kind: "openai-compatible".to_string(),
                    host: Some("127.0.0.1".to_string()),
                    port: Some(3000),
                    base_url: None,
                    api_key: None,
                    api_key_env: None,
                    default_model: None,
                },
            );
        }
    }
}


// ---------------------------------------------------------------------
// what a provider turn exchanges

#[derive(Clone, Copy, Debug, PartialEq, Eq, Structural)]
pub enum ProviderMessageRole {
    System,
    User,
    Assistant,
    Tool,
}

#[derive(Clone, Debug, PartialEq, Eq)]
pub struct ProviderToolCall {
    pub id: String,
    pub name: String,
    pub arguments_json: String,
}

#[derive(Clone, Debug, PartialEq, Eq)]
pub struct ProviderTurnMessage {
    pub role: ProviderMessageRole,
    pub content: Option<String>,
    pub tool_call_id: Option<String>,
    pub name: Option<String>,
    pub tool_calls: Vec<ProviderToolCall>,
}

#[derive(Clone, Debug, PartialEq, Eq)]
pub struct ProviderAssistantTurn {
    pub content: String,
    pub tool_calls: Vec<ProviderToolCall>,
}

#[derive(Clone, Debug, PartialEq, Eq)]
pub struct ProviderToolCallDelta {
    pub index: usize,
    pub id_fragment: Option<String>,
    pub name_fragment: Option<String>,
    pub arguments_fragment: Option<String>,
}

/// Token accounting reported by the provider for a completed turn.
#[derive(Clone, Debug, Default, PartialEq, Eq)]
pub struct ProviderUsage {
    pub input_tokens: u64,
    pub cached_input_tokens: u64,
    pub output_tokens: u64,
    pub total_tokens: u64,
}

/// Rate-limit signals surfaced from provider response headers.
#[derive(Clone, Debug, Default, PartialEq, Eq)]
pub struct ProviderRateLimit {
    pub limit_requests: Option<u64>,
    pub remaining_requests: Option<u64>,
    pub limit_tokens: Option<u64>,
    pub remaining_tokens: Option<u64>,
    pub reset_after_seconds: Option<u64>,
}

#[derive(Clone, Debug, PartialEq, Eq)]
pub enum ProviderStreamEvent {
    AssistantDelta(String),
    ToolCallDelta(ProviderToolCallDelta),
    MessageComplete,
    Usage(ProviderUsage),
    RateLimit(ProviderRateLimit),
}

/// Receives the events of a streamed provider turn, in order.
pub trait ProviderEventSink {
    fn push(&mut self, event: ProviderStreamEvent);
}

#[derive(Clone, Debug, PartialEq, Eq)]
pub enum ProviderError {
    Http(String),
    Protocol(String),
}

impl ProviderError {
    /// The error's message.
    pub fn message(&self) -> (m: String)
        ensures
            m@ == match self {
                ProviderError::Http(s) => "provider http error: "@ + s@,
                ProviderError::Protocol(s) => "provider protocol error: "@ + s@,
            },
    {
        match self {
            ProviderError::Http(s) => crate::text::join2("provider http error: ", s.as_str()),
            ProviderError::Protocol(s) => crate::text::join2("provider protocol error: ", s.as_str()),
        }
    }
}

} // verus!
