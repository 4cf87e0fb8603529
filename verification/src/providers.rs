//! The provider registry and the pieces of the login picker built on it:
//! which providers exist, how each one authenticates, and how the provider
//! list is searched.

use vstd::prelude::*;
use crate::text::{
    ascii_lower_seq, ascii_lowercase, contains_seq, contains_str, copy_str, str_eq, trim, trim_str,
};

verus! {

/// How a provider is logged into.
#[derive(Debug, Clone, Copy, PartialEq, Eq, Structural)]
pub enum LoginAuthMode {
    /// No credential needed (local runtimes).
    NoAuth,
    /// Browser OAuth login (an API key may be entered instead for some providers).
    OAuth,
    /// An API key.
    ApiKey,
    /// An endpoint URL plus an API key.
    EndpointAndKey,
}

/// The credential kind chosen in the login picker.
#[derive(Debug, Clone, Copy, PartialEq, Eq, Structural)]
pub enum AuthMethodChoice {
    OAuth,
    ApiKey,
}

/// Steps of the login picker.
#[derive(Debug, Clone, Copy, PartialEq, Eq, Structural)]
pub enum LoginBrowseStep {
    SelectProvider,
    SelectMethod,
    InputEndpoint,
    InputApiKey,
}

/// One provider known to the client.
#[derive(Debug, Clone, PartialEq, Eq)]
pub struct ProviderRegistryEntry {
    /// Provider id (lowercase).
    pub name: String,
    /// Name shown to users.
    pub display_name: String,
    /// How the provider authenticates.
    pub auth_mode: LoginAuthMode,
    /// Environment variable holding the API key.
    pub api_key_env: String,
    /// Environment variable holding the endpoint, for endpoint+key providers.
    pub endpoint_env: Option<String>,
    /// Whether the agent runtime can already use this provider.
    pub supports_runtime: bool,
}

/// The mathematical content of a [`ProviderRegistryEntry`].
pub struct ProviderView {
    pub name: Seq<char>,
    pub display_name: Seq<char>,
    pub auth_mode: LoginAuthMode,
    pub api_key_env: Seq<char>,
    pub endpoint_env: Option<Seq<char>>,
    pub supports_runtime: bool,
}

/// The text of an optional string.
pub open spec fn opt_view(o: Option<String>) -> Option<Seq<char>> {
    match o {
        Some(s) => Some(s@),
        None => None,
    }
}

impl View for ProviderRegistryEntry {
    type V = ProviderView;

    open spec fn view(&self) -> ProviderView {
        ProviderView {
            name: self.name@,
            display_name: self.display_name@,
            auth_mode: self.auth_mode,
            api_key_env: self.api_key_env@,
            endpoint_env: opt_view(self.endpoint_env),
            supports_runtime: self.supports_runtime,
        }
    }
}

/// The registry, in display order.
pub open spec fn registry() -> Seq<ProviderView> {
    seq![
        ProviderView {
            name: "openai"@,
            display_name: "OpenAI"@,
            auth_mode: LoginAuthMode::OAuth,
            api_key_env: "OPENAI_API_KEY"@,
            endpoint_env: None,
            supports_runtime: true,
        },
        ProviderView {
            name: "anthropic"@,
            display_name: "Anthropic"@,
            auth_mode: LoginAuthMode::OAuth,
            api_key_env: "ANTHROPIC_API_KEY"@,
            endpoint_env: None,
            supports_runtime: true,
        },
        ProviderView {
            name: "together"@,
            display_name: "Together"@,
            auth_mode: LoginAuthMode::ApiKey,
            api_key_env: "TOGETHER_API_KEY"@,
            endpoint_env: None,
            supports_runtime: true,
        },
        ProviderView {
            name: "ollama"@,
            display_name: "Ollama"@,
            auth_mode: LoginAuthMode::NoAuth,
            api_key_env: "OLLAMA_API_KEY"@,
            endpoint_env: None,
            supports_runtime: true,
        },
        ProviderView {
            name: "openrouter"@,
            display_name: "OpenRouter"@,
            auth_mode: LoginAuthMode::OAuth,
            api_key_env: "OPENROUTER_API_KEY"@,
            endpoint_env: None,
            supports_runtime: true,
        },
        ProviderView {
            name: "custom"@,
            display_name: "Custom"@,
            auth_mode: LoginAuthMode::EndpointAndKey,
            api_key_env: "OPENPISTA_API_KEY"@,
            endpoint_env: Some("OPENPISTA_BASE_URL"@),
            supports_runtime: true,
        },
    ]
}

/// One registry entry built from its parts.
fn make_entry(
    name: &str,
    display_name: &str,
    auth_mode: LoginAuthMode,
    api_key_env: &str,
    endpoint_env: Option<&str>,
) -> (e: ProviderRegistryEntry)
    ensures
        e@ == (ProviderView {
            name: name@,
            display_name: display_name@,
            auth_mode,
            api_key_env: api_key_env@,
            endpoint_env: match endpoint_env {
                Some(s) => Some(s@),
                None => None,
            },
            supports_runtime: true,
        }),
{
    ProviderRegistryEntry {
        name: copy_str(name),
        display_name: copy_str(display_name),
        auth_mode,
        api_key_env: copy_str(api_key_env),
        endpoint_env: match endpoint_env {
            Some(s) => Some(copy_str(s)),
            None => None,
        },
        supports_runtime: true,
    }
}

/// A copy of optional text.
pub fn copy_opt(o: &Option<String>) -> (r: Option<String>)
    ensures
        opt_view(r) == opt_view(*o),
{
    match o {
        Some(s) => Some(copy_str(s.as_str())),
        None => None,
    }
}

impl ProviderRegistryEntry {
    /// A copy of the entry.
    pub fn copy(&self) -> (r: ProviderRegistryEntry)
        ensures
            r@ == self@,
    {
        ProviderRegistryEntry {
            name: copy_str(self.name.as_str()),
            display_name: copy_str(self.display_name.as_str()),
            auth_mode: self.auth_mode,
            api_key_env: copy_str(self.api_key_env.as_str()),
            endpoint_env: copy_opt(&self.endpoint_env),
            supports_runtime: self.supports_runtime,
        }
    }
}

/// The texts of a list of registry entries.
pub open spec fn provider_views(v: Seq<ProviderRegistryEntry>) -> Seq<ProviderView> {
    Seq::new(v.len(), |i: int| v[i]@)
}

/// All providers, in display order.
pub fn provider_registry() -> (v: Vec<ProviderRegistryEntry>)
    ensures
        provider_views(v@) == registry(),
{
    let mut v: Vec<ProviderRegistryEntry> = Vec::new();
    v.push(make_entry("openai", "OpenAI", LoginAuthMode::OAuth, "OPENAI_API_KEY", None));
    v.push(make_entry("anthropic", "Anthropic", LoginAuthMode::OAuth, "ANTHROPIC_API_KEY", None));
    v.push(make_entry("together", "Together", LoginAuthMode::ApiKey, "TOGETHER_API_KEY", None));
    v.push(make_entry("ollama", "Ollama", LoginAuthMode::NoAuth, "OLLAMA_API_KEY", None));
    v.push(
        make_entry("openrouter", "OpenRouter", LoginAuthMode::OAuth, "OPENROUTER_API_KEY", None),
    );
    v.push(
        make_entry(
            "custom",
            "Custom",
            LoginAuthMode::EndpointAndKey,
            "OPENPISTA_API_KEY",
            Some("OPENPISTA_BASE_URL"),
        ),
    );
    assert(provider_views(v@) =~= registry());
    v
}

/// The search text of a query: trimmed and ASCII-lowercased.
pub open spec fn normalized_query(q: Seq<char>) -> Seq<char> {
    ascii_lower_seq(trim(q))
}

/// Provider `p` matches the normalized query `q`.
pub open spec fn provider_matches(p: ProviderView, q: Seq<char>) -> bool {
    q.len() == 0 || contains_seq(ascii_lower_seq(p.name), q) || contains_seq(
        ascii_lower_seq(p.display_name),
        q,
    )
}

/// The entries of `s` that match `q`, in order.
pub open spec fn filter_providers(s: Seq<ProviderView>, q: Seq<char>) -> Seq<ProviderView>
    decreases s.len(),
{
    if s.len() == 0 {
        Seq::empty()
    } else if provider_matches(s.last(), q) {
        filter_providers(s.drop_last(), q).push(s.last())
    } else {
        filter_providers(s.drop_last(), q)
    }
}

/// The providers shown for a search query.
pub open spec fn filtered_providers(query: Seq<char>) -> Seq<ProviderView> {
    filter_providers(registry(), normalized_query(query))
}

/// Whether entry `p` matches the normalized query `q`.
fn entry_matches(p: &ProviderRegistryEntry, q: &str) -> (r: bool)
    ensures
        r == provider_matches(p@, q@),
{
    if q.is_empty() {
        return true;
    }
    let n = ascii_lowercase(p.name.as_str());
    if contains_str(n.as_str(), q) {
        return true;
    }
    let d = ascii_lowercase(p.display_name.as_str());
    contains_str(d.as_str(), q)
}

/// The providers matching `query` (case-insensitive substring of the id or
/// the display name; all providers for a blank query), in registry order.
pub fn filtered_provider_entries(query: &str) -> (r: Vec<ProviderRegistryEntry>)
    ensures
        provider_views(r@) == filtered_providers(query@),
{
    let t = trim_str(query);
    let q = ascii_lowercase(t.as_str());
    let all = provider_registry();
    let mut out: Vec<ProviderRegistryEntry> = Vec::new();
    let mut i: usize = 0;
    while i < all.len()
        invariant
            0 <= i <= all.len(),
            provider_views(all@) == registry(),
            q@ == normalized_query(query@),
            provider_views(out@) == filter_providers(registry().take(i as int), q@),
        decreases all.len() - i,
    {
        let ghost before = provider_views(out@);
        assert(registry().take(i + 1).drop_last() =~= registry().take(i as int));
        assert(registry().take(i + 1).last() == all@[i as int]@);
        if entry_matches(&all[i], q.as_str()) {
            out.push(all[i].copy());
            assert(provider_views(out@) =~= before.push(all@[i as int]@));
        }
        i = i + 1;
    }
    assert(registry().take(all.len() as int) =~= registry());
    out
}

/// The first registry entry whose id is `name`.
pub open spec fn find_provider(s: Seq<ProviderView>, name: Seq<char>) -> Option<ProviderView>
    decreases s.len(),
{
    if s.len() == 0 {
        None
    } else if s[0].name == name {
        Some(s[0])
    } else {
        find_provider(s.drop_first(), name)
    }
}

/// The registry entry whose id is `name`, if any.
pub fn provider_by_name(name: &str) -> (r: Option<ProviderRegistryEntry>)
    ensures
        match r {
            Some(e) => find_provider(registry(), name@) == Some(e@),
            None => find_provider(registry(), name@) is None,
        },
{
    let all = provider_registry();
    let mut i: usize = 0;
    assert(registry().skip(0) =~= registry());
    while i < all.len()
        invariant
            0 <= i <= all.len(),
            provider_views(all@) == registry(),
            find_provider(registry(), name@) == find_provider(registry().skip(i as int), name@),
        decreases all.len() - i,
    {
        assert(registry().skip(i as int).drop_first() =~= registry().skip(i + 1));
        assert(registry().skip(i as int)[0] == all@[i as int]@);
        if str_eq(all[i].name.as_str(), name) {
            return Some(all[i].copy());
        }
        i = i + 1;
    }
    None
}

/// The picker step a provider's credentials are entered at.
pub open spec fn step_for_provider(p: ProviderView) -> LoginBrowseStep {
    match p.auth_mode {
        LoginAuthMode::OAuth => if p.name == "openai"@ || p.name == "anthropic"@ {
            LoginBrowseStep::SelectMethod
        } else {
            LoginBrowseStep::InputApiKey
        },
        LoginAuthMode::ApiKey => LoginBrowseStep::InputApiKey,
        LoginAuthMode::EndpointAndKey => LoginBrowseStep::InputEndpoint,
        LoginAuthMode::NoAuth => LoginBrowseStep::SelectProvider,
    }
}

/// The provider offers a choice between browser login and an API key.
pub fn offers_method_choice(name: &str) -> (r: bool)
    ensures
        r == (name@ == "openai"@ || name@ == "anthropic"@),
{
    str_eq(name, "openai") || str_eq(name, "anthropic")
}

/// The picker step at which `entry`'s credentials are entered.
pub fn provider_step_for_entry(entry: &ProviderRegistryEntry) -> (s: LoginBrowseStep)
    ensures
        s == step_for_provider(entry@),
{
    match entry.auth_mode {
        LoginAuthMode::OAuth => if offers_method_choice(entry.name.as_str()) {
            LoginBrowseStep::SelectMethod
        } else {
            LoginBrowseStep::InputApiKey
        },
        LoginAuthMode::ApiKey => LoginBrowseStep::InputApiKey,
        LoginAuthMode::EndpointAndKey => LoginBrowseStep::InputEndpoint,
        LoginAuthMode::NoAuth => LoginBrowseStep::SelectProvider,
    }
}

/// The search text a `/login <seed>` command opens the picker with.
pub open spec fn provider_seed(seed: Option<Seq<char>>) -> Seq<char> {
    match seed {
        Some(s) => ascii_lower_seq(trim(s)),
        None => Seq::empty(),
    }
}

/// The initial search text of the login picker for an optional seed.
pub fn parse_provider_seed(seed: Option<&str>) -> (r: String)
    ensures
        r@ == provider_seed(match seed {
            Some(s) => Some(s@),
            None => None,
        }),
{
    match seed {
        Some(s) => {
            let t = trim_str(s);
            ascii_lowercase(t.as_str())
        },
        None => String::new(),
    }
}

/// The credential kind recorded for a key typed at the API-key step.
pub open spec fn key_method(selected: Option<AuthMethodChoice>) -> AuthMethodChoice {
    match selected {
        Some(m) => m,
        None => AuthMethodChoice::ApiKey,
    }
}

/// The credential kind of a key (or pasted OAuth code) typed at the API-key
/// step: the method chosen earlier, an API key when none was chosen.
pub fn api_key_method_for_provider(provider: &str, selected: Option<AuthMethodChoice>) -> (m:
    AuthMethodChoice)
    ensures
        m == key_method(selected),
{
    match selected {
        Some(m) => m,
        None => AuthMethodChoice::ApiKey,
    }
}

/// What the login picker hands to the event loop once a provider and a
/// credential kind are chosen.
#[derive(Debug, Clone, PartialEq, Eq)]
pub struct AuthLoginIntent {
    pub provider: String,
    pub auth_method: AuthMethodChoice,
    pub endpoint: Option<String>,
    pub api_key: Option<String>,
}

/// The mathematical content of an [`AuthLoginIntent`].
pub struct IntentView {
    pub provider: Seq<char>,
    pub auth_method: AuthMethodChoice,
    pub endpoint: Option<Seq<char>>,
    pub api_key: Option<Seq<char>>,
}

impl View for AuthLoginIntent {
    type V = IntentView;

    open spec fn view(&self) -> IntentView {
        IntentView {
            provider: self.provider@,
            auth_method: self.auth_method,
            endpoint: opt_view(self.endpoint),
            api_key: opt_view(self.api_key),
        }
    }
}

} // verus!
