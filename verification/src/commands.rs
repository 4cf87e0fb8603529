//! The decisions of the event loop that need no terminal: the `/model`
//! sub-commands, API key validation, the stored credentials and what a login
//! stores, the model list printed to the conversation, and the providers
//! whose catalogs are loaded.

use vstd::prelude::*;
use crate::catalog::{EntryView, ModelCatalogEntry, ModelSource, entry_views};
use crate::providers::{
    AuthLoginIntent, AuthMethodChoice, IntentView, LoginAuthMode, ProviderView, find_provider,
    opt_view, provider_by_name, registry,
};
use crate::state::TuiApp;
use crate::text::{
    ascii_lower_seq, ascii_lowercase, concat2, concat3, contains_whitespace, copy_str, decimal,
    has_ws, join, split_words, str_eq, string_views, trim, trim_str, u64_to_string, words,
};

verus! {

// ─── `/model` ───────────────────────────────────────────────────────────────

/// What `/model` followed by something other than `list` answers.
pub open spec fn model_usage() -> Seq<char> {
    "Use /model to browse or /model list to print models."@
}

/// Sub-command of `/model`.
#[derive(Debug, Clone, PartialEq, Eq)]
pub enum ModelsCommand {
    /// Open the model browser.
    Browse,
    /// Print the model list to the conversation.
    List,
    /// Not a known sub-command; the text tells how to use `/model`.
    Invalid(String),
}

/// The mathematical content of a [`ModelsCommand`].
pub enum ModelsCommandView {
    Browse,
    List,
    Invalid(Seq<char>),
}

impl View for ModelsCommand {
    type V = ModelsCommandView;

    open spec fn view(&self) -> ModelsCommandView {
        match self {
            ModelsCommand::Browse => ModelsCommandView::Browse,
            ModelsCommand::List => ModelsCommandView::List,
            ModelsCommand::Invalid(t) => ModelsCommandView::Invalid(t@),
        }
    }
}

/// The `/model` sub-command of `raw`: none unless its first word is
/// `/model`; browsing with no second word, the list with `list`, and the
/// usage text otherwise.
pub open spec fn models_command(raw: Seq<char>) -> Option<ModelsCommandView> {
    let ws = words(raw);
    if ws.len() == 0 || ws[0] != "/model"@ {
        None
    } else if ws.len() == 1 {
        Some(ModelsCommandView::Browse)
    } else if ws[1] == "list"@ {
        Some(ModelsCommandView::List)
    } else {
        Some(ModelsCommandView::Invalid(model_usage()))
    }
}

/// Parses a `/model` command (see [`models_command`]).
pub fn parse_models_command(raw: &str) -> (r: Option<ModelsCommand>)
    ensures
        match r {
            Some(c) => models_command(raw@) == Some(c@),
            None => models_command(raw@) is None,
        },
{
    let ws = split_words(raw);
    assert(string_views(ws@).len() == ws@.len());
    if ws.len() == 0 {
        return None;
    }
    assert(string_views(ws@)[0] == ws@[0]@);
    if !str_eq(ws[0].as_str(), "/model") {
        return None;
    }
    if ws.len() == 1 {
        return Some(ModelsCommand::Browse);
    }
    assert(string_views(ws@)[1] == ws@[1]@);
    if str_eq(ws[1].as_str(), "list") {
        Some(ModelsCommand::List)
    } else {
        Some(ModelsCommand::Invalid(copy_str("Use /model to browse or /model list to print models.")))
    }
}

// ─── API keys ───────────────────────────────────────────────────────────────

/// The API key typed as `raw`: its trimmed text, unless that is empty or
/// holds whitespace.
pub open spec fn api_key_check(raw: Seq<char>) -> Result<Seq<char>, Seq<char>> {
    let k = trim(raw);
    if k.len() == 0 {
        Err("API key cannot be empty"@)
    } else if has_ws(k) {
        Err("API key must not contain whitespace"@)
    } else {
        Ok(k)
    }
}

/// Checks an API key typed at a login prompt (see [`api_key_check`]).
pub fn validate_api_key(api_key: String) -> (r: Result<String, String>)
    ensures
        match r {
            Ok(k) => api_key_check(api_key@) == Ok::<Seq<char>, Seq<char>>(k@),
            Err(e) => api_key_check(api_key@) == Err::<Seq<char>, Seq<char>>(e@),
        },
{
    let key = trim_str(api_key.as_str());
    if key.as_str().is_empty() {
        return Err(copy_str("API key cannot be empty"));
    }
    if contains_whitespace(key.as_str()) {
        return Err(copy_str("API key must not contain whitespace"));
    }
    Ok(key)
}

// ─── Stored credentials ─────────────────────────────────────────────────────

/// A credential stored for one provider.
#[derive(Debug, Clone, PartialEq, Eq)]
pub struct ProviderCredential {
    /// API key or OAuth access token.
    pub access_token: String,
    pub refresh_token: Option<String>,
    /// When the token stops working, in seconds since the Unix epoch.
    pub expires_at: Option<i64>,
    /// Endpoint of an endpoint+key provider.
    pub endpoint: Option<String>,
}

/// The mathematical content of a [`ProviderCredential`].
pub struct CredentialView {
    pub access_token: Seq<char>,
    pub refresh_token: Option<Seq<char>>,
    pub expires_at: Option<i64>,
    pub endpoint: Option<Seq<char>>,
}

impl View for ProviderCredential {
    type V = CredentialView;

    open spec fn view(&self) -> CredentialView {
        CredentialView {
            access_token: self.access_token@,
            refresh_token: opt_view(self.refresh_token),
            expires_at: self.expires_at,
            endpoint: opt_view(self.endpoint),
        }
    }
}

impl ProviderCredential {
    /// A copy of the credential.
    pub fn copy(&self) -> (r: ProviderCredential)
        ensures
            r@ == self@,
    {
        ProviderCredential {
            access_token: copy_str(self.access_token.as_str()),
            refresh_token: crate::providers::copy_opt(&self.refresh_token),
            expires_at: self.expires_at,
            endpoint: crate::providers::copy_opt(&self.endpoint),
        }
    }

    /// The credential has an expiry time and `now` (seconds since the Unix
    /// epoch) has reached it.
    pub fn is_expired(&self, now: i64) -> (r: bool)
        ensures
            r == (self.expires_at matches Some(t) && now >= t),
    {
        match self.expires_at {
            Some(t) => now >= t,
            None => false,
        }
    }
}

/// The credentials of every provider, by provider id: later entries of
/// `entries` win over earlier ones with the same id.
pub open spec fn credential_map(entries: Seq<(String, ProviderCredential)>) -> Map<
    Seq<char>,
    CredentialView,
>
    decreases entries.len(),
{
    if entries.len() == 0 {
        Map::empty()
    } else {
        credential_map(entries.drop_last()).insert(entries.last().0@, entries.last().1@)
    }
}

/// The stored credentials, one per provider.
#[derive(Debug, Clone, PartialEq, Eq)]
pub struct Credentials {
    /// `(provider id, credential)` pairs.
    pub providers: Vec<(String, ProviderCredential)>,
}

impl View for Credentials {
    type V = Map<Seq<char>, CredentialView>;

    open spec fn view(&self) -> Map<Seq<char>, CredentialView> {
        credential_map(self.providers@)
    }
}

/// `entries` without those of provider `id`.
pub open spec fn without_provider(entries: Seq<(String, ProviderCredential)>, id: Seq<char>) -> Seq<
    (String, ProviderCredential),
>
    decreases entries.len(),
{
    if entries.len() == 0 {
        Seq::empty()
    } else if entries.last().0@ == id {
        without_provider(entries.drop_last(), id)
    } else {
        without_provider(entries.drop_last(), id).push(entries.last())
    }
}

/// Dropping a provider's entries drops it from the map.
proof fn lemma_without_provider(entries: Seq<(String, ProviderCredential)>, id: Seq<char>)
    ensures
        credential_map(without_provider(entries, id)) == credential_map(entries).remove(id),
    decreases entries.len(),
{
    if entries.len() == 0 {
        assert(credential_map(entries).remove(id) =~= Map::<Seq<char>, CredentialView>::empty());
    } else {
        lemma_without_provider(entries.drop_last(), id);
        let e = entries.last();
        let rest = credential_map(entries.drop_last());
        if e.0@ == id {
            assert(rest.insert(id, e.1@).remove(id) =~= rest.remove(id));
        } else {
            assert(without_provider(entries, id).drop_last() == without_provider(
                entries.drop_last(),
                id,
            ));
            assert(rest.remove(id).insert(e.0@, e.1@) =~= rest.insert(e.0@, e.1@).remove(id));
        }
    }
}

impl Credentials {
    /// No credentials.
    pub fn new() -> (c: Credentials)
        ensures
            c@ == Map::<Seq<char>, CredentialView>::empty(),
    {
        Credentials { providers: Vec::new() }
    }

    /// The credential of `provider`, if one is stored.
    pub fn get(&self, provider: &str) -> (r: Option<ProviderCredential>)
        ensures
            match r {
                Some(c) => self@.contains_key(provider@) && self@[provider@] == c@,
                None => !self@.contains_key(provider@),
            },
    {
        let ghost all = self.providers@;
        let mut found: Option<usize> = None;
        let mut i: usize = 0;
        assert(all.take(0) =~= Seq::<(String, ProviderCredential)>::empty());
        while i < self.providers.len()
            invariant
                0 <= i <= self.providers.len(),
                all == self.providers@,
                match found {
                    Some(j) => j < i && credential_map(all.take(i as int)).contains_key(provider@)
                        && credential_map(all.take(i as int))[provider@] == all[j as int].1@,
                    None => !credential_map(all.take(i as int)).contains_key(provider@),
                },
            decreases self.providers.len() - i,
        {
            assert(all.take(i + 1).drop_last() =~= all.take(i as int));
            assert(all.take(i + 1).last() == all[i as int]);
            if str_eq(self.providers[i].0.as_str(), provider) {
                found = Some(i);
            }
            i = i + 1;
        }
        assert(all.take(i as int) =~= all);
        match found {
            Some(j) => Some(self.providers[j].1.copy()),
            None => None,
        }
    }

    /// Stores `credential` for `provider`, replacing what was stored for it.
    pub fn set(&mut self, provider: String, credential: ProviderCredential)
        ensures
            final(self)@ == old(self)@.insert(provider@, credential@),
    {
        let ghost all = self.providers@;
        let mut kept: Vec<(String, ProviderCredential)> = Vec::new();
        let mut i: usize = 0;
        assert(all.take(0) =~= Seq::<(String, ProviderCredential)>::empty());
        while i < self.providers.len()
            invariant
                0 <= i <= self.providers.len(),
                all == self.providers@,
                credential_map(kept@) == credential_map(without_provider(all.take(i as int), provider@)),
            decreases self.providers.len() - i,
        {
            assert(all.take(i + 1).drop_last() =~= all.take(i as int));
            assert(all.take(i + 1).last() == all[i as int]);
            let ghost w = without_provider(all.take(i as int), provider@);
            if !str_eq(self.providers[i].0.as_str(), provider.as_str()) {
                let ghost before = kept@;
                kept.push((copy_str(self.providers[i].0.as_str()), self.providers[i].1.copy()));
                assert(kept@.drop_last() == before);
                assert(without_provider(all.take(i + 1), provider@) == w.push(all[i as int]));
                assert(w.push(all[i as int]).drop_last() == w);
                assert(credential_map(kept@) == credential_map(before).insert(
                    all[i as int].0@,
                    all[i as int].1@,
                ));
            } else {
                assert(without_provider(all.take(i + 1), provider@) == w);
            }
            i = i + 1;
        }
        assert(all.take(i as int) =~= all);
        proof {
            lemma_without_provider(all, provider@);
        }
        let ghost before = kept@;
        kept.push((provider, credential));
        assert(kept@.drop_last() == before);
        self.providers = kept;
    }
}

/// Stores `credential` for `provider` in `credentials` and returns the
/// result, ready to be written back to the credentials file.
pub fn persist_credential(
    provider: String,
    credential: ProviderCredential,
    credentials: Credentials,
) -> (r: Credentials)
    ensures
        r@ == credentials@.insert(provider@, credential@),
{
    let mut c = credentials;
    c.set(provider, credential);
    c
}

/// Where the credentials file lives under the home directory `home`.
pub open spec fn credentials_file(home: Seq<char>) -> Seq<char> {
    home + "/.openpista/credentials.toml"@
}

/// The credentials file under the home directory `home`.
pub fn credentials_path(home: &str) -> (r: String)
    ensures
        r@ == credentials_file(home@),
{
    concat2(home, "/.openpista/credentials.toml")
}

impl TuiApp {
    /// The configured provider has a stored credential that has not expired
    /// at `now` (seconds since the Unix epoch).
    pub fn is_authenticated(&self, credentials: &Credentials, now: i64) -> (r: bool)
        ensures
            r == (credentials@.contains_key(self@.model.provider_name) && !(
            credentials@[self@.model.provider_name].expires_at matches Some(t) && now >= t)),
    {
        match credentials.get(self.model.provider_name.as_str()) {
            Some(c) => !c.is_expired(now),
            None => false,
        }
    }
}

// ─── The model list ─────────────────────────────────────────────────────────

/// One line of the model list: `prefix`, the id, the provider in brackets,
/// ` (api)` for a model listed by the provider's API.
pub open spec fn model_line(prefix: Seq<char>, e: EntryView) -> Seq<char> {
    prefix + e.id + " ["@ + e.provider + "]"@ + (if e.source == ModelSource::Api {
        " (api)"@
    } else {
        Seq::empty()
    }) + "\n"@
}

/// The entry is available and is (`rec`) or is not (`!rec`) recommended for
/// coding.
pub open spec fn of_kind(e: EntryView, rec: bool) -> bool {
    e.available && e.recommended_for_coding == rec
}

/// The lines of the available entries of kind `rec`, in order.
pub open spec fn kind_lines(es: Seq<EntryView>, rec: bool, prefix: Seq<char>) -> Seq<char>
    decreases es.len(),
{
    if es.len() == 0 {
        Seq::empty()
    } else if of_kind(es.last(), rec) {
        kind_lines(es.drop_last(), rec, prefix) + model_line(prefix, es.last())
    } else {
        kind_lines(es.drop_last(), rec, prefix)
    }
}

/// Number of available entries of kind `rec`.
pub open spec fn kind_count(es: Seq<EntryView>, rec: bool) -> nat
    decreases es.len(),
{
    if es.len() == 0 {
        0
    } else {
        kind_count(es.drop_last(), rec) + if of_kind(es.last(), rec) {
            1nat
        } else {
            0nat
        }
    }
}

/// The text listing a catalog: the number of models, the available
/// recommended ones, the other available ones, and the sync statuses.
pub open spec fn model_list_text(es: Seq<EntryView>, statuses: Seq<Seq<char>>) -> Seq<char> {
    "Models \u{2014} "@ + decimal(es.len()) + " total\n"@ + (if kind_count(es, true) > 0 {
        "\nRecommended:\n"@ + kind_lines(es, true, "  \u{2605}  "@)
    } else {
        Seq::empty()
    }) + (if kind_count(es, false) > 0 {
        "\nOther:\n"@ + kind_lines(es, false, "     "@)
    } else {
        Seq::empty()
    }) + (if statuses.len() > 0 {
        "\nSync: "@ + join(statuses, "; "@)
    } else {
        Seq::empty()
    })
}

/// The lines of the available entries of kind `rec`, and their number.
fn lines_of_kind(entries: &[ModelCatalogEntry], rec: bool, prefix: &str) -> (r: (String, usize))
    ensures
        r.0@ == kind_lines(entry_views(entries@), rec, prefix@),
        r.1 == kind_count(entry_views(entries@), rec),
{
    let ghost es = entry_views(entries@);
    let mut out = String::new();
    let mut n: usize = 0;
    let mut i: usize = 0;
    assert(es.take(0) =~= Seq::<EntryView>::empty());
    while i < entries.len()
        invariant
            0 <= i <= entries.len(),
            es == entry_views(entries@),
            out@ == kind_lines(es.take(i as int), rec, prefix@),
            n == kind_count(es.take(i as int), rec),
            n <= i,
        decreases entries.len() - i,
    {
        assert(es.take(i + 1).drop_last() =~= es.take(i as int));
        assert(es.take(i + 1).last() == entries@[i as int]@);
        let e = &entries[i];
        if e.available && e.recommended_for_coding == rec {
            let tag = match e.source {
                ModelSource::Api => " (api)",
                _ => "",
            };
            let a = concat3(prefix, e.id.as_str(), " [");
            let b = concat3(a.as_str(), e.provider.as_str(), "]");
            let c = concat3(b.as_str(), tag, "\n");
            proof {
                if e.source == ModelSource::Api {
                    assert(tag@ == " (api)"@);
                } else {
                    assert(tag@ == Seq::<char>::empty()) by {
                        reveal_strlit("");
                    }
                }
            }
            out = concat2(out.as_str(), c.as_str());
            n = n + 1;
        }
        i = i + 1;
    }
    assert(es.take(entries.len() as int) =~= es);
    (out, n)
}

/// `items` joined with `sep`.
fn join_all(items: &[String], sep: &str) -> (r: String)
    ensures
        r@ == join(string_views(items@), sep@),
{
    let ghost all = string_views(items@);
    let mut r = String::new();
    let mut i: usize = 0;
    while i < items.len()
        invariant
            0 <= i <= items.len(),
            all == string_views(items@),
            r@ == join(all.take(i as int), sep@),
        decreases items.len() - i,
    {
        assert(all.take(i + 1).drop_last() =~= all.take(i as int));
        assert(all.take(i + 1).last() == items@[i as int]@);
        if i == 0 {
            r = copy_str(items[i].as_str());
            assert(all.take(1) =~= seq![items@[0]@]);
        } else {
            r = concat3(r.as_str(), sep, items[i].as_str());
        }
        i = i + 1;
    }
    assert(all.take(items.len() as int) =~= all);
    r
}

/// The model list printed by `/model list` (see [`model_list_text`]).
pub fn format_model_list(entries: &[ModelCatalogEntry], sync_statuses: &[String]) -> (r: String)
    ensures
        r@ == model_list_text(entry_views(entries@), string_views(sync_statuses@)),
{
    let mut out = concat3("Models \u{2014} ", u64_to_string(entries.len() as u64).as_str(), " total\n");
    let (rec, n_rec) = lines_of_kind(entries, true, "  \u{2605}  ");
    if n_rec > 0 {
        out = concat3(out.as_str(), "\nRecommended:\n", rec.as_str());
    }
    let (other, n_other) = lines_of_kind(entries, false, "     ");
    if n_other > 0 {
        out = concat3(out.as_str(), "\nOther:\n", other.as_str());
    }
    if sync_statuses.len() > 0 {
        let joined = join_all(sync_statuses, "; ");
        out = concat3(out.as_str(), "\nSync: ", joined.as_str());
    }
    proof {
        reveal_strlit("");
        let es = entry_views(entries@);
        assert(es.len() == entries@.len());
    }
    out
}

// ─── Providers whose catalogs are loaded ────────────────────────────────────

/// A credential resolved from the configuration.
#[derive(Debug, Clone, PartialEq, Eq)]
pub struct ResolvedCredential {
    pub base_url: Option<String>,
    pub api_key: String,
}

/// What the configuration says of the providers: for each known provider,
/// in order, its resolved credential if it has one; and the provider in
/// use, with its key and base URL.
#[derive(Debug, Clone, PartialEq, Eq)]
pub struct ProviderSettings {
    pub presets: Vec<(String, Option<ResolvedCredential>)>,
    pub active: String,
    pub active_api_key: String,
    pub active_base_url: Option<String>,
}

/// `(provider, base URL, API key)` of the known providers that have a
/// credential, in order.
pub open spec fn resolved_triples(presets: Seq<(String, Option<ResolvedCredential>)>) -> Seq<
    (Seq<char>, Option<Seq<char>>, Seq<char>),
>
    decreases presets.len(),
{
    if presets.len() == 0 {
        Seq::empty()
    } else {
        let rest = resolved_triples(presets.drop_last());
        match presets.last().1 {
            Some(c) => rest.push((presets.last().0@, opt_view(c.base_url), c.api_key@)),
            None => rest,
        }
    }
}

/// The providers whose catalogs are loaded: those with a credential, and
/// the provider in use when it is not among them and has a non-empty key.
pub open spec fn authenticated_providers(s: ProviderSettings) -> Seq<
    (Seq<char>, Option<Seq<char>>, Seq<char>),
> {
    let t = resolved_triples(s.presets@);
    if !(exists|i: int| 0 <= i < t.len() && #[trigger] t[i].0 == s.active@) && s.active_api_key@.len()
        > 0 {
        t.push((s.active@, opt_view(s.active_base_url), s.active_api_key@))
    } else {
        t
    }
}

/// The texts of a list of `(provider, base URL, API key)` triples.
pub open spec fn triple_views(v: Seq<(String, Option<String>, String)>) -> Seq<
    (Seq<char>, Option<Seq<char>>, Seq<char>),
> {
    Seq::new(v.len(), |i: int| (v[i].0@, opt_view(v[i].1), v[i].2@))
}

/// `(provider, base URL, API key)` of every provider whose catalog is
/// loaded (see [`authenticated_providers`]).
pub fn collect_authenticated_providers(config: &ProviderSettings) -> (r: Vec<
    (String, Option<String>, String),
>)
    ensures
        triple_views(r@) == authenticated_providers(*config),
{
    let ghost all = config.presets@;
    let mut out: Vec<(String, Option<String>, String)> = Vec::new();
    let mut i: usize = 0;
    assert(all.take(0) =~= Seq::<(String, Option<ResolvedCredential>)>::empty());
    while i < config.presets.len()
        invariant
            0 <= i <= config.presets.len(),
            all == config.presets@,
            triple_views(out@) == resolved_triples(all.take(i as int)),
        decreases config.presets.len() - i,
    {
        assert(all.take(i + 1).drop_last() =~= all.take(i as int));
        assert(all.take(i + 1).last() == all[i as int]);
        match &config.presets[i].1 {
            Some(c) => {
                let ghost before = triple_views(out@);
                out.push(
                    (
                        copy_str(config.presets[i].0.as_str()),
                        crate::providers::copy_opt(&c.base_url),
                        copy_str(c.api_key.as_str()),
                    ),
                );
                assert(triple_views(out@) =~= before.push(
                    (all[i as int].0@, opt_view(c.base_url), c.api_key@),
                ));
            },
            None => {},
        }
        i = i + 1;
    }
    assert(all.take(i as int) =~= all);
    let ghost t = triple_views(out@);
    let mut present = false;
    let mut j: usize = 0;
    while j < out.len()
        invariant
            0 <= j <= out.len(),
            t == triple_views(out@),
            present == (exists|k: int| 0 <= k < j && #[trigger] t[k].0 == config.active@),
        decreases out.len() - j,
    {
        assert(t[j as int].0 == out@[j as int].0@);
        if str_eq(out[j].0.as_str(), config.active.as_str()) {
            present = true;
        }
        j = j + 1;
    }
    if !present && !config.active_api_key.as_str().is_empty() {
        out.push(
            (
                copy_str(config.active.as_str()),
                crate::providers::copy_opt(&config.active_base_url),
                copy_str(config.active_api_key.as_str()),
            ),
        );
        assert(triple_views(out@) =~= t.push(
            (config.active@, opt_view(config.active_base_url), config.active_api_key@),
        ));
    }
    out
}

// ─── What a login stores ────────────────────────────────────────────────────

/// The ids of the known providers, comma-separated.
pub open spec fn registry_names() -> Seq<char> {
    join(Seq::new(registry().len(), |i: int| registry()[i].name), ", "@)
}

/// What a login does once its provider and credential kind are chosen.
#[derive(Debug, Clone, PartialEq, Eq)]
pub enum CredentialPlan {
    /// Store `credential` for `provider`; `message` reports it.
    Store { provider: String, credential: ProviderCredential, message: String },
    /// Log in to `provider` in the browser (OAuth); `supports_runtime` tells
    /// whether the agent runtime can use the provider yet.
    BrowserLogin { provider: String, supports_runtime: bool },
}

/// The mathematical content of a [`CredentialPlan`].
pub enum PlanView {
    Store { provider: Seq<char>, credential: CredentialView, message: Seq<char> },
    BrowserLogin { provider: Seq<char>, supports_runtime: bool },
}

impl View for CredentialPlan {
    type V = PlanView;

    open spec fn view(&self) -> PlanView {
        match self {
            CredentialPlan::Store { provider, credential, message } => PlanView::Store {
                provider: provider@,
                credential: credential@,
                message: message@,
            },
            CredentialPlan::BrowserLogin { provider, supports_runtime } => PlanView::BrowserLogin {
                provider: provider@,
                supports_runtime: *supports_runtime,
            },
        }
    }
}

/// `message` with a note added when the runtime cannot use the provider yet.
pub open spec fn with_runtime_note(supports_runtime: bool, message: Seq<char>) -> Seq<char> {
    if supports_runtime {
        message
    } else {
        message + " Credential stored; runtime execution not yet wired."@
    }
}

/// The trimmed endpoint of an intent, if it is not blank.
pub open spec fn given_endpoint(i: IntentView) -> Option<Seq<char>> {
    match i.endpoint {
        Some(e) => if trim(e).len() > 0 {
            Some(trim(e))
        } else {
            None
        },
        None => None,
    }
}

/// What the login `i` does: the credential stored for a key (checked with
/// [`api_key_check`]) or an endpoint and a key, or a browser login; errors
/// for an unknown provider, a provider without login, or a missing key or
/// endpoint.
pub open spec fn plan_for(i: IntentView) -> Result<PlanView, Seq<char>> {
    let name = ascii_lower_seq(i.provider);
    match find_provider(registry(), name) {
        None => Err("Unknown provider '"@ + name + "'. Available providers: "@ + registry_names()),
        Some(e) => if e.auth_mode == LoginAuthMode::NoAuth {
            Err("Provider '"@ + e.name + "' does not require authentication"@)
        } else if e.auth_mode == LoginAuthMode::OAuth && i.auth_method == AuthMethodChoice::OAuth {
            Ok(PlanView::BrowserLogin { provider: e.name, supports_runtime: e.supports_runtime })
        } else {
            match i.api_key {
                None => Err("API key input is required"@),
                Some(raw) => match api_key_check(raw) {
                    Err(x) => Err(x),
                    Ok(k) => if e.auth_mode == LoginAuthMode::EndpointAndKey {
                        match given_endpoint(i) {
                            None => Err("Endpoint is required for this provider"@),
                            Some(ep) => Ok(
                                PlanView::Store {
                                    provider: e.name,
                                    credential: CredentialView {
                                        access_token: k,
                                        refresh_token: None,
                                        expires_at: None,
                                        endpoint: Some(ep),
                                    },
                                    message: with_runtime_note(
                                        e.supports_runtime,
                                        "Saved endpoint+key for '"@ + e.name
                                            + "'. Endpoint stored as "@ + match e.endpoint_env {
                                            Some(v) => v,
                                            None => "PROVIDER_ENDPOINT"@,
                                        } + "."@,
                                    ),
                                },
                            ),
                        }
                    } else {
                        Ok(
                            PlanView::Store {
                                provider: e.name,
                                credential: CredentialView {
                                    access_token: k,
                                    refresh_token: None,
                                    expires_at: None,
                                    endpoint: i.endpoint,
                                },
                                message: with_runtime_note(
                                    e.supports_runtime,
                                    "Saved API key for '"@ + e.name
                                        + "'. It will be used on the next launch (equivalent to setting "@
                                        + e.api_key_env + ")."@,
                                ),
                            },
                        )
                    },
                },
            }
        },
    }
}

/// `message` with a note added when the runtime cannot use the provider yet.
pub fn runtime_note(supports_runtime: bool, message: &str) -> (r: String)
    ensures
        r@ == with_runtime_note(supports_runtime, message@),
{
    if supports_runtime {
        copy_str(message)
    } else {
        concat2(message, " Credential stored; runtime execution not yet wired.")
    }
}

/// The ids of the known providers, comma-separated.
fn registry_names_text() -> (r: String)
    ensures
        r@ == registry_names(),
{
    let all = crate::providers::provider_registry();
    let mut names: Vec<String> = Vec::new();
    let mut i: usize = 0;
    while i < all.len()
        invariant
            0 <= i <= all.len(),
            crate::providers::provider_views(all@) == registry(),
            names@.len() == i,
            forall|k: int| 0 <= k < i ==> #[trigger] names@[k]@ == registry()[k].name,
        decreases all.len() - i,
    {
        assert(crate::providers::provider_views(all@)[i as int] == all@[i as int]@);
        names.push(copy_str(all[i].name.as_str()));
        i = i + 1;
    }
    let r = join_all(names.as_slice(), ", ");
    assert(string_views(names@) =~= Seq::new(registry().len(), |k: int| registry()[k].name));
    r
}

/// What the login `intent` does (see [`plan_for`]).
pub fn plan_credential(intent: &AuthLoginIntent) -> (r: Result<CredentialPlan, String>)
    ensures
        match r {
            Ok(p) => plan_for(intent@) == Ok::<PlanView, Seq<char>>(p@),
            Err(e) => plan_for(intent@) == Err::<PlanView, Seq<char>>(e@),
        },
{
    let name = ascii_lowercase(intent.provider.as_str());
    let e = match provider_by_name(name.as_str()) {
        Some(e) => e,
        None => {
            let names = registry_names_text();
            let head = concat3("Unknown provider '", name.as_str(), "'. Available providers: ");
            return Err(concat2(head.as_str(), names.as_str()));
        },
    };
    match e.auth_mode {
        LoginAuthMode::NoAuth => {
            return Err(
                concat3("Provider '", e.name.as_str(), "' does not require authentication"),
            );
        },
        LoginAuthMode::OAuth => {
            if intent.auth_method == AuthMethodChoice::OAuth {
                return Ok(
                    CredentialPlan::BrowserLogin {
                        provider: copy_str(e.name.as_str()),
                        supports_runtime: e.supports_runtime,
                    },
                );
            }
        },
        _ => {},
    }
    let raw = match &intent.api_key {
        Some(k) => copy_str(k.as_str()),
        None => {
            return Err(copy_str("API key input is required"));
        },
    };
    let key = match validate_api_key(raw) {
        Ok(k) => k,
        Err(x) => {
            return Err(x);
        },
    };
    match e.auth_mode {
        LoginAuthMode::EndpointAndKey => {
            let ep = match &intent.endpoint {
                Some(v) => {
                    let t = trim_str(v.as_str());
                    if t.as_str().is_empty() {
                        return Err(copy_str("Endpoint is required for this provider"));
                    }
                    t
                },
                None => {
                    return Err(copy_str("Endpoint is required for this provider"));
                },
            };
            let env = match &e.endpoint_env {
                Some(v) => copy_str(v.as_str()),
                None => copy_str("PROVIDER_ENDPOINT"),
            };
            let a = concat3("Saved endpoint+key for '", e.name.as_str(), "'. Endpoint stored as ");
            let b = concat3(a.as_str(), env.as_str(), ".");
            let message = runtime_note(e.supports_runtime, b.as_str());
            Ok(
                CredentialPlan::Store {
                    provider: copy_str(e.name.as_str()),
                    credential: ProviderCredential {
                        access_token: key,
                        refresh_token: None,
                        expires_at: None,
                        endpoint: Some(ep),
                    },
                    message,
                },
            )
        },
        _ => {
            let a = concat3(
                "Saved API key for '",
                e.name.as_str(),
                "'. It will be used on the next launch (equivalent to setting ",
            );
            let b = concat3(a.as_str(), e.api_key_env.as_str(), ").");
            let message = runtime_note(e.supports_runtime, b.as_str());
            Ok(
                CredentialPlan::Store {
                    provider: copy_str(e.name.as_str()),
                    credential: ProviderCredential {
                        access_token: key,
                        refresh_token: None,
                        expires_at: None,
                        endpoint: crate::providers::copy_opt(&intent.endpoint),
                    },
                    message,
                },
            )
        },
    }
}

} // verus!
