//! The configuration switch: which provider the sessions of the supervised
//! tool talk to.
//!
//! The effective configuration is a JSON document. Its member `env` holds,
//! among other variables, five that this module owns: the managed keys. To
//! switch is to rewrite those five and nothing else.
use crate::json::{
    lemma_lookup_none, lemma_object_view, lemma_remove_lookup, lemma_set_lookup, lookup, set_field,
    spec_lookup, spec_remove, spec_set, without_field, Fields, Json, JsonV,
};
use crate::text::{clone_opt_string, or_empty, spec_or_empty, str_eq};
use vstd::prelude::*;

verus! {

/// A provider that can be switched to.
#[derive(Debug, Clone, PartialEq, Eq)]
pub struct ProviderConfig {
    pub id: String,
    pub name: String,
    pub description: String,
    pub base_url: String,
    pub auth_token: Option<String>,
    pub api_key: Option<String>,
    pub model: Option<String>,
    pub small_fast_model: Option<String>,
}

pub struct ProviderConfigV {
    pub id: Seq<char>,
    pub name: Seq<char>,
    pub description: Seq<char>,
    pub base_url: Seq<char>,
    pub auth_token: Option<Seq<char>>,
    pub api_key: Option<Seq<char>>,
    pub model: Option<Seq<char>>,
    pub small_fast_model: Option<Seq<char>>,
}

impl DeepView for ProviderConfig {
    type V = ProviderConfigV;

    open spec fn deep_view(&self) -> ProviderConfigV {
        ProviderConfigV {
            id: self.id@,
            name: self.name@,
            description: self.description@,
            base_url: self.base_url@,
            auth_token: self.auth_token.deep_view(),
            api_key: self.api_key.deep_view(),
            model: self.model.deep_view(),
            small_fast_model: self.small_fast_model.deep_view(),
        }
    }
}

impl ProviderConfig {
    pub fn clone_config(&self) -> (r: ProviderConfig)
        ensures
            r.deep_view() == self.deep_view(),
    {
        ProviderConfig {
            id: self.id.clone(),
            name: self.name.clone(),
            description: self.description.clone(),
            base_url: self.base_url.clone(),
            auth_token: clone_opt_string(&self.auth_token),
            api_key: clone_opt_string(&self.api_key),
            model: clone_opt_string(&self.model),
            small_fast_model: clone_opt_string(&self.small_fast_model),
        }
    }
}

/// The managed keys as the effective configuration holds them.
#[derive(Debug, Clone, PartialEq, Eq)]
pub struct CurrentConfig {
    pub anthropic_base_url: Option<String>,
    pub anthropic_auth_token: Option<String>,
    pub anthropic_api_key: Option<String>,
    pub anthropic_model: Option<String>,
    pub anthropic_small_fast_model: Option<String>,
}

pub struct CurrentConfigV {
    pub anthropic_base_url: Option<Seq<char>>,
    pub anthropic_auth_token: Option<Seq<char>>,
    pub anthropic_api_key: Option<Seq<char>>,
    pub anthropic_model: Option<Seq<char>>,
    pub anthropic_small_fast_model: Option<Seq<char>>,
}

impl DeepView for CurrentConfig {
    type V = CurrentConfigV;

    open spec fn deep_view(&self) -> CurrentConfigV {
        CurrentConfigV {
            anthropic_base_url: self.anthropic_base_url.deep_view(),
            anthropic_auth_token: self.anthropic_auth_token.deep_view(),
            anthropic_api_key: self.anthropic_api_key.deep_view(),
            anthropic_model: self.anthropic_model.deep_view(),
            anthropic_small_fast_model: self.anthropic_small_fast_model.deep_view(),
        }
    }
}

// ---------------------------------------------------------------------------
// The managed keys
// ---------------------------------------------------------------------------

pub open spec fn spec_key_base_url() -> Seq<char> {
    "ANTHROPIC_BASE_URL"@
}

pub open spec fn spec_key_auth_token() -> Seq<char> {
    "ANTHROPIC_AUTH_TOKEN"@
}

pub open spec fn spec_key_api_key() -> Seq<char> {
    "ANTHROPIC_API_KEY"@
}

pub open spec fn spec_key_model() -> Seq<char> {
    "ANTHROPIC_MODEL"@
}

pub open spec fn spec_key_small_fast_model() -> Seq<char> {
    "ANTHROPIC_SMALL_FAST_MODEL"@
}

/// Whether a key is one of the five that the switch owns.
pub open spec fn spec_is_managed(key: Seq<char>) -> bool {
    key == spec_key_base_url() || key == spec_key_auth_token() || key == spec_key_api_key() || key
        == spec_key_model() || key == spec_key_small_fast_model()
}

/// The five managed keys are five different keys.
pub proof fn lemma_managed_keys_differ()
    ensures
        spec_key_base_url() != spec_key_auth_token(),
        spec_key_base_url() != spec_key_api_key(),
        spec_key_base_url() != spec_key_model(),
        spec_key_base_url() != spec_key_small_fast_model(),
        spec_key_auth_token() != spec_key_api_key(),
        spec_key_auth_token() != spec_key_model(),
        spec_key_auth_token() != spec_key_small_fast_model(),
        spec_key_api_key() != spec_key_model(),
        spec_key_api_key() != spec_key_small_fast_model(),
        spec_key_model() != spec_key_small_fast_model(),
{
    reveal_strlit("ANTHROPIC_BASE_URL");
    reveal_strlit("ANTHROPIC_AUTH_TOKEN");
    reveal_strlit("ANTHROPIC_API_KEY");
    reveal_strlit("ANTHROPIC_MODEL");
    reveal_strlit("ANTHROPIC_SMALL_FAST_MODEL");
    assert("ANTHROPIC_AUTH_TOKEN"@.len() == 20);
    assert("ANTHROPIC_API_KEY"@.len() == 17);
    assert("ANTHROPIC_MODEL"@.len() == 15);
    assert("ANTHROPIC_SMALL_FAST_MODEL"@.len() == 26);
}

/// An environment without the managed keys.
pub open spec fn spec_without_managed(env: Fields) -> Fields {
    spec_remove(
        spec_remove(
            spec_remove(
                spec_remove(spec_remove(env, spec_key_base_url()), spec_key_auth_token()),
                spec_key_api_key(),
            ),
            spec_key_model(),
        ),
        spec_key_small_fast_model(),
    )
}

/// Without the managed keys, no managed key is left and every other key
/// holds what it held.
pub proof fn lemma_without_managed(env: Fields, key: Seq<char>)
    ensures
        spec_is_managed(key) ==> spec_lookup(spec_without_managed(env), key).is_none(),
        !spec_is_managed(key) ==> spec_lookup(spec_without_managed(env), key) == spec_lookup(env, key),
{
    let e1 = spec_remove(env, spec_key_base_url());
    let e2 = spec_remove(e1, spec_key_auth_token());
    let e3 = spec_remove(e2, spec_key_api_key());
    let e4 = spec_remove(e3, spec_key_model());
    lemma_remove_lookup(env, spec_key_base_url(), key);
    lemma_remove_lookup(e1, spec_key_auth_token(), key);
    lemma_remove_lookup(e2, spec_key_api_key(), key);
    lemma_remove_lookup(e3, spec_key_model(), key);
    lemma_remove_lookup(e4, spec_key_small_fast_model(), key);
}

pub fn without_managed(env: &Vec<(String, Json)>) -> (r: Vec<(String, Json)>)
    ensures
        r.deep_view() == spec_without_managed(env.deep_view()),
{
    let e1 = without_field(env, "ANTHROPIC_BASE_URL");
    let e2 = without_field(&e1, "ANTHROPIC_AUTH_TOKEN");
    let e3 = without_field(&e2, "ANTHROPIC_API_KEY");
    let e4 = without_field(&e3, "ANTHROPIC_MODEL");
    without_field(&e4, "ANTHROPIC_SMALL_FAST_MODEL")
}

/// A value that is there: a text that is not empty.
pub open spec fn spec_present(v: Option<Seq<char>>) -> Option<Seq<char>> {
    match v {
        Some(s) => if s.len() == 0 {
            None
        } else {
            Some(s)
        },
        None => None,
    }
}

pub fn present(v: &Option<String>) -> (r: Option<&str>)
    ensures
        r.deep_view() == spec_present(v.deep_view()),
{
    match v {
        Some(s) => if s.as_str().is_empty() {
            None
        } else {
            Some(s.as_str())
        },
        None => None,
    }
}

/// The field `key` with the text `value`, or nothing where there is none.
pub open spec fn spec_text_field(key: Seq<char>, value: Option<Seq<char>>) -> Fields {
    match value {
        Some(s) => seq![(key, JsonV::Str(s))],
        None => Seq::empty(),
    }
}

/// The credential that a provider is reached with: its API key where it has
/// one, else its bearer token.
pub open spec fn spec_credential(config: ProviderConfigV) -> Fields {
    match spec_present(config.api_key) {
        Some(key) => seq![(spec_key_api_key(), JsonV::Str(key))],
        None => spec_text_field(spec_key_auth_token(), spec_present(config.auth_token)),
    }
}

/// The managed keys that a provider sets. A value that the provider does not
/// have, or has as the empty text, sets no key.
pub open spec fn spec_managed_of(config: ProviderConfigV) -> Fields {
    spec_text_field(spec_key_base_url(), spec_present(Some(config.base_url))) + spec_credential(config)
        + spec_text_field(spec_key_model(), spec_present(config.model)) + spec_text_field(
        spec_key_small_fast_model(),
        spec_present(config.small_fast_model),
    )
}

fn push_text(fields: &mut Vec<(String, Json)>, key: &str, value: Option<&str>)
    ensures
        final(fields).deep_view() == old(fields).deep_view() + spec_text_field(key@, value.deep_view()),
{
    match value {
        Some(s) => {
            fields.push((String::from_str(key), Json::string(s)));
        },
        None => {
        },
    }
}

/// The environment of a document: the fields of its member `env`, none
/// where it has no such object.
pub open spec fn spec_env_of(doc: JsonV) -> Fields {
    match doc.get("env"@) {
        Some(JsonV::Object(env)) => env,
        _ => Seq::empty(),
    }
}

/// A document with `env` as its environment. A document that is no object
/// is left as it is.
pub open spec fn spec_with_env(doc: JsonV, env: Fields) -> JsonV {
    match doc {
        JsonV::Object(fields) => JsonV::Object(spec_set(fields, "env"@, JsonV::Object(env))),
        _ => doc,
    }
}

/// The environment after a switch to `config`: the managed keys are gone,
/// then those of `config` are added.
pub open spec fn spec_switched_env(env: Fields, config: ProviderConfigV) -> Fields {
    spec_without_managed(env) + spec_managed_of(config)
}

/// The document after a switch to `config`.
pub open spec fn spec_switched(doc: JsonV, config: ProviderConfigV) -> JsonV {
    spec_with_env(doc, spec_switched_env(spec_env_of(doc), config))
}

/// The document after the managed keys are cleared.
pub open spec fn spec_cleared(doc: JsonV) -> JsonV {
    spec_with_env(doc, spec_without_managed(spec_env_of(doc)))
}

/// The document that a missing or blank file stands for: an object without
/// members.
pub fn empty_document() -> (r: Json)
    ensures
        r@ == JsonV::Object(Seq::empty()),
{
    let fields: Vec<(String, Json)> = Vec::new();
    proof {
        lemma_object_view(fields);
    }
    Json::Object(fields)
}

fn env_without_managed(doc: &Json) -> (r: Vec<(String, Json)>)
    ensures
        r.deep_view() == spec_without_managed(spec_env_of(doc@)),
{
    let empty: Vec<(String, Json)> = Vec::new();
    let env: &Vec<(String, Json)> = match doc.get("env") {
        Some(Json::Object(fields)) => {
            proof {
                lemma_object_view(*fields);
            }
            fields
        },
        _ => &empty,
    };
    without_managed(env)
}

fn with_env(doc: &Json, env: Vec<(String, Json)>) -> (r: Json)
    ensures
        r@ == spec_with_env(doc@, env.deep_view()),
{
    match doc {
        Json::Object(fields) => {
            let mut out = crate::json::clone_fields(fields);
            proof {
                lemma_object_view(*fields);
                lemma_object_view(env);
            }
            set_field(&mut out, "env", Json::Object(env));
            proof {
                lemma_object_view(out);
            }
            Json::Object(out)
        },
        _ => doc.clone_json(),
    }
}

/// The effective configuration after a switch to `config`.
pub fn switch_document(doc: &Json, config: &ProviderConfig) -> (r: Json)
    ensures
        r@ == spec_switched(doc@, config.deep_view()),
{
    let mut env = env_without_managed(doc);
    let base_url = if config.base_url.as_str().is_empty() {
        None
    } else {
        Some(config.base_url.as_str())
    };
    push_text(&mut env, "ANTHROPIC_BASE_URL", base_url);
    match present(&config.api_key) {
        Some(key) => {
            push_text(&mut env, "ANTHROPIC_API_KEY", Some(key));
        },
        None => {
            push_text(&mut env, "ANTHROPIC_AUTH_TOKEN", present(&config.auth_token));
        },
    }
    push_text(&mut env, "ANTHROPIC_MODEL", present(&config.model));
    push_text(&mut env, "ANTHROPIC_SMALL_FAST_MODEL", present(&config.small_fast_model));
    assert(env.deep_view() =~= spec_switched_env(spec_env_of(doc@), config.deep_view()));
    with_env(doc, env)
}

/// The effective configuration without the managed keys.
pub fn clear_document(doc: &Json) -> (r: Json)
    ensures
        r@ == spec_cleared(doc@),
{
    let env = env_without_managed(doc);
    with_env(doc, env)
}


// ---------------------------------------------------------------------------
// Laws of the switch
// ---------------------------------------------------------------------------

/// A key is looked up in two field lists in a row as in the first, and in
/// the second where the first does not have it.
pub proof fn lemma_lookup_concat(a: Fields, b: Fields, key: Seq<char>)
    ensures
        spec_lookup(a + b, key) == (match spec_lookup(a, key) {
            Some(v) => Some(v),
            None => spec_lookup(b, key),
        }),
    decreases a.len(),
{
    if a.len() > 0 {
        assert((a + b).drop_first() =~= a.drop_first() + b);
        lemma_lookup_concat(a.drop_first(), b, key);
    }
}

/// What a field that may be missing holds.
pub proof fn lemma_text_field(key: Seq<char>, value: Option<Seq<char>>, other: Seq<char>)
    ensures
        spec_lookup(spec_text_field(key, value), key) == (match value {
            Some(s) => Some(JsonV::Str(s)),
            None => None,
        }),
        other != key ==> spec_lookup(spec_text_field(key, value), other).is_none(),
{
    let f = spec_text_field(key, value);
    if other != key {
        lemma_lookup_none(f, other);
    }
}

pub open spec fn spec_text_json(v: Option<Seq<char>>) -> Option<JsonV> {
    match v {
        Some(s) => Some(JsonV::Str(s)),
        None => None,
    }
}

/// What the managed keys hold after a switch: the provider's values, a key
/// being absent where the provider has no value for it. Where the provider
/// has both an API key and a bearer token, the API key is set and the
/// bearer token is absent.
pub proof fn law_switch_sets_managed(env: Fields, config: ProviderConfigV)
    ensures
        ({
            let after = spec_switched_env(env, config);
            &&& spec_lookup(after, spec_key_base_url()) == spec_text_json(
                spec_present(Some(config.base_url)),
            )
            &&& spec_lookup(after, spec_key_api_key()) == spec_text_json(spec_present(config.api_key))
            &&& spec_lookup(after, spec_key_auth_token()) == (if spec_present(config.api_key).is_some() {
                None
            } else {
                spec_text_json(spec_present(config.auth_token))
            })
            &&& spec_lookup(after, spec_key_model()) == spec_text_json(spec_present(config.model))
            &&& spec_lookup(after, spec_key_small_fast_model()) == spec_text_json(
                spec_present(config.small_fast_model),
            )
        }),
{
    lemma_managed_keys_differ();
    let cleared = spec_without_managed(env);
    assert forall|key: Seq<char>| spec_is_managed(key) implies #[trigger] spec_lookup(
        spec_switched_env(env, config),
        key,
    ) == spec_lookup(spec_managed_of(config), key) by {
        lemma_without_managed(env, key);
        lemma_lookup_concat(cleared, spec_managed_of(config), key);
    }
    lemma_managed_lookup(config, spec_key_base_url());
    lemma_managed_lookup(config, spec_key_api_key());
    lemma_managed_lookup(config, spec_key_auth_token());
    lemma_managed_lookup(config, spec_key_model());
    lemma_managed_lookup(config, spec_key_small_fast_model());
}

/// What a key holds among the managed keys that a provider sets.
proof fn lemma_managed_lookup(config: ProviderConfigV, key: Seq<char>)
    ensures
        spec_lookup(spec_managed_of(config), key) == (if key == spec_key_base_url() {
            spec_text_json(spec_present(Some(config.base_url)))
        } else if key == spec_key_api_key() {
            spec_text_json(spec_present(config.api_key))
        } else if key == spec_key_auth_token() {
            if spec_present(config.api_key).is_some() {
                None
            } else {
                spec_text_json(spec_present(config.auth_token))
            }
        } else if key == spec_key_model() {
            spec_text_json(spec_present(config.model))
        } else if key == spec_key_small_fast_model() {
            spec_text_json(spec_present(config.small_fast_model))
        } else {
            None
        }),
{
    lemma_managed_keys_differ();
    let a = spec_text_field(spec_key_base_url(), spec_present(Some(config.base_url)));
    let b = spec_credential(config);
    let c = spec_text_field(spec_key_model(), spec_present(config.model));
    let d = spec_text_field(spec_key_small_fast_model(), spec_present(config.small_fast_model));
    lemma_text_field(spec_key_base_url(), spec_present(Some(config.base_url)), key);
    lemma_text_field(spec_key_api_key(), spec_present(config.api_key), key);
    lemma_text_field(spec_key_auth_token(), spec_present(config.auth_token), key);
    lemma_text_field(spec_key_model(), spec_present(config.model), key);
    lemma_text_field(spec_key_small_fast_model(), spec_present(config.small_fast_model), key);
    lemma_lookup_concat(a, b, key);
    lemma_lookup_concat(a + b, c, key);
    lemma_lookup_concat(a + b + c, d, key);
}

/// A switch leaves every variable that is not a managed key as it is.
pub proof fn law_switch_keeps_unmanaged(env: Fields, config: ProviderConfigV, key: Seq<char>)
    requires
        !spec_is_managed(key),
    ensures
        spec_lookup(spec_switched_env(env, config), key) == spec_lookup(env, key),
{
    lemma_without_managed(env, key);
    lemma_managed_lookup(config, key);
    lemma_lookup_concat(spec_without_managed(env), spec_managed_of(config), key);
}

/// A switch leaves every member of the document but `env` as it is, and the
/// environment of the new document is the switched environment of the old.
pub proof fn law_switch_keeps_members(doc: JsonV, config: ProviderConfigV, key: Seq<char>)
    ensures
        key != "env"@ ==> spec_switched(doc, config).get(key) == doc.get(key),
        doc is Object ==> spec_env_of(spec_switched(doc, config)) == spec_switched_env(
            spec_env_of(doc),
            config,
        ),
{
    match doc {
        JsonV::Object(fields) => {
            lemma_set_lookup(
                fields,
                "env"@,
                JsonV::Object(spec_switched_env(spec_env_of(doc), config)),
                key,
            );
        },
        _ => {},
    }
}

/// Two switches in a row leave every member of the document but `env`, and
/// every variable that is not a managed key, as they were before the first.
pub proof fn law_switch_twice(
    doc: JsonV,
    first: ProviderConfigV,
    second: ProviderConfigV,
    member: Seq<char>,
    variable: Seq<char>,
)
    requires
        doc is Object,
        member != "env"@,
        !spec_is_managed(variable),
    ensures
        spec_switched(spec_switched(doc, first), second).get(member) == doc.get(member),
        spec_lookup(spec_env_of(spec_switched(spec_switched(doc, first), second)), variable)
            == spec_lookup(spec_env_of(doc), variable),
{
    let once = spec_switched(doc, first);
    law_switch_keeps_members(doc, first, member);
    law_switch_keeps_members(once, second, member);
    law_switch_keeps_unmanaged(spec_env_of(doc), first, variable);
    law_switch_keeps_unmanaged(spec_env_of(once), second, variable);
}

/// Clearing removes every managed key and leaves every other variable, and
/// every member of the document but `env`, as it is.
pub proof fn law_clear(doc: JsonV, member: Seq<char>, variable: Seq<char>)
    ensures
        member != "env"@ ==> spec_cleared(doc).get(member) == doc.get(member),
        doc is Object && spec_is_managed(variable) ==> spec_lookup(
            spec_env_of(spec_cleared(doc)),
            variable,
        ).is_none(),
        doc is Object && !spec_is_managed(variable) ==> spec_lookup(
            spec_env_of(spec_cleared(doc)),
            variable,
        ) == spec_lookup(spec_env_of(doc), variable),
{
    lemma_without_managed(spec_env_of(doc), variable);
    match doc {
        JsonV::Object(fields) => {
            lemma_set_lookup(
                fields,
                "env"@,
                JsonV::Object(spec_without_managed(spec_env_of(doc))),
                member,
            );
        },
        _ => {},
    }
}


// ---------------------------------------------------------------------------
// Reading the effective configuration
// ---------------------------------------------------------------------------

/// The text of the variable `key`, where it holds a text.
pub open spec fn spec_variable(env: Fields, key: Seq<char>) -> Option<Seq<char>> {
    match spec_lookup(env, key) {
        Some(v) => v.as_str(),
        None => None,
    }
}

/// The managed keys as a document holds them.
pub open spec fn spec_current_config(doc: JsonV) -> CurrentConfigV {
    let env = spec_env_of(doc);
    CurrentConfigV {
        anthropic_base_url: spec_variable(env, spec_key_base_url()),
        anthropic_auth_token: spec_variable(env, spec_key_auth_token()),
        anthropic_api_key: spec_variable(env, spec_key_api_key()),
        anthropic_model: spec_variable(env, spec_key_model()),
        anthropic_small_fast_model: spec_variable(env, spec_key_small_fast_model()),
    }
}

fn variable(env: &Vec<(String, Json)>, key: &str) -> (r: Option<String>)
    ensures
        r.deep_view() == spec_variable(env.deep_view(), key@),
{
    match lookup(env, key) {
        Some(v) => match v.as_str() {
            Some(s) => Some(String::from_str(s)),
            None => None,
        },
        None => None,
    }
}

/// The managed keys of the effective configuration.
pub fn get_current_provider_config(doc: &Json) -> (r: CurrentConfig)
    ensures
        r.deep_view() == spec_current_config(doc@),
{
    let empty: Vec<(String, Json)> = Vec::new();
    let env: &Vec<(String, Json)> = match doc.get("env") {
        Some(Json::Object(fields)) => {
            proof {
                lemma_object_view(*fields);
            }
            fields
        },
        _ => &empty,
    };
    CurrentConfig {
        anthropic_base_url: variable(env, "ANTHROPIC_BASE_URL"),
        anthropic_auth_token: variable(env, "ANTHROPIC_AUTH_TOKEN"),
        anthropic_api_key: variable(env, "ANTHROPIC_API_KEY"),
        anthropic_model: variable(env, "ANTHROPIC_MODEL"),
        anthropic_small_fast_model: variable(env, "ANTHROPIC_SMALL_FAST_MODEL"),
    }
}

// ---------------------------------------------------------------------------
// Which provider is active
// ---------------------------------------------------------------------------

/// Whether the effective configuration is that of a provider: the base URL
/// is the provider's; the API key or the bearer token is set and is the
/// provider's; and the two models are the provider's, a missing one
/// counting as empty.
pub open spec fn spec_matches(current: CurrentConfigV, config: ProviderConfigV) -> bool {
    let api_key = spec_or_empty(current.anthropic_api_key);
    let auth_token = spec_or_empty(current.anthropic_auth_token);
    &&& current.anthropic_base_url == Some(config.base_url)
    &&& ((api_key == spec_or_empty(config.api_key) && api_key.len() > 0) || (auth_token
        == spec_or_empty(config.auth_token) && auth_token.len() > 0))
    &&& spec_or_empty(current.anthropic_model) == spec_or_empty(config.model)
    &&& spec_or_empty(current.anthropic_small_fast_model) == spec_or_empty(config.small_fast_model)
}

/// Whether the effective configuration holds a managed key at all.
pub open spec fn spec_any_managed(current: CurrentConfigV) -> bool {
    current.anthropic_base_url.is_some() || current.anthropic_auth_token.is_some()
        || current.anthropic_api_key.is_some() || current.anthropic_model.is_some()
        || current.anthropic_small_fast_model.is_some()
}

pub open spec fn config_matches(current: CurrentConfigV) -> spec_fn(ProviderConfigV) -> bool {
    |config: ProviderConfigV| spec_matches(current, config)
}

/// The provider that is active: the first that the effective configuration
/// matches; `custom` where it matches none but holds a managed key; none
/// where it holds no managed key.
pub open spec fn spec_detect(current: CurrentConfigV, configs: Seq<ProviderConfigV>) -> Option<Seq<char>> {
    match crate::seqs::spec_first(configs, config_matches(current)) {
        Some(config) => Some(config.id),
        None => if spec_any_managed(current) {
            Some("custom"@)
        } else {
            None
        },
    }
}

pub fn matches_provider(current: &CurrentConfig, config: &ProviderConfig) -> (r: bool)
    ensures
        r == spec_matches(current.deep_view(), config.deep_view()),
{
    let base_url_matches = match &current.anthropic_base_url {
        Some(url) => str_eq(url.as_str(), config.base_url.as_str()),
        None => false,
    };
    let api_key = or_empty(&current.anthropic_api_key);
    let auth_token = or_empty(&current.anthropic_auth_token);
    let credential_matches = (str_eq(api_key, or_empty(&config.api_key)) && !api_key.is_empty()) || (
    str_eq(auth_token, or_empty(&config.auth_token)) && !auth_token.is_empty());
    base_url_matches && credential_matches && str_eq(
        or_empty(&current.anthropic_model),
        or_empty(&config.model),
    ) && str_eq(or_empty(&current.anthropic_small_fast_model), or_empty(&config.small_fast_model))
}

/// The id of the provider that is active.
pub fn detect_current_provider(current: &CurrentConfig, configs: &Vec<ProviderConfig>) -> (r: Option<
    String,
>)
    ensures
        r.deep_view() == spec_detect(current.deep_view(), configs.deep_view()),
{
    let ghost cv = configs.deep_view();
    let ghost p = config_matches(current.deep_view());
    let mut i: usize = 0;
    while i < configs.len()
        invariant
            i <= configs@.len(),
            cv == configs.deep_view(),
            p == config_matches(current.deep_view()),
            forall|j: int| 0 <= j < i ==> !p(#[trigger] cv[j]),
        decreases configs.len() - i,
    {
        if matches_provider(current, &configs[i]) {
            proof {
                crate::seqs::lemma_first_index_is(cv, p, i as int);
            }
            return Some(configs[i].id.clone());
        }
        i = i + 1;
    }
    proof {
        crate::seqs::lemma_first_index_none(cv, p);
    }
    if current.anthropic_base_url.is_some() || current.anthropic_auth_token.is_some()
        || current.anthropic_api_key.is_some() || current.anthropic_model.is_some()
        || current.anthropic_small_fast_model.is_some() {
        Some(String::from_str("custom"))
    } else {
        None
    }
}

/// The id of the provider that is active, given the effective configuration
/// and the known providers.
pub fn get_current_provider_id(doc: &Json, configs: &Vec<ProviderConfig>) -> (r: Option<String>)
    ensures
        r.deep_view() == spec_detect(spec_current_config(doc@), configs.deep_view()),
{
    let current = get_current_provider_config(doc);
    detect_current_provider(&current, configs)
}

// ---------------------------------------------------------------------------
// The known providers
// ---------------------------------------------------------------------------

pub open spec fn provider_has_id(id: Seq<char>) -> spec_fn(ProviderConfigV) -> bool {
    |config: ProviderConfigV| config.id == id
}

fn provider_index(providers: &Vec<ProviderConfig>, id: &str) -> (r: Option<usize>)
    ensures
        match r {
            Some(i) => crate::seqs::spec_first_index(providers.deep_view(), provider_has_id(id@))
                == Some(i as int) && i < providers@.len(),
            None => crate::seqs::spec_first_index(providers.deep_view(), provider_has_id(id@)).is_none(),
        },
{
    let ghost pv = providers.deep_view();
    let mut i: usize = 0;
    while i < providers.len()
        invariant
            i <= providers@.len(),
            pv == providers.deep_view(),
            forall|j: int| 0 <= j < i ==> !provider_has_id(id@)(#[trigger] pv[j]),
        decreases providers.len() - i,
    {
        if str_eq(providers[i].id.as_str(), id) {
            proof {
                crate::seqs::lemma_first_index_is(pv, provider_has_id(id@), i as int);
            }
            return Some(i);
        }
        i = i + 1;
    }
    proof {
        crate::seqs::lemma_first_index_none(pv, provider_has_id(id@));
    }
    None
}

/// The text of the failure to find a provider.
pub open spec fn spec_no_such_provider(id: Seq<char>) -> Seq<char> {
    "未找到ID为 '"@ + id + "' 的配置"@
}

fn no_such_provider(id: &str) -> (r: String)
    ensures
        r@ == spec_no_such_provider(id@),
{
    let mut m = String::from_str("未找到ID为 '");
    m.append(id);
    m.append("' 的配置");
    m
}

/// Adds a provider. An id that is taken is refused, and nothing changes.
pub fn add_provider_config(providers: &mut Vec<ProviderConfig>, config: ProviderConfig) -> (r: Result<
    String,
    String,
>)
    ensures
        match crate::seqs::spec_first_index(old(providers).deep_view(), provider_has_id(config.id@)) {
            Some(i) => final(providers).deep_view() == old(providers).deep_view() && (r matches Err(m)
                && m@ == "ID '"@ + config.id@ + "' 已存在，请使用不同的ID"@),
            None => final(providers).deep_view() == old(providers).deep_view().push(config.deep_view())
                && (r matches Ok(m) && m@ == "成功添加代理商配置: "@ + config.name@),
        },
{
    match provider_index(providers, config.id.as_str()) {
        Some(i) => {
            let mut m = String::from_str("ID '");
            m.append(config.id.as_str());
            m.append("' 已存在，请使用不同的ID");
            Err(m)
        },
        None => {
            let m = crate::http::concat("成功添加代理商配置: ", config.name.as_str());
            providers.push(config);
            Ok(m)
        },
    }
}

/// Puts a provider in the place of the one with its id.
pub fn update_provider_config(providers: &mut Vec<ProviderConfig>, config: ProviderConfig) -> (r: Result<
    String,
    String,
>)
    ensures
        match crate::seqs::spec_first_index(old(providers).deep_view(), provider_has_id(config.id@)) {
            Some(i) => final(providers).deep_view() == old(providers).deep_view().update(
                i,
                config.deep_view(),
            ) && (r matches Ok(m) && m@ == "成功更新代理商配置: "@ + config.name@),
            None => final(providers).deep_view() == old(providers).deep_view() && (r matches Err(m)
                && m@ == spec_no_such_provider(config.id@)),
        },
{
    match provider_index(providers, config.id.as_str()) {
        Some(i) => {
            let m = crate::http::concat("成功更新代理商配置: ", config.name.as_str());
            providers.set(i, config);
            Ok(m)
        },
        None => Err(no_such_provider(config.id.as_str())),
    }
}

/// Removes the provider with the id `id`.
pub fn delete_provider_config(providers: &mut Vec<ProviderConfig>, id: &str) -> (r: Result<String, String>)
    ensures
        match crate::seqs::spec_first_index(old(providers).deep_view(), provider_has_id(id@)) {
            Some(i) => final(providers).deep_view() == old(providers).deep_view().remove(i) && (
            r matches Ok(m) && m@ == "成功删除代理商配置: "@ + old(providers).deep_view()[i].name),
            None => final(providers).deep_view() == old(providers).deep_view() && (r matches Err(m)
                && m@ == spec_no_such_provider(id@)),
        },
{
    match provider_index(providers, id) {
        Some(i) => {
            let gone = providers.remove(i);
            Ok(crate::http::concat("成功删除代理商配置: ", gone.name.as_str()))
        },
        None => Err(no_such_provider(id)),
    }
}

/// The provider with the id `id`.
pub fn get_provider_config(providers: &Vec<ProviderConfig>, id: &str) -> (r: Result<
    ProviderConfig,
    String,
>)
    ensures
        match crate::seqs::spec_first(providers.deep_view(), provider_has_id(id@)) {
            Some(config) => r matches Ok(found) && found.deep_view() == config,
            None => r matches Err(m) && m@ == spec_no_such_provider(id@),
        },
{
    match provider_index(providers, id) {
        Some(i) => Ok(providers[i].clone_config()),
        None => Err(no_such_provider(id)),
    }
}

/// The address that a connection test of a provider would ask: the base URL
/// and `v1/messages`, with one slash between them.
pub open spec fn spec_test_url(base_url: Seq<char>) -> Seq<char> {
    if base_url.len() > 0 && base_url.last() == '/' {
        base_url + "v1/messages"@
    } else {
        base_url + "/v1/messages"@
    }
}

/// Names the address that a connection test of a provider would ask.
/// Nothing is sent.
pub fn test_provider_connection(base_url: &str) -> (r: Result<String, String>)
    ensures
        r matches Ok(m) && m@ == "连接测试完成："@ + spec_test_url(base_url@),
{
    let chars = crate::text::to_chars(base_url);
    let ends_in_slash = chars.len() > 0 && chars[chars.len() - 1] == '/';
    let mut m = String::from_str("连接测试完成：");
    m.append(base_url);
    if ends_in_slash {
        m.append("v1/messages");
    } else {
        m.append("/v1/messages");
    }
    Ok(m)
}

/// After a switch to a provider that has a base URL and a credential, the
/// effective configuration is that of the provider: among the known
/// providers, the active one is the provider itself or one before it that
/// the same configuration matches.
pub proof fn law_switch_then_detect(doc: JsonV, config: ProviderConfigV)
    requires
        doc is Object,
        config.base_url.len() > 0,
        spec_present(config.api_key).is_some() || spec_present(config.auth_token).is_some(),
    ensures
        spec_matches(spec_current_config(spec_switched(doc, config)), config),
{
    law_switch_keeps_members(doc, config, "env"@);
    law_switch_sets_managed(spec_env_of(doc), config);
    assert(spec_or_empty(spec_present(config.model)) =~= spec_or_empty(config.model));
    assert(spec_or_empty(spec_present(config.small_fast_model)) =~= spec_or_empty(
        config.small_fast_model,
    ));
}

/// After a switch to a provider, that provider is detected where no
/// provider before it in the list matches.
pub proof fn law_detect_after_switch(doc: JsonV, configs: Seq<ProviderConfigV>, i: int)
    requires
        doc is Object,
        0 <= i < configs.len(),
        configs[i].base_url.len() > 0,
        spec_present(configs[i].api_key).is_some() || spec_present(configs[i].auth_token).is_some(),
        forall|j: int|
            0 <= j < i ==> !spec_matches(
                spec_current_config(spec_switched(doc, configs[i])),
                #[trigger] configs[j],
            ),
    ensures
        spec_detect(spec_current_config(spec_switched(doc, configs[i])), configs) == Some(configs[i].id),
{
    let current = spec_current_config(spec_switched(doc, configs[i]));
    law_switch_then_detect(doc, configs[i]);
    assert forall|j: int| 0 <= j < i implies !config_matches(current)(#[trigger] configs[j]) by {}
    crate::seqs::lemma_first_index_is(configs, config_matches(current), i);
}

/// After the managed keys are cleared, no provider is active.
pub proof fn law_detect_after_clear(doc: JsonV, configs: Seq<ProviderConfigV>)
    requires
        doc is Object,
    ensures
        spec_detect(spec_current_config(spec_cleared(doc)), configs).is_none(),
{
    let current = spec_current_config(spec_cleared(doc));
    law_clear(doc, "x"@, spec_key_base_url());
    law_clear(doc, "x"@, spec_key_auth_token());
    law_clear(doc, "x"@, spec_key_api_key());
    law_clear(doc, "x"@, spec_key_model());
    law_clear(doc, "x"@, spec_key_small_fast_model());
    assert forall|j: int| 0 <= j < configs.len() implies !config_matches(current)(
        #[trigger] configs[j],
    ) by {}
    crate::seqs::lemma_first_index_none(configs, config_matches(current));
}

} // verus!
