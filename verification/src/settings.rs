//! The two files that the configuration switch reads: the settings document
//! of the supervised tool, and the list of known providers.
use crate::http::{RelayError, RelayErrorV};
use crate::json::{
    lemma_array_view, lemma_object_view, lookup, spec_lookup, spec_parse, Fields, Json, JsonV,
};
use crate::provider::{ProviderConfig, ProviderConfigV};
use crate::text::{is_blank, spec_is_blank};
use vstd::prelude::*;

verus! {

/// What the supervised tool may and may not do.
#[derive(Debug, Clone, PartialEq, Eq)]
pub struct PermissionsConfig {
    pub allow: Vec<String>,
    pub deny: Vec<String>,
}

pub struct PermissionsConfigV {
    pub allow: Seq<Seq<char>>,
    pub deny: Seq<Seq<char>>,
}

impl DeepView for PermissionsConfig {
    type V = PermissionsConfigV;

    open spec fn deep_view(&self) -> PermissionsConfigV {
        PermissionsConfigV { allow: self.allow.deep_view(), deny: self.deny.deep_view() }
    }
}

/// The settings document, as far as it is read: its variables that hold a
/// text, and its permissions.
#[derive(Debug, Clone, PartialEq, Eq)]
pub struct ClaudeSettings {
    pub env: Vec<(String, String)>,
    pub permissions: Option<PermissionsConfig>,
}

pub struct ClaudeSettingsV {
    pub env: Seq<(Seq<char>, Seq<char>)>,
    pub permissions: Option<PermissionsConfigV>,
}

impl DeepView for ClaudeSettings {
    type V = ClaudeSettingsV;

    open spec fn deep_view(&self) -> ClaudeSettingsV {
        ClaudeSettingsV { env: self.env.deep_view(), permissions: self.permissions.deep_view() }
    }
}

/// The fields that hold a text, in order.
pub open spec fn spec_text_entries(fields: Fields) -> Seq<(Seq<char>, Seq<char>)>
    decreases fields.len(),
{
    if fields.len() == 0 {
        Seq::empty()
    } else {
        let front = spec_text_entries(fields.drop_last());
        match fields.last().1 {
            JsonV::Str(s) => front.push((fields.last().0, s)),
            _ => front,
        }
    }
}

/// Whether every field holds a text.
pub open spec fn spec_all_text(fields: Fields) -> bool {
    forall|i: int| 0 <= i < fields.len() ==> (#[trigger] fields[i]).1 is Str
}

/// The texts of an array of texts; none for anything else.
pub open spec fn spec_text_list(doc: JsonV) -> Option<Seq<Seq<char>>> {
    match doc {
        JsonV::Array(items) => if forall|i: int| 0 <= i < items.len() ==> (#[trigger] items[i]) is Str {
            Some(Seq::new(items.len(), |i: int| items[i]->Str_0))
        } else {
            None
        },
        _ => None,
    }
}

/// A list that may be missing: no list where the member is missing, the
/// texts of the member where it is an array of texts; none for anything
/// else.
pub open spec fn spec_text_list_member(fields: Fields, key: Seq<char>) -> Option<Seq<Seq<char>>> {
    match spec_lookup(fields, key) {
        None => Some(Seq::empty()),
        Some(v) => spec_text_list(v),
    }
}

/// The settings that a document holds when it is read strictly: the
/// document is an object; `env`, where present, is an object of texts;
/// `permissions`, where present and not null, is an object whose `allow`
/// and `deny`, where present, are arrays of texts.
pub open spec fn spec_strict_settings(doc: JsonV) -> Option<ClaudeSettingsV> {
    match doc {
        JsonV::Object(fields) => {
            let env: Option<Fields> = match spec_lookup(fields, "env"@) {
                None => Some(Seq::empty()),
                Some(JsonV::Object(e)) => if spec_all_text(e) {
                    Some(e)
                } else {
                    None
                },
                Some(_) => None,
            };
            let permissions: Option<Option<PermissionsConfigV>> = match spec_lookup(
                fields,
                "permissions"@,
            ) {
                None => Some(None),
                Some(JsonV::Null) => Some(None),
                Some(JsonV::Object(p)) => match (
                    spec_text_list_member(p, "allow"@),
                    spec_text_list_member(p, "deny"@),
                ) {
                    (Some(allow), Some(deny)) => Some(Some(PermissionsConfigV { allow, deny })),
                    _ => None,
                },
                Some(_) => None,
            };
            match (env, permissions) {
                (Some(e), Some(p)) => Some(
                    ClaudeSettingsV { env: spec_text_entries(e), permissions: p },
                ),
                _ => None,
            }
        },
        _ => None,
    }
}

/// The settings that a document holds when it is read leniently: the texts
/// among the variables of `env`, and no permissions.
pub open spec fn spec_compatible_settings(doc: JsonV) -> ClaudeSettingsV {
    ClaudeSettingsV { env: spec_text_entries(crate::provider::spec_env_of(doc)), permissions: None }
}

/// The settings that a document holds: read strictly where that can be
/// done, else leniently.
pub open spec fn spec_settings(doc: JsonV) -> ClaudeSettingsV {
    match spec_strict_settings(doc) {
        Some(s) => s,
        None => spec_compatible_settings(doc),
    }
}

/// The settings of a missing or blank file: no variables, and permissions
/// that allow and deny nothing.
pub open spec fn spec_default_settings() -> ClaudeSettingsV {
    ClaudeSettingsV {
        env: Seq::empty(),
        permissions: Some(PermissionsConfigV { allow: Seq::empty(), deny: Seq::empty() }),
    }
}

fn text_entries(fields: &Vec<(String, Json)>) -> (r: (Vec<(String, String)>, bool))
    ensures
        r.0.deep_view() == spec_text_entries(fields.deep_view()),
        r.1 == spec_all_text(fields.deep_view()),
{
    let ghost fv = fields.deep_view();
    let mut out: Vec<(String, String)> = Vec::new();
    let mut all = true;
    let mut i: usize = 0;
    while i < fields.len()
        invariant
            i <= fields@.len(),
            fv == fields.deep_view(),
            out.deep_view() == spec_text_entries(fv.take(i as int)),
            all == (forall|j: int| 0 <= j < i ==> (#[trigger] fv[j]).1 is Str),
        decreases fields.len() - i,
    {
        proof {
            assert(fv.take(i + 1).drop_last() =~= fv.take(i as int));
        }
        match &fields[i].1 {
            Json::Str(s) => {
                out.push((fields[i].0.clone(), s.clone()));
            },
            _ => {
                all = false;
            },
        }
        i = i + 1;
    }
    assert(fv.take(fields@.len() as int) =~= fv);
    (out, all)
}

#[verifier::loop_isolation(false)]
fn text_list(doc: &Json) -> (r: Option<Vec<String>>)
    ensures
        r.deep_view() == spec_text_list(doc@),
{
    match doc {
        Json::Array(items) => {
            proof {
                lemma_array_view(*items);
            }
            let ghost iv = items.deep_view();
            let mut out: Vec<String> = Vec::new();
            let mut i: usize = 0;
            while i < items.len()
                invariant
                    i <= items@.len(),
                    iv == items.deep_view(),
                    out@.len() == i,
                    forall|j: int| 0 <= j < i ==> (#[trigger] iv[j]) is Str,
                    forall|j: int| 0 <= j < i ==> (#[trigger] out@[j])@ == iv[j]->Str_0,
                decreases items.len() - i,
            {
                match &items[i] {
                    Json::Str(s) => {
                        out.push(s.clone());
                    },
                    _ => {
                        assert(!(iv[i as int] is Str));
                        return None;
                    },
                }
                i = i + 1;
            }
            Some(out)
        },
        _ => None,
    }
}

fn text_list_member(fields: &Vec<(String, Json)>, key: &str) -> (r: Option<Vec<String>>)
    ensures
        r.deep_view() == spec_text_list_member(fields.deep_view(), key@),
{
    match lookup(fields, key) {
        None => {
            let empty: Vec<String> = Vec::new();
            Some(empty)
        },
        Some(v) => text_list(v),
    }
}

/// The settings that a document holds when it is read strictly.
pub fn strict_settings(doc: &Json) -> (r: Option<ClaudeSettings>)
    ensures
        r.deep_view() == spec_strict_settings(doc@),
{
    let fields = match doc {
        Json::Object(fields) => {
            proof {
                lemma_object_view(*fields);
            }
            fields
        },
        _ => {
            return None;
        },
    };
    let env: Vec<(String, String)> = match lookup(fields, "env") {
        None => {
            let empty: Vec<(String, String)> = Vec::new();
            assert(empty.deep_view() =~= spec_text_entries(Seq::empty()));
            empty
        },
        Some(Json::Object(e)) => {
            proof {
                lemma_object_view(*e);
            }
            let (entries, all) = text_entries(e);
            if !all {
                return None;
            }
            entries
        },
        Some(_) => {
            return None;
        },
    };
    let permissions: Option<PermissionsConfig> = match lookup(fields, "permissions") {
        None => None,
        Some(Json::Null) => None,
        Some(Json::Object(p)) => {
            proof {
                lemma_object_view(*p);
            }
            let allow = text_list_member(p, "allow");
            let deny = text_list_member(p, "deny");
            match (allow, deny) {
                (Some(allow), Some(deny)) => Some(PermissionsConfig { allow, deny }),
                _ => {
                    return None;
                },
            }
        },
        Some(_) => {
            return None;
        },
    };
    Some(ClaudeSettings { env, permissions })
}

/// The settings that a document holds when it is read leniently.
pub fn parse_compatible_settings(doc: &Json) -> (r: ClaudeSettings)
    ensures
        r.deep_view() == spec_compatible_settings(doc@),
{
    let empty: Vec<(String, Json)> = Vec::new();
    let env: &Vec<(String, Json)> = match doc.get("env") {
        Some(Json::Object(fields)) => {
            proof {
                lemma_object_view(*fields);
            }
            fields
        },
        _ => &empty,
    };
    let (entries, all) = text_entries(env);
    ClaudeSettings { env: entries, permissions: None }
}

/// The settings that the text of the settings file holds, `parsed` being
/// what the text reads as. A blank text stands for the default settings; a
/// text that is no JSON document is refused.
pub open spec fn spec_load_settings(content: Seq<char>, parsed: Option<JsonV>) -> Result<
    ClaudeSettingsV,
    RelayErrorV,
> {
    if spec_is_blank(content) {
        Ok(spec_default_settings())
    } else {
        match parsed {
            Some(doc) => Ok(spec_settings(doc)),
            None => Err(RelayErrorV::Validation("JSON 格式无效"@)),
        }
    }
}

pub fn settings_given(blank: bool, parsed: Option<Json>) -> (r: Result<ClaudeSettings, RelayError>)
    ensures
        crate::http::result_view(r) == (if blank {
            Ok::<ClaudeSettingsV, RelayErrorV>(spec_default_settings())
        } else {
            match parsed.deep_view() {
                Some(doc) => Ok::<ClaudeSettingsV, RelayErrorV>(spec_settings(doc)),
                None => Err::<ClaudeSettingsV, RelayErrorV>(RelayErrorV::Validation("JSON 格式无效"@)),
            }
        }),
{
    if blank {
        let allow: Vec<String> = Vec::new();
        let deny: Vec<String> = Vec::new();
        let env: Vec<(String, String)> = Vec::new();
        assert(deny.deep_view() =~= Seq::<Seq<char>>::empty());
        assert(env.deep_view() =~= Seq::<(Seq<char>, Seq<char>)>::empty());
        return Ok(ClaudeSettings { env, permissions: Some(PermissionsConfig { allow, deny }) });
    }
    match parsed {
        Some(doc) => match strict_settings(&doc) {
            Some(s) => Ok(s),
            None => Ok(parse_compatible_settings(&doc)),
        },
        None => Err(RelayError::Validation(String::from_str("JSON 格式无效"))),
    }
}

/// The settings that the text of the settings file holds.
pub fn load_claude_settings(content: &str) -> (r: Result<ClaudeSettings, RelayError>)
    ensures
        crate::http::result_view(r) == spec_load_settings(content@, spec_parse(content@)),
{
    let blank = is_blank(content);
    let parsed = if blank {
        None
    } else {
        crate::json::parse(content)
    };
    settings_given(blank, parsed)
}

/// The document that the text of the settings file stands for, `parsed`
/// being what the text reads as: a blank text stands for an object without
/// members, and so does a text that is no JSON document.
pub open spec fn spec_settings_document(content: Seq<char>, parsed: Option<JsonV>) -> JsonV {
    if spec_is_blank(content) {
        JsonV::Object(Seq::empty())
    } else {
        match parsed {
            Some(doc) => doc,
            None => JsonV::Object(Seq::empty()),
        }
    }
}

pub fn document_given(blank: bool, parsed: Option<Json>) -> (r: Json)
    ensures
        r@ == (if blank {
            JsonV::Object(Seq::empty())
        } else {
            match parsed.deep_view() {
                Some(doc) => doc,
                None => JsonV::Object(Seq::empty()),
            }
        }),
{
    if blank {
        return crate::provider::empty_document();
    }
    match parsed {
        Some(doc) => doc,
        None => crate::provider::empty_document(),
    }
}

/// The document that the text of the settings file stands for when the
/// file is rewritten.
pub fn settings_document(content: &str) -> (r: Json)
    ensures
        r@ == spec_settings_document(content@, spec_parse(content@)),
{
    let blank = is_blank(content);
    let parsed = if blank {
        None
    } else {
        crate::json::parse(content)
    };
    document_given(blank, parsed)
}


// ---------------------------------------------------------------------------
// Rewriting the settings file
// ---------------------------------------------------------------------------

/// The failure of a rewrite whose result cannot be printed.
pub open spec fn spec_unprintable() -> RelayErrorV {
    RelayErrorV::Storage("序列化 settings.json 失败"@)
}

/// The new text of the settings file, given what the old text reads as,
/// what `change` makes of the document and what the changed document
/// prints as. `content` is `None` for a missing file. A missing or blank
/// file stands for an object without members; a text that is no JSON
/// document is refused.
pub open spec fn spec_rewritten(
    content: Option<Seq<char>>,
    parsed: Option<JsonV>,
    change: spec_fn(JsonV) -> JsonV,
    printed: spec_fn(JsonV) -> Option<Seq<char>>,
) -> Result<Seq<char>, RelayErrorV> {
    let doc: Option<JsonV> = match content {
        None => Some(JsonV::Object(Seq::empty())),
        Some(text) => if spec_is_blank(text) {
            Some(JsonV::Object(Seq::empty()))
        } else {
            parsed
        },
    };
    match doc {
        None => Err(RelayErrorV::Validation("JSON 格式无效"@)),
        Some(d) => match printed(change(d)) {
            Some(text) => Ok(text),
            None => Err(spec_unprintable()),
        },
    }
}

/// The document that a present or missing settings file stands for; `None`
/// where its text is no JSON document.
fn starting_document(content: Option<&str>) -> (r: Option<Json>)
    ensures
        r.deep_view() == (match content.deep_view() {
            None => Some(JsonV::Object(Seq::empty())),
            Some(text) => if spec_is_blank(text) {
                Some(JsonV::Object(Seq::empty()))
            } else {
                spec_parse(text)
            },
        }),
{
    match content {
        None => Some(crate::provider::empty_document()),
        Some(text) => if is_blank(text) {
            Some(crate::provider::empty_document())
        } else {
            crate::json::parse(text)
        },
    }
}

fn printed_or_failure(doc: &Json) -> (r: Result<String, RelayError>)
    ensures
        crate::http::result_view(r) == (match crate::json::spec_pretty_text(doc@) {
            Some(text) => Ok::<Seq<char>, RelayErrorV>(text),
            None => Err::<Seq<char>, RelayErrorV>(spec_unprintable()),
        }),
{
    match crate::json::to_pretty_text(doc) {
        Some(text) => Ok(text),
        None => Err(RelayError::Storage(String::from_str("序列化 settings.json 失败"))),
    }
}

/// The new text of the settings file after a switch to `config`.
pub fn switch_provider_config(content: Option<&str>, config: &ProviderConfig) -> (r: Result<String, RelayError>)
    ensures
        crate::http::result_view(r) == spec_rewritten(
            content.deep_view(),
            match content.deep_view() {
                Some(text) => spec_parse(text),
                None => None,
            },
            |doc: JsonV| crate::provider::spec_switched(doc, config.deep_view()),
            |doc: JsonV| crate::json::spec_pretty_text(doc),
        ),
{
    match starting_document(content) {
        None => Err(RelayError::Validation(String::from_str("JSON 格式无效"))),
        Some(doc) => printed_or_failure(&crate::provider::switch_document(&doc, config)),
    }
}

/// The new text of the settings file after the managed keys are cleared.
pub fn clear_provider_config(content: Option<&str>) -> (r: Result<String, RelayError>)
    ensures
        crate::http::result_view(r) == spec_rewritten(
            content.deep_view(),
            match content.deep_view() {
                Some(text) => spec_parse(text),
                None => None,
            },
            |doc: JsonV| crate::provider::spec_cleared(doc),
            |doc: JsonV| crate::json::spec_pretty_text(doc),
        ),
{
    match starting_document(content) {
        None => Err(RelayError::Validation(String::from_str("JSON 格式无效"))),
        Some(doc) => printed_or_failure(&crate::provider::clear_document(&doc)),
    }
}

/// What a switch reports once it is done.
pub fn switch_message(config: &ProviderConfig) -> (r: String)
    ensures
        r@ == "已成功切换到 "@ + config.name@ + " ("@ + config.description@
            + ")，所有Claude会话已重启以应用新配置"@,
{
    let mut m = String::from_str("已成功切换到 ");
    m.append(config.name.as_str());
    m.append(" (");
    m.append(config.description.as_str());
    m.append(")，所有Claude会话已重启以应用新配置");
    m
}

/// What a clearing reports once it is done.
pub fn clear_message() -> (r: String)
    ensures
        r@ == "已清理所有 ANTHROPIC 配置，所有Claude会话已重启"@,
{
    String::from_str("已清理所有 ANTHROPIC 配置，所有Claude会话已重启")
}

// ---------------------------------------------------------------------------
// The list of known providers
// ---------------------------------------------------------------------------

/// A text member that must be there.
pub open spec fn spec_required_text(fields: Fields, key: Seq<char>) -> Option<Seq<char>> {
    match spec_lookup(fields, key) {
        Some(JsonV::Str(s)) => Some(s),
        _ => None,
    }
}

/// A text member that may be missing: outer `None` where the member is
/// neither missing, null nor a text; inner `None` where it is missing,
/// null or blank.
pub open spec fn spec_optional_text(fields: Fields, key: Seq<char>) -> Option<Option<Seq<char>>> {
    match spec_lookup(fields, key) {
        None => Some(None),
        Some(JsonV::Null) => Some(None),
        Some(JsonV::Str(s)) => if spec_is_blank(s) {
            Some(None)
        } else {
            Some(Some(s))
        },
        Some(_) => None,
    }
}

/// The provider that a document describes; none where a required text is
/// missing or a member has the wrong type.
pub open spec fn spec_provider(doc: JsonV) -> Option<ProviderConfigV> {
    match doc {
        JsonV::Object(f) => match (
            spec_required_text(f, "id"@),
            spec_required_text(f, "name"@),
            spec_required_text(f, "description"@),
            spec_required_text(f, "base_url"@),
            spec_optional_text(f, "auth_token"@),
            spec_optional_text(f, "api_key"@),
            spec_optional_text(f, "model"@),
            spec_optional_text(f, "small_fast_model"@),
        ) {
            (
                Some(id),
                Some(name),
                Some(description),
                Some(base_url),
                Some(auth_token),
                Some(api_key),
                Some(model),
                Some(small_fast_model),
            ) => Some(
                ProviderConfigV {
                    id,
                    name,
                    description,
                    base_url,
                    auth_token,
                    api_key,
                    model,
                    small_fast_model,
                },
            ),
            _ => None,
        },
        _ => None,
    }
}

fn required_text(fields: &Vec<(String, Json)>, key: &str) -> (r: Option<String>)
    ensures
        r.deep_view() == spec_required_text(fields.deep_view(), key@),
{
    match lookup(fields, key) {
        Some(Json::Str(s)) => Some(s.clone()),
        _ => None,
    }
}

fn optional_text(fields: &Vec<(String, Json)>, key: &str) -> (r: Option<Option<String>>)
    ensures
        r.deep_view() == spec_optional_text(fields.deep_view(), key@),
{
    match lookup(fields, key) {
        None => Some(None),
        Some(Json::Null) => Some(None),
        Some(Json::Str(s)) => if is_blank(s.as_str()) {
            Some(None)
        } else {
            Some(Some(s.clone()))
        },
        Some(_) => None,
    }
}

/// The provider that a document describes.
pub fn provider_from_json(doc: &Json) -> (r: Option<ProviderConfig>)
    ensures
        r.deep_view() == spec_provider(doc@),
{
    let f = match doc {
        Json::Object(f) => {
            proof {
                lemma_object_view(*f);
            }
            f
        },
        _ => {
            return None;
        },
    };
    match (
        required_text(f, "id"),
        required_text(f, "name"),
        required_text(f, "description"),
        required_text(f, "base_url"),
        optional_text(f, "auth_token"),
        optional_text(f, "api_key"),
        optional_text(f, "model"),
        optional_text(f, "small_fast_model"),
    ) {
        (
            Some(id),
            Some(name),
            Some(description),
            Some(base_url),
            Some(auth_token),
            Some(api_key),
            Some(model),
            Some(small_fast_model),
        ) => Some(
            ProviderConfig {
                id,
                name,
                description,
                base_url,
                auth_token,
                api_key,
                model,
                small_fast_model,
            },
        ),
        _ => None,
    }
}

/// The providers that a document lists: the document is an array of
/// providers.
pub open spec fn spec_providers(doc: JsonV) -> Option<Seq<ProviderConfigV>> {
    match doc {
        JsonV::Array(items) => if forall|i: int|
            0 <= i < items.len() ==> spec_provider(#[trigger] items[i]).is_some() {
            Some(Seq::new(items.len(), |i: int| spec_provider(items[i]).unwrap()))
        } else {
            None
        },
        _ => None,
    }
}

#[verifier::loop_isolation(false)]
pub fn providers_from_json(doc: &Json) -> (r: Option<Vec<ProviderConfig>>)
    ensures
        r.deep_view() == spec_providers(doc@),
{
    match doc {
        Json::Array(items) => {
            proof {
                lemma_array_view(*items);
            }
            let ghost iv = items.deep_view();
            let mut out: Vec<ProviderConfig> = Vec::new();
            let mut i: usize = 0;
            while i < items.len()
                invariant
                    i <= items@.len(),
                    out@.len() == i,
                    forall|j: int| 0 <= j < i ==> spec_provider(#[trigger] iv[j]).is_some(),
                    forall|j: int|
                        0 <= j < i ==> (#[trigger] out@[j]).deep_view() == spec_provider(iv[j]).unwrap(),
                decreases items.len() - i,
            {
                match provider_from_json(&items[i]) {
                    Some(p) => {
                        out.push(p);
                    },
                    None => {
                        assert(spec_provider(iv[i as int]).is_none());
                        return None;
                    },
                }
                i = i + 1;
            }
            Some(out)
        },
        _ => None,
    }
}

/// The providers that the text of the providers file lists, `parsed` being
/// what the text reads as. A blank text lists none.
pub open spec fn spec_load_providers(content: Seq<char>, parsed: Option<JsonV>) -> Result<
    Seq<ProviderConfigV>,
    RelayErrorV,
> {
    if spec_is_blank(content) {
        Ok(Seq::empty())
    } else {
        match parsed {
            None => Err(RelayErrorV::Validation("解析配置文件失败"@)),
            Some(doc) => match spec_providers(doc) {
                Some(list) => Ok(list),
                None => Err(RelayErrorV::Validation("解析配置文件失败"@)),
            },
        }
    }
}

pub fn providers_given(blank: bool, parsed: Option<Json>) -> (r: Result<Vec<ProviderConfig>, RelayError>)
    ensures
        crate::http::result_view(r) == (if blank {
            Ok::<Seq<ProviderConfigV>, RelayErrorV>(Seq::empty())
        } else {
            match parsed.deep_view() {
                None => Err::<Seq<ProviderConfigV>, RelayErrorV>(
                    RelayErrorV::Validation("解析配置文件失败"@),
                ),
                Some(doc) => match spec_providers(doc) {
                    Some(list) => Ok::<Seq<ProviderConfigV>, RelayErrorV>(list),
                    None => Err::<Seq<ProviderConfigV>, RelayErrorV>(
                        RelayErrorV::Validation("解析配置文件失败"@),
                    ),
                },
            }
        }),
{
    if blank {
        let empty: Vec<ProviderConfig> = Vec::new();
        assert(empty.deep_view() =~= Seq::<ProviderConfigV>::empty());
        return Ok(empty);
    }
    let listed = match parsed {
        Some(doc) => providers_from_json(&doc),
        None => None,
    };
    match listed {
        Some(list) => Ok(list),
        None => Err(RelayError::Validation(String::from_str("解析配置文件失败"))),
    }
}

/// The providers that the text of the providers file lists.
pub fn load_providers_from_file(content: &str) -> (r: Result<Vec<ProviderConfig>, RelayError>)
    ensures
        crate::http::result_view(r) == spec_load_providers(content@, spec_parse(content@)),
{
    let blank = is_blank(content);
    let parsed = if blank {
        None
    } else {
        crate::json::parse(content)
    };
    providers_given(blank, parsed)
}

pub open spec fn spec_text_or_null(v: Option<Seq<char>>) -> JsonV {
    match v {
        Some(s) => JsonV::Str(s),
        None => JsonV::Null,
    }
}

/// The document that describes a provider.
pub open spec fn spec_provider_document(config: ProviderConfigV) -> JsonV {
    JsonV::Object(
        seq![
            ("id"@, JsonV::Str(config.id)),
            ("name"@, JsonV::Str(config.name)),
            ("description"@, JsonV::Str(config.description)),
            ("base_url"@, JsonV::Str(config.base_url)),
            ("auth_token"@, spec_text_or_null(config.auth_token)),
            ("api_key"@, spec_text_or_null(config.api_key)),
            ("model"@, spec_text_or_null(config.model)),
            ("small_fast_model"@, spec_text_or_null(config.small_fast_model)),
        ],
    )
}

fn text_or_null(v: &Option<String>) -> (r: Json)
    ensures
        r@ == spec_text_or_null(v.deep_view()),
{
    match v {
        Some(s) => Json::Str(s.clone()),
        None => Json::Null,
    }
}

pub fn provider_to_json(config: &ProviderConfig) -> (r: Json)
    ensures
        r@ == spec_provider_document(config.deep_view()),
{
    let mut f: Vec<(String, Json)> = Vec::new();
    f.push((String::from_str("id"), Json::Str(config.id.clone())));
    f.push((String::from_str("name"), Json::Str(config.name.clone())));
    f.push((String::from_str("description"), Json::Str(config.description.clone())));
    f.push((String::from_str("base_url"), Json::Str(config.base_url.clone())));
    f.push((String::from_str("auth_token"), text_or_null(&config.auth_token)));
    f.push((String::from_str("api_key"), text_or_null(&config.api_key)));
    f.push((String::from_str("model"), text_or_null(&config.model)));
    f.push((String::from_str("small_fast_model"), text_or_null(&config.small_fast_model)));
    proof {
        lemma_object_view(f);
        assert(f.deep_view() =~= spec_provider_document(config.deep_view())->Object_0);
    }
    Json::Object(f)
}

/// The document that lists providers.
pub fn providers_to_json(providers: &Vec<ProviderConfig>) -> (r: Json)
    ensures
        r@ == JsonV::Array(
            Seq::new(providers@.len(), |i: int| spec_provider_document(providers.deep_view()[i])),
        ),
{
    let mut out: Vec<Json> = Vec::new();
    let mut i: usize = 0;
    while i < providers.len()
        invariant
            i <= providers@.len(),
            out@.len() == i,
            forall|j: int|
                0 <= j < i ==> (#[trigger] out@[j])@ == spec_provider_document(providers@[j].deep_view()),
        decreases providers.len() - i,
    {
        out.push(provider_to_json(&providers[i]));
        i = i + 1;
    }
    proof {
        lemma_array_view(out);
        assert(out.deep_view() =~= Seq::new(
            providers@.len(),
            |i: int| spec_provider_document(providers.deep_view()[i]),
        ));
    }
    Json::Array(out)
}

/// The providers of the providers file as they are offered for choosing:
/// none for a missing file (`None`); else what the text lists, a blank
/// text being no list.
pub fn get_provider_presets(content: Option<&str>) -> (r: Result<Vec<ProviderConfig>, RelayError>)
    ensures
        crate::http::result_view(r) == (match content.deep_view() {
            None => Ok::<Seq<ProviderConfigV>, RelayErrorV>(Seq::empty()),
            Some(text) => match spec_parse(text) {
                None => Err::<Seq<ProviderConfigV>, RelayErrorV>(
                    RelayErrorV::Validation("配置文件格式错误"@),
                ),
                Some(doc) => match spec_providers(doc) {
                    Some(list) => Ok::<Seq<ProviderConfigV>, RelayErrorV>(list),
                    None => Err::<Seq<ProviderConfigV>, RelayErrorV>(
                        RelayErrorV::Validation("配置文件格式错误"@),
                    ),
                },
            },
        }),
{
    let text = match content {
        Some(t) => t,
        None => {
            let empty: Vec<ProviderConfig> = Vec::new();
            assert(empty.deep_view() =~= Seq::<ProviderConfigV>::empty());
            return Ok(empty);
        },
    };
    let listed = match crate::json::parse(text) {
        Some(doc) => providers_from_json(&doc),
        None => None,
    };
    match listed {
        Some(list) => Ok(list),
        None => Err(RelayError::Validation(String::from_str("配置文件格式错误"))),
    }
}

/// The text of the providers file that lists `providers`.
pub fn save_providers_to_file(providers: &Vec<ProviderConfig>) -> (r: Result<String, RelayError>)
    ensures
        crate::http::result_view(r) == (match crate::json::spec_pretty_text(
            JsonV::Array(
                Seq::new(providers@.len(), |i: int| spec_provider_document(providers.deep_view()[i])),
            ),
        ) {
            Some(text) => Ok::<Seq<char>, RelayErrorV>(text),
            None => Err::<Seq<char>, RelayErrorV>(RelayErrorV::Storage("序列化配置失败"@)),
        }),
{
    match crate::json::to_pretty_text(&providers_to_json(providers)) {
        Some(text) => Ok(text),
        None => Err(RelayError::Storage(String::from_str("序列化配置失败"))),
    }
}

} // verus!
