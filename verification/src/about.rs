//! What the application says about itself, and whether a newer release is
//! out.
use crate::http::{HttpMethod, HttpReply, HttpReplyV, HttpRequest, HttpRequestV};
use crate::json::{Json, JsonV};
use crate::seqs::{lemma_first_index_is, lemma_first_index_none, spec_first, spec_first_index};
use crate::text::{
    ends_with, parse_int_in, spec_ends_with, spec_parse_int, spec_strip_leading, strip_leading,
    to_chars,
};
use vstd::prelude::*;

verus! {

/// The application's version and where its database is.
#[derive(Debug, Clone, PartialEq, Eq)]
pub struct AppInfo {
    pub version: String,
    pub database_path: String,
    pub latest_version: Option<String>,
    pub update_available: bool,
}

pub struct AppInfoV {
    pub version: Seq<char>,
    pub database_path: Seq<char>,
    pub latest_version: Option<Seq<char>>,
    pub update_available: bool,
}

impl DeepView for AppInfo {
    type V = AppInfoV;

    open spec fn deep_view(&self) -> AppInfoV {
        AppInfoV {
            version: self.version@,
            database_path: self.database_path@,
            latest_version: self.latest_version.deep_view(),
            update_available: self.update_available,
        }
    }
}

/// The latest release, held against the running version.
#[derive(Debug, Clone, PartialEq, Eq)]
pub struct UpdateInfo {
    pub latest_version: String,
    pub current_version: String,
    pub update_available: bool,
    pub download_url: Option<String>,
    pub release_notes: Option<String>,
}

pub struct UpdateInfoV {
    pub latest_version: Seq<char>,
    pub current_version: Seq<char>,
    pub update_available: bool,
    pub download_url: Option<Seq<char>>,
    pub release_notes: Option<Seq<char>>,
}

impl DeepView for UpdateInfo {
    type V = UpdateInfoV;

    open spec fn deep_view(&self) -> UpdateInfoV {
        UpdateInfoV {
            latest_version: self.latest_version@,
            current_version: self.current_version@,
            update_available: self.update_available,
            download_url: self.download_url.deep_view(),
            release_notes: self.release_notes.deep_view(),
        }
    }
}

/// What is known of the application before a release is looked up.
pub fn get_app_info(version: String, database_path: String) -> (r: AppInfo)
    ensures
        r.deep_view() == (AppInfoV {
            version: version@,
            database_path: database_path@,
            latest_version: None,
            update_available: false,
        }),
{
    AppInfo { version, database_path, latest_version: None, update_available: false }
}

// ---------------------------------------------------------------------------
// Versions
// ---------------------------------------------------------------------------

pub open spec fn is_dot() -> spec_fn(char) -> bool {
    |c: char| c == '.'
}

/// The number that a part of a version stands for: the part read as a
/// decimal `u32`, or 0 where it is none.
pub open spec fn spec_part_value(part: Seq<char>) -> int {
    match spec_parse_int(part, false, 0, u32::MAX as int) {
        Some(v) => v,
        None => 0,
    }
}

/// The numbers of a version: its parts between dots, each as a number. A
/// version without a dot has one part.
pub open spec fn spec_version_parts(s: Seq<char>) -> Seq<int>
    decreases s.len(),
{
    match spec_first_index(s, is_dot()) {
        Some(i) => if 0 <= i < s.len() {
            seq![spec_part_value(s.take(i))] + spec_version_parts(s.skip(i + 1))
        } else {
            Seq::empty()
        },
        None => seq![spec_part_value(s)],
    }
}

/// The part at a place, 0 behind the last part.
pub open spec fn spec_part_at(parts: Seq<int>, i: int) -> int {
    if 0 <= i < parts.len() {
        parts[i]
    } else {
        0
    }
}

/// Whether `latest` is ahead of `current` from part `i` on: at the first
/// part in which they differ, `latest` is larger.
pub open spec fn spec_newer_from(current: Seq<int>, latest: Seq<int>, i: int) -> bool
    decreases current.len() + latest.len() - i,
{
    if i < 0 || (i >= current.len() && i >= latest.len()) {
        false
    } else if spec_part_at(latest, i) > spec_part_at(current, i) {
        true
    } else if spec_part_at(latest, i) < spec_part_at(current, i) {
        false
    } else {
        spec_newer_from(current, latest, i + 1)
    }
}

/// Whether the version `latest` is newer than the version `current`.
pub open spec fn spec_compare_versions(current: Seq<char>, latest: Seq<char>) -> bool {
    spec_newer_from(spec_version_parts(current), spec_version_parts(latest), 0)
}

/// Whether `latest` is larger than `current` in part `k`, the two agreeing
/// in every part from `i` up to `k`.
pub open spec fn spec_ahead_at(current: Seq<int>, latest: Seq<int>, i: int, k: int) -> bool {
    &&& i <= k
    &&& spec_part_at(latest, k) > spec_part_at(current, k)
    &&& forall|j: int| i <= j < k ==> spec_part_at(latest, j) == spec_part_at(current, j)
}

/// `latest` is ahead of `current` exactly where there is a part in which
/// it is larger and before which the two agree.
pub proof fn law_newer(current: Seq<int>, latest: Seq<int>, i: int)
    requires
        i >= 0,
    ensures
        spec_newer_from(current, latest, i) <==> exists|k: int|
            #[trigger] spec_ahead_at(current, latest, i, k),
    decreases current.len() + latest.len() - i,
{
    if i < current.len() || i < latest.len() {
        if spec_part_at(latest, i) > spec_part_at(current, i) {
            assert(spec_ahead_at(current, latest, i, i));
        } else if spec_part_at(latest, i) == spec_part_at(current, i) {
            law_newer(current, latest, i + 1);
            assert forall|k: int| #[trigger]
                spec_ahead_at(current, latest, i, k) == spec_ahead_at(current, latest, i + 1, k) by {}
            if spec_newer_from(current, latest, i + 1) {
                let k = choose|k: int| #[trigger] spec_ahead_at(current, latest, i + 1, k);
                assert(spec_ahead_at(current, latest, i, k));
            }
        }
    }
}

/// The numbers of a version.
pub fn version_parts(version: &str) -> (r: Vec<u32>)
    ensures
        r@.map_values(|v: u32| v as int) == spec_version_parts(version@),
{
    let chars = to_chars(version);
    let ghost s = chars@;
    let mut parts: Vec<u32> = Vec::new();
    let mut start: usize = 0;
    let mut i: usize = 0;
    assert(s.skip(0) =~= s);
    assert(parts@.map_values(|v: u32| v as int) + spec_version_parts(s.skip(0)) =~= spec_version_parts(
        s,
    ));
    while i < chars.len()
        invariant
            start <= i <= chars@.len(),
            s == chars@,
            parts@.map_values(|v: u32| v as int) + spec_version_parts(s.skip(start as int))
                == spec_version_parts(s),
            forall|j: int| start <= j < i ==> s[j] != '.',
        decreases chars.len() - i,
    {
        if chars[i] == '.' {
            let value: u32 = match parse_int_in(&chars, start, i, false, 0, 0xffff_ffff) {
                Some(v) => v as u32,
                None => 0,
            };
            let ghost before = parts@.map_values(|v: u32| v as int);
            let ghost tail = s.skip(start as int);
            proof {
                lemma_first_index_is(tail, is_dot(), i - start);
                assert(tail.take(i - start) =~= s.subrange(start as int, i as int));
                assert(tail.skip(i - start + 1) =~= s.skip(i + 1));
            }
            parts.push(value);
            proof {
                assert(before.push(value as int) + spec_version_parts(s.skip(i + 1)) =~= before
                    + spec_version_parts(tail));
            }
            start = i + 1;
        }
        i = i + 1;
    }
    let value: u32 = match parse_int_in(&chars, start, chars.len(), false, 0, 0xffff_ffff) {
        Some(v) => v as u32,
        None => 0,
    };
    let ghost tail = s.skip(start as int);
    proof {
        lemma_first_index_none(tail, is_dot());
    }
    parts.push(value);
    parts
}

fn part_at(parts: &Vec<u32>, i: usize) -> (r: u32)
    ensures
        r as int == spec_part_at(parts@.map_values(|v: u32| v as int), i as int),
{
    if i < parts.len() {
        parts[i]
    } else {
        0
    }
}

/// Whether the version `latest` is newer than the version `current`.
#[verifier::loop_isolation(false)]
pub fn compare_versions(current: &str, latest: &str) -> (r: bool)
    ensures
        r == spec_compare_versions(current@, latest@),
{
    let cur = version_parts(current);
    let lat = version_parts(latest);
    let ghost c = cur@.map_values(|v: u32| v as int);
    let ghost l = lat@.map_values(|v: u32| v as int);
    let mut i: usize = 0;
    while i < cur.len() || i < lat.len()
        invariant
            c == cur@.map_values(|v: u32| v as int),
            l == lat@.map_values(|v: u32| v as int),
            spec_newer_from(c, l, i as int) == spec_newer_from(c, l, 0),
        decreases cur@.len() + lat@.len() - i,
    {
        let a = part_at(&cur, i);
        let b = part_at(&lat, i);
        if b > a {
            return true;
        }
        if b < a {
            return false;
        }
        i = i + 1;
    }
    false
}

// ---------------------------------------------------------------------------
// Releases
// ---------------------------------------------------------------------------

/// Whether a release asset is an installer: its name ends in `.exe` or
/// `.msi`.
pub open spec fn spec_is_installer(asset: JsonV) -> bool {
    match asset.member("name"@).as_str() {
        Some(name) => spec_ends_with(name, ".exe"@) || spec_ends_with(name, ".msi"@),
        None => false,
    }
}

pub open spec fn is_installer() -> spec_fn(JsonV) -> bool {
    |asset: JsonV| spec_is_installer(asset)
}

/// Where the first installer among the assets of a release is to be had.
pub open spec fn spec_download_url(release: JsonV) -> Option<Seq<char>> {
    match release.member("assets"@).as_array() {
        Some(assets) => match spec_first(assets, is_installer()) {
            Some(asset) => asset.member("browser_download_url"@).as_str(),
            None => None,
        },
        None => None,
    }
}

/// The version that a release is tagged with, without the `v` before it;
/// `unknown` where the release has no tag.
pub open spec fn spec_latest_version(release: JsonV) -> Seq<char> {
    spec_strip_leading(
        match release.member("tag_name"@).as_str() {
            Some(tag) => tag,
            None => "unknown"@,
        },
        'v',
    )
}

/// What a release document says, held against the running version.
pub open spec fn spec_update_info(current_version: Seq<char>, release: JsonV) -> UpdateInfoV {
    UpdateInfoV {
        latest_version: spec_latest_version(release),
        current_version,
        update_available: spec_compare_versions(current_version, spec_latest_version(release)),
        download_url: spec_download_url(release),
        release_notes: release.member("body"@).as_str(),
    }
}

fn member_str<'a>(doc: &'a Json, key: &str) -> (r: Option<&'a str>)
    ensures
        r.deep_view() == doc@.member(key@).as_str(),
{
    match doc.get(key) {
        Some(v) => v.as_str(),
        None => None,
    }
}

fn is_installer_asset(asset: &Json) -> (r: bool)
    ensures
        r == spec_is_installer(asset@),
{
    match member_str(asset, "name") {
        Some(name) => ends_with(name, ".exe") || ends_with(name, ".msi"),
        None => false,
    }
}

#[verifier::loop_isolation(false)]
fn download_url(release: &Json) -> (r: Option<String>)
    ensures
        r.deep_view() == spec_download_url(release@),
{
    let found = match release.get("assets") {
        Some(a) => a.as_array(),
        None => None,
    };
    let assets = match found {
        Some(a) => a,
        None => {
            return None;
        },
    };
    let ghost av = assets.deep_view();
    let mut i: usize = 0;
    while i < assets.len()
        invariant
            i <= assets@.len(),
            av == assets.deep_view(),
            forall|j: int| 0 <= j < i ==> !is_installer()(#[trigger] av[j]),
        decreases assets.len() - i,
    {
        if is_installer_asset(&assets[i]) {
            proof {
                lemma_first_index_is(av, is_installer(), i as int);
            }
            return match member_str(&assets[i], "browser_download_url") {
                Some(url) => Some(String::from_str(url)),
                None => None,
            };
        }
        i = i + 1;
    }
    proof {
        lemma_first_index_none(av, is_installer());
    }
    None
}

/// What a release document says, held against the running version.
pub fn update_info(current_version: &str, release: &Json) -> (r: UpdateInfo)
    ensures
        r.deep_view() == spec_update_info(current_version@, release@),
{
    let tag = match member_str(release, "tag_name") {
        Some(t) => t,
        None => "unknown",
    };
    let latest_version = strip_leading(tag, 'v');
    let update_available = compare_versions(current_version, latest_version.as_str());
    UpdateInfo {
        latest_version,
        current_version: String::from_str(current_version),
        update_available,
        download_url: download_url(release),
        release_notes: match member_str(release, "body") {
            Some(b) => Some(String::from_str(b)),
            None => None,
        },
    }
}

/// The request for the latest release of the project whose releases are
/// listed at `releases_url`, sent in the name `user_agent`.
pub open spec fn spec_release_request(releases_url: Seq<char>, user_agent: Seq<char>) -> HttpRequestV {
    HttpRequestV {
        method: HttpMethod::Get,
        url: releases_url,
        headers: seq![("User-Agent"@, user_agent)],
        body: None,
        timeout_secs: None,
    }
}

pub fn check_for_updates_request(releases_url: &str, user_agent: &str) -> (r: HttpRequest)
    ensures
        r.deep_view() == spec_release_request(releases_url@, user_agent@),
{
    let mut headers: Vec<(String, String)> = Vec::new();
    headers.push((String::from_str("User-Agent"), String::from_str(user_agent)));
    assert(headers.deep_view() =~= spec_release_request(releases_url@, user_agent@).headers);
    HttpRequest {
        method: HttpMethod::Get,
        url: String::from_str(releases_url),
        headers,
        body: None,
        timeout_secs: None,
    }
}

/// What the reply to the release request says, `parsed` being what its body
/// reads as.
pub open spec fn spec_check_for_updates(current_version: Seq<char>, reply: HttpReplyV, parsed: Option<JsonV>) -> Result<
    UpdateInfoV,
    Seq<char>,
> {
    match reply {
        HttpReplyV::Failed { error } => Err("Failed to fetch release info: "@ + error),
        HttpReplyV::Response { status, status_text, body, elapsed_ms } => if !crate::http::spec_is_success(
            status,
        ) {
            Err("GitHub API returned status: "@ + status_text)
        } else {
            match parsed {
                Some(release) => Ok(spec_update_info(current_version, release)),
                None => Err("Failed to parse response: error decoding response body"@),
            }
        },
    }
}

pub fn check_for_updates_given(current_version: &str, reply: &HttpReply, parsed: Option<Json>) -> (r: Result<
    UpdateInfo,
    String,
>)
    ensures
        crate::service::told_view(r) == spec_check_for_updates(
            current_version@,
            reply.deep_view(),
            parsed.deep_view(),
        ),
{
    match reply {
        HttpReply::Failed { error } => Err(
            crate::http::concat("Failed to fetch release info: ", error.as_str()),
        ),
        HttpReply::Response { status, status_text, body, elapsed_ms } => {
            if !crate::http::is_success(*status) {
                Err(crate::http::concat("GitHub API returned status: ", status_text.as_str()))
            } else {
                match parsed {
                    Some(release) => Ok(update_info(current_version, &release)),
                    None => Err(
                        String::from_str("Failed to parse response: error decoding response body"),
                    ),
                }
            }
        },
    }
}

/// Reads the reply to the release request.
pub fn check_for_updates(current_version: &str, reply: &HttpReply) -> (r: Result<UpdateInfo, String>)
    ensures
        crate::service::told_view(r) == spec_check_for_updates(
            current_version@,
            reply.deep_view(),
            reply.deep_view().parsed_body(),
        ),
{
    let parsed = match reply {
        HttpReply::Failed { error } => None,
        HttpReply::Response { status, status_text, body, elapsed_ms } => crate::json::parse(
            body.as_str(),
        ),
    };
    check_for_updates_given(current_version, reply, parsed)
}

} // verus!
