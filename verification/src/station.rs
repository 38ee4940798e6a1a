//! The data model: stations, what an adapter reports about them, and the
//! requests that create and change tokens. Each type has a mathematical value
//! (`deep_view`), over which the contracts of the library are stated.
use crate::json::{clone_opt_fields, Fields, Json};
use crate::text::{clone_opt_string, str_eq};
use vstd::prelude::*;

verus! {

/// Number of provider quota units that make up one currency unit.
pub const QUOTA_PER_UNIT: i64 = 500000;

/// The provider family that a station's management API belongs to.
#[derive(Debug, Clone, Copy, PartialEq, Eq, Structural)]
pub enum RelayStationAdapter {
    Newapi,
    Oneapi,
    Yourapi,
    Custom,
}

/// How a station authenticates. The adapters do not branch on it.
#[derive(Debug, Clone, Copy, PartialEq, Eq, Structural)]
pub enum AuthMethod {
    BearerToken,
    ApiKey,
    Custom,
}

impl RelayStationAdapter {
    /// The adapter that a stored name stands for; a name that is none of the
    /// four known ones stands for `Newapi`.
    pub open spec fn spec_from_name(name: Seq<char>) -> RelayStationAdapter {
        if name == "newapi"@ {
            RelayStationAdapter::Newapi
        } else if name == "oneapi"@ {
            RelayStationAdapter::Oneapi
        } else if name == "yourapi"@ {
            RelayStationAdapter::Yourapi
        } else if name == "custom"@ {
            RelayStationAdapter::Custom
        } else {
            RelayStationAdapter::Newapi
        }
    }

    pub open spec fn spec_name(self) -> Seq<char> {
        match self {
            RelayStationAdapter::Newapi => "newapi"@,
            RelayStationAdapter::Oneapi => "oneapi"@,
            RelayStationAdapter::Yourapi => "yourapi"@,
            RelayStationAdapter::Custom => "custom"@,
        }
    }

    pub fn from_name(name: &str) -> (r: RelayStationAdapter)
        ensures
            r == Self::spec_from_name(name@),
    {
        if str_eq(name, "newapi") {
            RelayStationAdapter::Newapi
        } else if str_eq(name, "oneapi") {
            RelayStationAdapter::Oneapi
        } else if str_eq(name, "yourapi") {
            RelayStationAdapter::Yourapi
        } else if str_eq(name, "custom") {
            RelayStationAdapter::Custom
        } else {
            RelayStationAdapter::Newapi
        }
    }

    pub fn name(&self) -> (r: &'static str)
        ensures
            r@ == self.spec_name(),
    {
        match self {
            RelayStationAdapter::Newapi => "newapi",
            RelayStationAdapter::Oneapi => "oneapi",
            RelayStationAdapter::Yourapi => "yourapi",
            RelayStationAdapter::Custom => "custom",
        }
    }

    /// A name read back gives the adapter it was written for.
    pub proof fn lemma_name_round_trip(self)
        ensures
            Self::spec_from_name(self.spec_name()) == self,
    {
        reveal_strlit("newapi");
        reveal_strlit("oneapi");
        reveal_strlit("yourapi");
        reveal_strlit("custom");
        assert("oneapi"@[0] == 'o');
        assert("yourapi"@[0] == 'y');
        assert("custom"@[0] == 'c');
    }
}

impl AuthMethod {
    /// The method that a stored name stands for; a name that is none of the
    /// three known ones stands for `BearerToken`.
    pub open spec fn spec_from_name(name: Seq<char>) -> AuthMethod {
        if name == "bearer_token"@ {
            AuthMethod::BearerToken
        } else if name == "api_key"@ {
            AuthMethod::ApiKey
        } else if name == "custom"@ {
            AuthMethod::Custom
        } else {
            AuthMethod::BearerToken
        }
    }

    pub open spec fn spec_name(self) -> Seq<char> {
        match self {
            AuthMethod::BearerToken => "bearer_token"@,
            AuthMethod::ApiKey => "api_key"@,
            AuthMethod::Custom => "custom"@,
        }
    }

    pub fn from_name(name: &str) -> (r: AuthMethod)
        ensures
            r == Self::spec_from_name(name@),
    {
        if str_eq(name, "bearer_token") {
            AuthMethod::BearerToken
        } else if str_eq(name, "api_key") {
            AuthMethod::ApiKey
        } else if str_eq(name, "custom") {
            AuthMethod::Custom
        } else {
            AuthMethod::BearerToken
        }
    }

    pub fn name(&self) -> (r: &'static str)
        ensures
            r@ == self.spec_name(),
    {
        match self {
            AuthMethod::BearerToken => "bearer_token",
            AuthMethod::ApiKey => "api_key",
            AuthMethod::Custom => "custom",
        }
    }

    /// A name read back gives the method it was written for.
    pub proof fn lemma_name_round_trip(self)
        ensures
            Self::spec_from_name(self.spec_name()) == self,
    {
        reveal_strlit("bearer_token");
        reveal_strlit("api_key");
        reveal_strlit("custom");
        assert("api_key"@[0] == 'a');
        assert("custom"@[0] == 'c');
    }
}

// ---------------------------------------------------------------------------
// Stations
// ---------------------------------------------------------------------------

/// What a user gives to create a station: a station without its generated
/// fields.
#[derive(Debug, PartialEq, Eq)]
pub struct CreateRelayStationRequest {
    pub name: String,
    pub description: Option<String>,
    pub api_url: String,
    pub adapter: RelayStationAdapter,
    pub auth_method: AuthMethod,
    pub system_token: String,
    pub user_id: Option<String>,
    pub adapter_config: Option<Vec<(String, Json)>>,
    pub enabled: bool,
}

/// The fields of a station that a user chooses.
pub struct StationFields {
    pub name: Seq<char>,
    pub description: Option<Seq<char>>,
    pub api_url: Seq<char>,
    pub adapter: RelayStationAdapter,
    pub auth_method: AuthMethod,
    pub system_token: Seq<char>,
    pub user_id: Option<Seq<char>>,
    pub adapter_config: Option<Fields>,
    pub enabled: bool,
}

impl DeepView for CreateRelayStationRequest {
    type V = StationFields;

    open spec fn deep_view(&self) -> StationFields {
        StationFields {
            name: self.name@,
            description: self.description.deep_view(),
            api_url: self.api_url@,
            adapter: self.adapter,
            auth_method: self.auth_method,
            system_token: self.system_token@,
            user_id: self.user_id.deep_view(),
            adapter_config: self.adapter_config.deep_view(),
            enabled: self.enabled,
        }
    }
}

/// A configured provider.
#[derive(Debug, PartialEq, Eq)]
pub struct RelayStation {
    pub id: String,
    pub name: String,
    pub description: Option<String>,
    pub api_url: String,
    pub adapter: RelayStationAdapter,
    pub auth_method: AuthMethod,
    pub system_token: String,
    pub user_id: Option<String>,
    pub adapter_config: Option<Vec<(String, Json)>>,
    pub enabled: bool,
    pub created_at: i64,
    pub updated_at: i64,
}

pub struct RelayStationV {
    pub id: Seq<char>,
    pub fields: StationFields,
    pub created_at: i64,
    pub updated_at: i64,
}

impl DeepView for RelayStation {
    type V = RelayStationV;

    open spec fn deep_view(&self) -> RelayStationV {
        RelayStationV {
            id: self.id@,
            fields: StationFields {
                name: self.name@,
                description: self.description.deep_view(),
                api_url: self.api_url@,
                adapter: self.adapter,
                auth_method: self.auth_method,
                system_token: self.system_token@,
                user_id: self.user_id.deep_view(),
                adapter_config: self.adapter_config.deep_view(),
                enabled: self.enabled,
            },
            created_at: self.created_at,
            updated_at: self.updated_at,
        }
    }
}

impl RelayStationV {
    /// The tenant that a call to the station's management API is made for:
    /// the station's user id, or `"1"` where it has none.
    pub open spec fn tenant(self) -> Seq<char> {
        match self.fields.user_id {
            Some(id) => id,
            None => "1"@,
        }
    }
}

impl RelayStation {
    pub fn clone_station(&self) -> (r: RelayStation)
        ensures
            r.deep_view() == self.deep_view(),
    {
        RelayStation {
            id: self.id.clone(),
            name: self.name.clone(),
            description: clone_opt_string(&self.description),
            api_url: self.api_url.clone(),
            adapter: self.adapter,
            auth_method: self.auth_method,
            system_token: self.system_token.clone(),
            user_id: clone_opt_string(&self.user_id),
            adapter_config: clone_opt_fields(&self.adapter_config),
            enabled: self.enabled,
            created_at: self.created_at,
            updated_at: self.updated_at,
        }
    }

    /// The tenant header's value: the station's user id, or `"1"`.
    pub fn tenant(&self) -> (r: &str)
        ensures
            r@ == self.deep_view().tenant(),
    {
        match &self.user_id {
            Some(id) => id.as_str(),
            None => "1",
        }
    }

    /// The station that a request creates, with the generated fields given.
    pub fn from_request(request: CreateRelayStationRequest, id: String, now: i64) -> (r: RelayStation)
        ensures
            r.deep_view() == (RelayStationV {
                id: id@,
                fields: request.deep_view(),
                created_at: now,
                updated_at: now,
            }),
    {
        RelayStation {
            id,
            name: request.name,
            description: request.description,
            api_url: request.api_url,
            adapter: request.adapter,
            auth_method: request.auth_method,
            system_token: request.system_token,
            user_id: request.user_id,
            adapter_config: request.adapter_config,
            enabled: request.enabled,
            created_at: now,
            updated_at: now,
        }
    }
}

// ---------------------------------------------------------------------------
// What an adapter reports
// ---------------------------------------------------------------------------

/// What a station says about itself.
#[derive(Debug, PartialEq, Eq)]
pub struct StationInfo {
    pub name: String,
    pub announcement: Option<String>,
    pub api_url: String,
    pub version: Option<String>,
    pub metadata: Option<Vec<(String, Json)>>,
    pub quota_per_unit: Option<i64>,
}

pub struct StationInfoV {
    pub name: Seq<char>,
    pub announcement: Option<Seq<char>>,
    pub api_url: Seq<char>,
    pub version: Option<Seq<char>>,
    pub metadata: Option<Fields>,
    pub quota_per_unit: Option<i64>,
}

impl DeepView for StationInfo {
    type V = StationInfoV;

    open spec fn deep_view(&self) -> StationInfoV {
        StationInfoV {
            name: self.name@,
            announcement: self.announcement.deep_view(),
            api_url: self.api_url@,
            version: self.version.deep_view(),
            metadata: self.metadata.deep_view(),
            quota_per_unit: self.quota_per_unit,
        }
    }
}

/// An API key that lives at the provider. It is fetched, never stored.
#[derive(Debug, PartialEq, Eq)]
pub struct RelayStationToken {
    pub id: String,
    pub station_id: String,
    pub name: String,
    pub token: String,
    pub user_id: Option<String>,
    pub enabled: bool,
    /// Seconds since the epoch; `None` for a token that never expires.
    pub expires_at: Option<i64>,
    pub group: Option<String>,
    pub remain_quota: Option<i64>,
    pub unlimited_quota: Option<bool>,
    pub metadata: Option<Vec<(String, Json)>>,
    pub created_at: i64,
}

pub struct RelayStationTokenV {
    pub id: Seq<char>,
    pub station_id: Seq<char>,
    pub name: Seq<char>,
    pub token: Seq<char>,
    pub user_id: Option<Seq<char>>,
    pub enabled: bool,
    pub expires_at: Option<i64>,
    pub group: Option<Seq<char>>,
    pub remain_quota: Option<i64>,
    pub unlimited_quota: Option<bool>,
    pub metadata: Option<Fields>,
    pub created_at: i64,
}

impl DeepView for RelayStationToken {
    type V = RelayStationTokenV;

    open spec fn deep_view(&self) -> RelayStationTokenV {
        RelayStationTokenV {
            id: self.id@,
            station_id: self.station_id@,
            name: self.name@,
            token: self.token@,
            user_id: self.user_id.deep_view(),
            enabled: self.enabled,
            expires_at: self.expires_at,
            group: self.group.deep_view(),
            remain_quota: self.remain_quota,
            unlimited_quota: self.unlimited_quota,
            metadata: self.metadata.deep_view(),
            created_at: self.created_at,
        }
    }
}

/// An account at a station. The two amounts are in quota units, of which
/// `QUOTA_PER_UNIT` make one currency unit.
#[derive(Debug, PartialEq, Eq)]
pub struct UserInfo {
    pub user_id: String,
    pub username: Option<String>,
    pub email: Option<String>,
    pub balance_remaining: Option<i64>,
    pub amount_used: Option<i64>,
    pub request_count: Option<i64>,
    pub status: Option<String>,
    pub metadata: Option<Vec<(String, Json)>>,
}

pub struct UserInfoV {
    pub user_id: Seq<char>,
    pub username: Option<Seq<char>>,
    pub email: Option<Seq<char>>,
    pub balance_remaining: Option<i64>,
    pub amount_used: Option<i64>,
    pub request_count: Option<i64>,
    pub status: Option<Seq<char>>,
    pub metadata: Option<Fields>,
}

impl DeepView for UserInfo {
    type V = UserInfoV;

    open spec fn deep_view(&self) -> UserInfoV {
        UserInfoV {
            user_id: self.user_id@,
            username: self.username.deep_view(),
            email: self.email.deep_view(),
            balance_remaining: self.balance_remaining,
            amount_used: self.amount_used,
            request_count: self.request_count,
            status: self.status.deep_view(),
            metadata: self.metadata.deep_view(),
        }
    }
}

/// Whole currency units in an amount of quota, rounded towards zero.
pub open spec fn spec_whole_units(quota: int) -> int {
    if quota >= 0 {
        quota / 500000
    } else {
        -((-quota) / 500000)
    }
}

/// What an amount of quota holds beyond its whole units, in millionths of a
/// currency unit.
pub open spec fn spec_micro_units(quota: int) -> int {
    (quota - spec_whole_units(quota) * 500000) * 2
}

/// Whole currency units in an amount of quota.
pub fn whole_units(quota: i64) -> (r: i64)
    ensures
        r == spec_whole_units(quota as int),
{
    quota / QUOTA_PER_UNIT
}

/// Millionths of a currency unit beyond the whole units; with `whole_units`
/// it gives the amount exactly: `whole * 1_000_000 + micro == quota * 2`.
pub fn micro_units(quota: i64) -> (r: i64)
    ensures
        r == spec_micro_units(quota as int),
        spec_whole_units(quota as int) * 1_000_000 + r == quota * 2,
        -1_000_000 < r < 1_000_000,
{
    (quota % QUOTA_PER_UNIT) * 2
}

/// One line of a station's usage log.
#[derive(Debug, PartialEq, Eq)]
pub struct StationLogEntry {
    pub id: String,
    pub timestamp: i64,
    pub level: String,
    pub message: String,
    pub user_id: Option<String>,
    pub request_id: Option<String>,
    pub metadata: Option<Vec<(String, Json)>>,
    pub model_name: Option<String>,
    pub prompt_tokens: Option<i64>,
    pub completion_tokens: Option<i64>,
    pub quota: Option<i64>,
    pub token_name: Option<String>,
    pub use_time: Option<i64>,
    pub is_stream: Option<bool>,
    pub channel: Option<i64>,
    pub group: Option<String>,
}

pub struct StationLogEntryV {
    pub id: Seq<char>,
    pub timestamp: i64,
    pub level: Seq<char>,
    pub message: Seq<char>,
    pub user_id: Option<Seq<char>>,
    pub request_id: Option<Seq<char>>,
    pub metadata: Option<Fields>,
    pub model_name: Option<Seq<char>>,
    pub prompt_tokens: Option<i64>,
    pub completion_tokens: Option<i64>,
    pub quota: Option<i64>,
    pub token_name: Option<Seq<char>>,
    pub use_time: Option<i64>,
    pub is_stream: Option<bool>,
    pub channel: Option<i64>,
    pub group: Option<Seq<char>>,
}

impl DeepView for StationLogEntry {
    type V = StationLogEntryV;

    open spec fn deep_view(&self) -> StationLogEntryV {
        StationLogEntryV {
            id: self.id@,
            timestamp: self.timestamp,
            level: self.level@,
            message: self.message@,
            user_id: self.user_id.deep_view(),
            request_id: self.request_id.deep_view(),
            metadata: self.metadata.deep_view(),
            model_name: self.model_name.deep_view(),
            prompt_tokens: self.prompt_tokens,
            completion_tokens: self.completion_tokens,
            quota: self.quota,
            token_name: self.token_name.deep_view(),
            use_time: self.use_time,
            is_stream: self.is_stream,
            channel: self.channel,
            group: self.group.deep_view(),
        }
    }
}

/// One page of log lines.
#[derive(Debug, PartialEq, Eq)]
pub struct LogPaginationResponse {
    pub items: Vec<StationLogEntry>,
    pub page: usize,
    pub page_size: usize,
    pub total: i64,
}

pub struct LogPaginationResponseV {
    pub items: Seq<StationLogEntryV>,
    pub page: usize,
    pub page_size: usize,
    pub total: i64,
}

impl DeepView for LogPaginationResponse {
    type V = LogPaginationResponseV;

    open spec fn deep_view(&self) -> LogPaginationResponseV {
        LogPaginationResponseV {
            items: self.items.deep_view(),
            page: self.page,
            page_size: self.page_size,
            total: self.total,
        }
    }
}

/// One page of tokens.
#[derive(Debug, PartialEq, Eq)]
pub struct TokenPaginationResponse {
    pub items: Vec<RelayStationToken>,
    pub page: usize,
    pub page_size: usize,
    pub total: i64,
}

pub struct TokenPaginationResponseV {
    pub items: Seq<RelayStationTokenV>,
    pub page: usize,
    pub page_size: usize,
    pub total: i64,
}

impl DeepView for TokenPaginationResponse {
    type V = TokenPaginationResponseV;

    open spec fn deep_view(&self) -> TokenPaginationResponseV {
        TokenPaginationResponseV {
            items: self.items.deep_view(),
            page: self.page,
            page_size: self.page_size,
            total: self.total,
        }
    }
}

/// How a connection test ended. A test never fails as a call: what went wrong
/// is in `message`.
#[derive(Debug, PartialEq, Eq)]
pub struct ConnectionTestResult {
    pub success: bool,
    /// Milliseconds until the station answered.
    pub response_time: Option<u64>,
    pub message: String,
    pub status_code: Option<u16>,
    pub details: Option<Vec<(String, Json)>>,
}

pub struct ConnectionTestResultV {
    pub success: bool,
    pub response_time: Option<u64>,
    pub message: Seq<char>,
    pub status_code: Option<u16>,
    pub details: Option<Fields>,
}

impl DeepView for ConnectionTestResult {
    type V = ConnectionTestResultV;

    open spec fn deep_view(&self) -> ConnectionTestResultV {
        ConnectionTestResultV {
            success: self.success,
            response_time: self.response_time,
            message: self.message@,
            status_code: self.status_code,
            details: self.details.deep_view(),
        }
    }
}

// ---------------------------------------------------------------------------
// Token requests
// ---------------------------------------------------------------------------

/// What a user gives to create a token.
#[derive(Debug, Clone, PartialEq, Eq)]
pub struct CreateTokenRequest {
    pub name: String,
    pub remain_quota: Option<i64>,
    pub expired_time: Option<i64>,
    pub unlimited_quota: Option<bool>,
    pub model_limits_enabled: Option<bool>,
    pub model_limits: Option<String>,
    pub group: Option<String>,
    pub allow_ips: Option<String>,
}

pub struct CreateTokenRequestV {
    pub name: Seq<char>,
    pub remain_quota: Option<i64>,
    pub expired_time: Option<i64>,
    pub unlimited_quota: Option<bool>,
    pub model_limits_enabled: Option<bool>,
    pub model_limits: Option<Seq<char>>,
    pub group: Option<Seq<char>>,
    pub allow_ips: Option<Seq<char>>,
}

impl DeepView for CreateTokenRequest {
    type V = CreateTokenRequestV;

    open spec fn deep_view(&self) -> CreateTokenRequestV {
        CreateTokenRequestV {
            name: self.name@,
            remain_quota: self.remain_quota,
            expired_time: self.expired_time,
            unlimited_quota: self.unlimited_quota,
            model_limits_enabled: self.model_limits_enabled,
            model_limits: self.model_limits.deep_view(),
            group: self.group.deep_view(),
            allow_ips: self.allow_ips.deep_view(),
        }
    }
}

/// What a user gives to change a token: only the fields that are present
/// are sent.
#[derive(Debug, Clone, PartialEq, Eq)]
pub struct UpdateTokenRequest {
    pub id: i64,
    pub name: Option<String>,
    pub remain_quota: Option<i64>,
    pub expired_time: Option<i64>,
    pub unlimited_quota: Option<bool>,
    pub model_limits_enabled: Option<bool>,
    pub model_limits: Option<String>,
    pub group: Option<String>,
    pub allow_ips: Option<String>,
    pub enabled: Option<bool>,
}

pub struct UpdateTokenRequestV {
    pub id: i64,
    pub name: Option<Seq<char>>,
    pub remain_quota: Option<i64>,
    pub expired_time: Option<i64>,
    pub unlimited_quota: Option<bool>,
    pub model_limits_enabled: Option<bool>,
    pub model_limits: Option<Seq<char>>,
    pub group: Option<Seq<char>>,
    pub allow_ips: Option<Seq<char>>,
    pub enabled: Option<bool>,
}

impl DeepView for UpdateTokenRequest {
    type V = UpdateTokenRequestV;

    open spec fn deep_view(&self) -> UpdateTokenRequestV {
        UpdateTokenRequestV {
            id: self.id,
            name: self.name.deep_view(),
            remain_quota: self.remain_quota,
            expired_time: self.expired_time,
            unlimited_quota: self.unlimited_quota,
            model_limits_enabled: self.model_limits_enabled,
            model_limits: self.model_limits.deep_view(),
            group: self.group.deep_view(),
            allow_ips: self.allow_ips.deep_view(),
            enabled: self.enabled,
        }
    }
}

/// An endpoint that a station offers.
#[derive(Debug, Clone, PartialEq, Eq)]
pub struct ApiEndpoint {
    pub id: i32,
    pub route: String,
    pub url: String,
    pub description: String,
    pub color: String,
}

pub struct ApiEndpointV {
    pub id: i32,
    pub route: Seq<char>,
    pub url: Seq<char>,
    pub description: Seq<char>,
    pub color: Seq<char>,
}

impl DeepView for ApiEndpoint {
    type V = ApiEndpointV;

    open spec fn deep_view(&self) -> ApiEndpointV {
        ApiEndpointV {
            id: self.id,
            route: self.route@,
            url: self.url@,
            description: self.description@,
            color: self.color@,
        }
    }
}

// ---------------------------------------------------------------------------
// Saved configuration and usage
// ---------------------------------------------------------------------------

/// The endpoint, path and model that a user last saved for a station.
#[derive(Debug, PartialEq, Eq)]
pub struct RelayStationConfig {
    pub station_id: String,
    pub station_name: String,
    pub api_endpoint: String,
    pub custom_endpoint: Option<String>,
    pub path: Option<String>,
    pub model: Option<String>,
    pub saved_settings: Option<Vec<(String, Json)>>,
    pub created_at: i64,
    pub updated_at: i64,
}

pub struct RelayStationConfigV {
    pub station_id: Seq<char>,
    pub station_name: Seq<char>,
    pub api_endpoint: Seq<char>,
    pub custom_endpoint: Option<Seq<char>>,
    pub path: Option<Seq<char>>,
    pub model: Option<Seq<char>>,
    pub saved_settings: Option<Fields>,
    pub created_at: i64,
    pub updated_at: i64,
}

impl DeepView for RelayStationConfig {
    type V = RelayStationConfigV;

    open spec fn deep_view(&self) -> RelayStationConfigV {
        RelayStationConfigV {
            station_id: self.station_id@,
            station_name: self.station_name@,
            api_endpoint: self.api_endpoint@,
            custom_endpoint: self.custom_endpoint.deep_view(),
            path: self.path.deep_view(),
            model: self.model.deep_view(),
            saved_settings: self.saved_settings.deep_view(),
            created_at: self.created_at,
            updated_at: self.updated_at,
        }
    }
}

impl RelayStationConfig {
    pub fn clone_config(&self) -> (r: RelayStationConfig)
        ensures
            r.deep_view() == self.deep_view(),
    {
        RelayStationConfig {
            station_id: self.station_id.clone(),
            station_name: self.station_name.clone(),
            api_endpoint: self.api_endpoint.clone(),
            custom_endpoint: clone_opt_string(&self.custom_endpoint),
            path: clone_opt_string(&self.path),
            model: clone_opt_string(&self.model),
            saved_settings: clone_opt_fields(&self.saved_settings),
            created_at: self.created_at,
            updated_at: self.updated_at,
        }
    }
}

/// What a user gives to save a station's configuration.
#[derive(Debug, Clone, PartialEq, Eq)]
pub struct SaveStationConfigRequest {
    pub station_id: String,
    pub api_endpoint: String,
    pub custom_endpoint: Option<String>,
    pub path: Option<String>,
    pub model: Option<String>,
}

pub struct SaveStationConfigRequestV {
    pub station_id: Seq<char>,
    pub api_endpoint: Seq<char>,
    pub custom_endpoint: Option<Seq<char>>,
    pub path: Option<Seq<char>>,
    pub model: Option<Seq<char>>,
}

impl DeepView for SaveStationConfigRequest {
    type V = SaveStationConfigRequestV;

    open spec fn deep_view(&self) -> SaveStationConfigRequestV {
        SaveStationConfigRequestV {
            station_id: self.station_id@,
            api_endpoint: self.api_endpoint@,
            custom_endpoint: self.custom_endpoint.deep_view(),
            path: self.path.deep_view(),
            model: self.model.deep_view(),
        }
    }
}

/// The base URL and token that were last applied for a station, for display.
#[derive(Debug, Clone, PartialEq, Eq)]
pub struct ConfigUsageStatus {
    pub station_id: String,
    pub station_name: String,
    pub base_url: String,
    pub token: String,
    pub is_active: bool,
    pub applied_at: Option<i64>,
}

pub struct ConfigUsageStatusV {
    pub station_id: Seq<char>,
    pub station_name: Seq<char>,
    pub base_url: Seq<char>,
    pub token: Seq<char>,
    pub is_active: bool,
    pub applied_at: Option<i64>,
}

impl DeepView for ConfigUsageStatus {
    type V = ConfigUsageStatusV;

    open spec fn deep_view(&self) -> ConfigUsageStatusV {
        ConfigUsageStatusV {
            station_id: self.station_id@,
            station_name: self.station_name@,
            base_url: self.base_url@,
            token: self.token@,
            is_active: self.is_active,
            applied_at: self.applied_at,
        }
    }
}

// ---------------------------------------------------------------------------
// Export and import
// ---------------------------------------------------------------------------

/// A station as it is exported: without id and timestamps, secrets in plain
/// text.
#[derive(Debug, PartialEq, Eq)]
pub struct RelayStationExportItem {
    pub name: String,
    pub description: Option<String>,
    pub api_url: String,
    pub adapter: RelayStationAdapter,
    pub auth_method: AuthMethod,
    pub system_token: String,
    pub user_id: Option<String>,
    pub adapter_config: Option<Vec<(String, Json)>>,
    pub enabled: bool,
}

impl DeepView for RelayStationExportItem {
    type V = StationFields;

    open spec fn deep_view(&self) -> StationFields {
        StationFields {
            name: self.name@,
            description: self.description.deep_view(),
            api_url: self.api_url@,
            adapter: self.adapter,
            auth_method: self.auth_method,
            system_token: self.system_token@,
            user_id: self.user_id.deep_view(),
            adapter_config: self.adapter_config.deep_view(),
            enabled: self.enabled,
        }
    }
}

impl RelayStationExportItem {
    /// The exported form of a station.
    pub fn of_station(station: &RelayStation) -> (r: RelayStationExportItem)
        ensures
            r.deep_view() == station.deep_view().fields,
    {
        RelayStationExportItem {
            name: station.name.clone(),
            description: clone_opt_string(&station.description),
            api_url: station.api_url.clone(),
            adapter: station.adapter,
            auth_method: station.auth_method,
            system_token: station.system_token.clone(),
            user_id: clone_opt_string(&station.user_id),
            adapter_config: clone_opt_fields(&station.adapter_config),
            enabled: station.enabled,
        }
    }
}

/// A snapshot of stations.
#[derive(Debug, PartialEq, Eq)]
pub struct RelayStationExport {
    pub version: u32,
    pub exported_at: i64,
    pub stations: Vec<RelayStationExportItem>,
}

pub struct RelayStationExportV {
    pub version: u32,
    pub exported_at: i64,
    pub stations: Seq<StationFields>,
}

impl DeepView for RelayStationExport {
    type V = RelayStationExportV;

    open spec fn deep_view(&self) -> RelayStationExportV {
        RelayStationExportV {
            version: self.version,
            exported_at: self.exported_at,
            stations: self.stations.deep_view(),
        }
    }
}

} // verus!
