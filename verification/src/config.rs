//! Application configuration: its sections, their defaults, the
//! environment overrides, and the outcome messages of the connection
//! tests.
use vstd::prelude::*;

use crate::text::{concat2, owned, trim, trim_seq};

verus! {

/// The whole configuration file.
#[derive(Debug, Clone)]
pub struct AppConfig {
    pub openclaw: OpenClawConfig,
    pub llm: LlmConfig,
    pub app: AppSettings,
}

/// How to reach the OpenClaw gateway.
#[derive(Debug, Clone)]
pub struct OpenClawConfig {
    pub gateway_url: String,
    pub auth_token: String,
    pub auto_connect: bool,
    pub request_timeout_secs: u64,
    pub device_identity: DeviceIdentity,
}

/// The identity this device presents to the gateway.
#[derive(Debug, Clone)]
pub struct DeviceIdentity {
    pub fingerprint: String,
    pub public_key: String,
    pub signature: String,
}

/// Which LLM to use and how. The sampling temperature, a float, is kept
/// by the application shell next to this record.
#[derive(Debug, Clone)]
pub struct LlmConfig {
    pub provider: LlmProviderType,
    pub model: String,
    pub api_key: String,
    pub base_url: String,
    pub max_tokens: u32,
    pub streaming: bool,
}

/// The kind of LLM service a configuration points at.
#[derive(Debug, Clone, Copy, PartialEq, Eq, Structural)]
pub enum LlmProviderType {
    OpenAi,
    Anthropic,
    Local,
}

/// The text form of a LlmProviderType.
pub open spec fn llm_provider_type_name(t: LlmProviderType) -> Seq<char> {
    match t {
        LlmProviderType::OpenAi => "openai"@,
        LlmProviderType::Anthropic => "anthropic"@,
        LlmProviderType::Local => "local"@,
    }
}

/// The text forms of the model providers are fixed: `openai`,
/// `anthropic`, `local`, in the order of the variants.
pub proof fn law_llm_provider_type_texts(t: LlmProviderType)
    ensures
        t == LlmProviderType::OpenAi ==> llm_provider_type_name(t) == "openai"@,
        t == LlmProviderType::Anthropic ==> llm_provider_type_name(t) == "anthropic"@,
        t == LlmProviderType::Local ==> llm_provider_type_name(t) == "local"@,
{
}

impl LlmProviderType {
    /// The text form of this value.
    pub fn as_str(&self) -> (r: &'static str)
        ensures
            r@ == llm_provider_type_name(*self),
    {
        match self {
            LlmProviderType::OpenAi => "openai",
            LlmProviderType::Anthropic => "anthropic",
            LlmProviderType::Local => "local",
        }
    }
}


/// General application settings.
#[derive(Debug, Clone)]
pub struct AppSettings {
    pub database_path: String,
    pub max_concurrent_agents: u32,
    pub log_level: String,
}

/// The outcome of a connection test, as the settings page shows it.
#[derive(Debug, Clone, PartialEq, Eq)]
pub struct ConnectionTestResult {
    pub success: bool,
    pub message: String,
    pub latency_ms: Option<u64>,
}

/// The gateway address used when none is configured.
pub fn default_gateway_url() -> (s: String)
    ensures
        s@ == "ws://localhost:9090/gateway"@,
{
    owned("ws://localhost:9090/gateway")
}

/// The request timeout, in seconds, used when none is configured.
pub fn default_timeout() -> (t: u64)
    ensures
        t == 30,
{
    30
}

/// The LLM service used when none is configured.
pub fn default_llm_provider() -> (p: LlmProviderType)
    ensures
        p == LlmProviderType::OpenAi,
{
    LlmProviderType::OpenAi
}

/// The model used when none is configured.
pub fn default_llm_model() -> (s: String)
    ensures
        s@ == "gpt-4o"@,
{
    owned("gpt-4o")
}

/// The completion length limit used when none is configured.
pub fn default_max_tokens() -> (n: u32)
    ensures
        n == 4096,
{
    4096
}

/// Whether responses are streamed when nothing is configured.
pub fn default_streaming() -> (b: bool)
    ensures
        b,
{
    true
}

/// How many agents may run at once when nothing is configured.
pub fn default_max_concurrent_agents() -> (n: u32)
    ensures
        n == 3,
{
    3
}

/// The log level used when none is configured.
pub fn default_log_level() -> (s: String)
    ensures
        s@ == "info"@,
{
    owned("info")
}

impl Default for DeviceIdentity {
    fn default() -> (d: DeviceIdentity)
        ensures
            d.fingerprint@ == Seq::<char>::empty(),
            d.public_key@ == Seq::<char>::empty(),
            d.signature@ == Seq::<char>::empty(),
    {
        DeviceIdentity { fingerprint: String::new(), public_key: String::new(), signature: String::new() }
    }
}

impl Default for OpenClawConfig {
    fn default() -> (c: OpenClawConfig)
        ensures
            c.gateway_url@ == "ws://localhost:9090/gateway"@,
            c.auth_token@ == Seq::<char>::empty(),
            !c.auto_connect,
            c.request_timeout_secs == 30,
            c.device_identity.fingerprint@ == Seq::<char>::empty(),
            c.device_identity.public_key@ == Seq::<char>::empty(),
            c.device_identity.signature@ == Seq::<char>::empty(),
    {
        OpenClawConfig {
            gateway_url: default_gateway_url(),
            auth_token: String::new(),
            auto_connect: false,
            request_timeout_secs: default_timeout(),
            device_identity: DeviceIdentity::default(),
        }
    }
}

impl Default for LlmConfig {
    fn default() -> (c: LlmConfig)
        ensures
            c.provider == LlmProviderType::OpenAi,
            c.model@ == "gpt-4o"@,
            c.api_key@ == Seq::<char>::empty(),
            c.base_url@ == Seq::<char>::empty(),
            c.max_tokens == 4096,
            c.streaming,
    {
        LlmConfig {
            provider: default_llm_provider(),
            model: default_llm_model(),
            api_key: String::new(),
            base_url: String::new(),
            max_tokens: default_max_tokens(),
            streaming: default_streaming(),
        }
    }
}

impl Default for AppSettings {
    fn default() -> (s: AppSettings)
        ensures
            s.database_path@ == Seq::<char>::empty(),
            s.max_concurrent_agents == 3,
            s.log_level@ == "info"@,
    {
        AppSettings {
            database_path: String::new(),
            max_concurrent_agents: default_max_concurrent_agents(),
            log_level: default_log_level(),
        }
    }
}

impl Default for AppConfig {
    fn default() -> (c: AppConfig)
        ensures
            c.openclaw.gateway_url@ == "ws://localhost:9090/gateway"@,
            c.openclaw.auth_token@ == Seq::<char>::empty(),
            !c.openclaw.auto_connect,
            c.openclaw.request_timeout_secs == 30,
            c.openclaw.device_identity.fingerprint@ == Seq::<char>::empty(),
            c.openclaw.device_identity.public_key@ == Seq::<char>::empty(),
            c.openclaw.device_identity.signature@ == Seq::<char>::empty(),
            c.llm.provider == LlmProviderType::OpenAi,
            c.llm.model@ == "gpt-4o"@,
            c.llm.api_key@ == Seq::<char>::empty(),
            c.llm.base_url@ == Seq::<char>::empty(),
            c.llm.max_tokens == 4096,
            c.llm.streaming,
            c.app.database_path@ == Seq::<char>::empty(),
            c.app.max_concurrent_agents == 3,
            c.app.log_level@ == "info"@,
    {
        AppConfig {
            openclaw: OpenClawConfig::default(),
            llm: LlmConfig::default(),
            app: AppSettings::default(),
        }
    }
}

/// Values read from the environment that take precedence over the file:
/// `RYG_OPENCLAW_URL`, `RYG_OPENCLAW_AUTH_TOKEN`, `RYG_LLM_API_KEY`,
/// `RYG_LLM_BASE_URL`, `RYG_LLM_MODEL` and `RYG_LOG_LEVEL`, each `None`
/// where the variable is not set.
#[derive(Debug, Clone)]
pub struct EnvOverrides {
    pub openclaw_url: Option<String>,
    pub openclaw_auth_token: Option<String>,
    pub llm_api_key: Option<String>,
    pub llm_base_url: Option<String>,
    pub llm_model: Option<String>,
    pub log_level: Option<String>,
}

/// The view of a string after an optional override.
pub open spec fn overridden(current: String, over: Option<String>) -> Seq<char> {
    match over {
        Some(v) => v@,
        None => current@,
    }
}

fn take_override(current: String, over: Option<String>) -> (r: String)
    ensures
        r@ == overridden(current, over),
{
    match over {
        Some(v) => v,
        None => current,
    }
}

/// Applies the environment overrides: each variable that is set replaces
/// its field; every other field keeps its value from the file.
pub fn apply_env_overrides(config: AppConfig, env: EnvOverrides) -> (c: AppConfig)
    ensures
        c.openclaw.gateway_url@ == overridden(config.openclaw.gateway_url, env.openclaw_url),
        c.openclaw.auth_token@ == overridden(config.openclaw.auth_token, env.openclaw_auth_token),
        c.openclaw.auto_connect == config.openclaw.auto_connect,
        c.openclaw.request_timeout_secs == config.openclaw.request_timeout_secs,
        c.openclaw.device_identity == config.openclaw.device_identity,
        c.llm.provider == config.llm.provider,
        c.llm.model@ == overridden(config.llm.model, env.llm_model),
        c.llm.api_key@ == overridden(config.llm.api_key, env.llm_api_key),
        c.llm.base_url@ == overridden(config.llm.base_url, env.llm_base_url),
        c.llm.max_tokens == config.llm.max_tokens,
        c.llm.streaming == config.llm.streaming,
        c.app.database_path == config.app.database_path,
        c.app.max_concurrent_agents == config.app.max_concurrent_agents,
        c.app.log_level@ == overridden(config.app.log_level, env.log_level),
{
    let AppConfig { openclaw, llm, app } = config;
    let OpenClawConfig { gateway_url, auth_token, auto_connect, request_timeout_secs, device_identity } = openclaw;
    let LlmConfig { provider, model, api_key, base_url, max_tokens, streaming } = llm;
    let AppSettings { database_path, max_concurrent_agents, log_level } = app;
    let EnvOverrides { openclaw_url, openclaw_auth_token, llm_api_key, llm_base_url, llm_model, log_level: level } = env;
    AppConfig {
        openclaw: OpenClawConfig {
            gateway_url: take_override(gateway_url, openclaw_url),
            auth_token: take_override(auth_token, openclaw_auth_token),
            auto_connect,
            request_timeout_secs,
            device_identity,
        },
        llm: LlmConfig {
            provider,
            model: take_override(model, llm_model),
            api_key: take_override(api_key, llm_api_key),
            base_url: take_override(base_url, llm_base_url),
            max_tokens,
            streaming,
        },
        app: AppSettings {
            database_path,
            max_concurrent_agents,
            log_level: take_override(log_level, level),
        },
    }
}

/// The database file named in the settings, or `None` where the setting
/// is empty and the default file in the configuration directory is used.
pub fn configured_database_path(config: &AppConfig) -> (p: Option<String>)
    ensures
        p is None <==> config.app.database_path@.len() == 0,
        p matches Some(s) ==> s@ == config.app.database_path@,
{
    if config.app.database_path.as_str().unicode_len() == 0 {
        None
    } else {
        Some(config.app.database_path.clone())
    }
}

/// The file name of the default database inside the configuration
/// directory.
pub fn default_database_file_name() -> (s: &'static str)
    ensures
        s@ == "after-done.db"@,
{
    "after-done.db"
}

/// The message of a gateway connection test.
pub open spec fn gateway_test_message(outcome: Result<Option<String>, String>) -> Seq<char> {
    match outcome {
        Ok(Some(v)) => "Successfully connected to OpenClaw Gateway"@ + " (version: "@ + v@ + ")"@,
        Ok(None) => "Successfully connected to OpenClaw Gateway"@,
        Err(e) => "Failed to connect: "@ + e@,
    }
}

/// The message of an LLM connection test that reached the service.
pub open spec fn llm_test_message(outcome: Result<String, String>) -> Seq<char> {
    match outcome {
        Ok(text) => "LLM connection successful. Response: "@ + trim_seq(text@),
        Err(e) => "LLM connection failed: "@ + e@,
    }
}

impl ConnectionTestResult {
    /// The result of a gateway connection test, given what connecting did:
    /// `Ok` with the gateway version where it reported one, or the error
    /// text; and how long it took.
    pub fn gateway_outcome(outcome: Result<Option<String>, String>, latency_ms: u64) -> (r: ConnectionTestResult)
        ensures
            r.success == outcome is Ok,
            r.message@ == gateway_test_message(outcome),
            r.latency_ms == Some(latency_ms),
    {
        let message = match &outcome {
            Ok(Some(v)) => {
                let mut m = owned("Successfully connected to OpenClaw Gateway");
                m.append(" (version: ");
                m.append(v.as_str());
                m.append(")");
                m
            },
            Ok(None) => owned("Successfully connected to OpenClaw Gateway"),
            Err(e) => concat2("Failed to connect: ", e.as_str()),
        };
        ConnectionTestResult { success: outcome.is_ok(), message, latency_ms: Some(latency_ms) }
    }

    /// The result of an LLM connection test where no API key is set: the
    /// service is not contacted.
    pub fn llm_missing_key() -> (r: ConnectionTestResult)
        ensures
            !r.success,
            r.message@ == "API key is not configured"@,
            r.latency_ms is None,
    {
        ConnectionTestResult { success: false, message: owned("API key is not configured"), latency_ms: None }
    }

    /// The result of an LLM connection test, given the reply text or the
    /// error text, and how long it took.
    pub fn llm_outcome(outcome: Result<String, String>, latency_ms: u64) -> (r: ConnectionTestResult)
        ensures
            r.success == outcome is Ok,
            r.message@ == llm_test_message(outcome),
            r.latency_ms == Some(latency_ms),
    {
        let message = match &outcome {
            Ok(text) => {
                let t = trim(text.as_str());
                concat2("LLM connection successful. Response: ", t.as_str())
            },
            Err(e) => concat2("LLM connection failed: ", e.as_str()),
        };
        ConnectionTestResult { success: outcome.is_ok(), message, latency_ms: Some(latency_ms) }
    }

    /// The result that an LLM test gives without contacting the service,
    /// if any: only where the API key is empty.
    pub fn llm_precheck(config: &LlmConfig) -> (r: Option<ConnectionTestResult>)
        ensures
            r is Some <==> config.api_key@.len() == 0,
            r matches Some(t) ==> !t.success && t.message@ == "API key is not configured"@
                && t.latency_ms is None,
    {
        if config.api_key.as_str().unicode_len() == 0 {
            Some(Self::llm_missing_key())
        } else {
            None
        }
    }
}

} // verus!
