//! Runtime configuration values the TUI reads, and the built-in defaults.
use vstd::prelude::*;

verus! {

pub const DEFAULT_PROVIDER: &'static str = "lmstudio";
pub const DEFAULT_PROVIDER_DISPLAY: &'static str = "LM Studio";
pub const DEFAULT_BASE_URL: &'static str = "http://127.0.0.1:1234/v1";
pub const DEFAULT_MODEL: &'static str = "google/gemma-4-e4b";
pub const DEFAULT_CONTEXT_TOKENS: u32 = 8192;
pub const DEFAULT_MODE: &'static str = "Crew";
pub const DEFAULT_TOKEN_STATUS: &'static str = "tokens -";
pub const DEFAULT_RUNTIME_STATE: &'static str = "ready";
pub const SESSION_SAVED_LABEL: &'static str = "saved";
pub const GOODBYE_LABEL: &'static str = "See you next time.";
pub const APP_NAME: &'static str = "AhreumCode";
pub const KOREAN_VERSION_LINE: &'static str = "아름코드 v1.0.0";
pub const EPILOGUE_TIP_PREFIX: &'static str = "Tip: run ";
pub const EPILOGUE_TIP_COMMAND: &'static str = "ahreumcode";
pub const EPILOGUE_TIP_TEXT: &'static str = " to start again, or ";
pub const EPILOGUE_TIP_SESSIONS_COMMAND: &'static str = "/status";
pub const EPILOGUE_TIP_SUFFIX: &'static str = " to review the runtime.";

/// Where the configuration was loaded from.
#[derive(Clone, Copy, Debug, PartialEq, Eq, Structural)]
pub enum ConfigLoadSource {
    Defaults,
    WorkspaceFile,
}

impl ConfigLoadSource {
    pub open spec fn spec_as_str(self) -> Seq<char> {
        match self {
            ConfigLoadSource::Defaults => "defaults"@,
            ConfigLoadSource::WorkspaceFile => "workspace"@,
        }
    }

    pub fn as_str(self) -> (r: &'static str)
        ensures
            r@ == self.spec_as_str(),
    {
        match self {
            ConfigLoadSource::Defaults => "defaults",
            ConfigLoadSource::WorkspaceFile => "workspace",
        }
    }
}

pub struct ModeConfig {
    pub default: String,
}

pub struct ProviderConfig {
    pub active: String,
    pub model: String,
    pub base_url: String,
    pub context_tokens: u32,
}

pub struct WebConfig {
    pub enabled: bool,
}

pub struct LimitsConfig {
    pub command_timeout_ms: u32,
    pub max_same_tool_repeats: u16,
}

pub struct RuntimeConfig {
    pub mode: ModeConfig,
    pub provider: ProviderConfig,
    pub web: WebConfig,
    pub limits: LimitsConfig,
}

impl RuntimeConfig {
    /// The configuration used when no file overrides it.
    pub fn defaults() -> (r: Self)
        ensures
            r.mode.default@ == DEFAULT_MODE@,
            r.provider.active@ == DEFAULT_PROVIDER@,
            r.provider.model@ == DEFAULT_MODEL@,
            r.provider.base_url@ == DEFAULT_BASE_URL@,
            r.provider.context_tokens == DEFAULT_CONTEXT_TOKENS,
            !r.web.enabled,
    {
        RuntimeConfig {
            mode: ModeConfig { default: String::from_str(DEFAULT_MODE) },
            provider: ProviderConfig {
                active: String::from_str(DEFAULT_PROVIDER),
                model: String::from_str(DEFAULT_MODEL),
                base_url: String::from_str(DEFAULT_BASE_URL),
                context_tokens: DEFAULT_CONTEXT_TOKENS,
            },
            web: WebConfig { enabled: false },
            limits: LimitsConfig { command_timeout_ms: 120000, max_same_tool_repeats: 8 },
        }
    }
}

} // verus!
