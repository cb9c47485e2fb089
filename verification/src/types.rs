use vstd::prelude::*;

verus! {

/// Default request timeout, in seconds, for the API section.
pub const DEFAULT_TIMEOUT_SECS: u64 = 5;

/// Settings for reaching the backing API service.
#[derive(Debug, Clone, PartialEq, Eq)]
pub struct ApiConfig {
    /// Base URL of the API instance to talk to.
    pub base_url: String,
    /// Request timeout in seconds.
    pub timeout_secs: u64,
}

/// The operator-edited settings document, persisted in the user file.
#[derive(Debug, Clone, PartialEq, Eq)]
pub struct UserConfig {
    pub api: ApiConfig,
}

/// The tool-managed state document, persisted in the generated file.
/// Not meant for manual editing.
#[derive(Debug, Clone, PartialEq, Eq)]
pub struct GeneratedConfig {
    /// Seconds since the Unix epoch of the last successful startup,
    /// absent before the first run.
    pub last_launch: Option<i64>,
}

/// The in-memory configuration aggregate: the resolved paths and the two
/// document values. Constructed by `Config::load`, never persisted itself.
#[derive(Debug, Clone, PartialEq, Eq)]
pub struct Config {
    /// Absolute path of the configuration directory.
    pub config_folder: String,
    /// Path of the operator-edited document inside `config_folder`.
    pub user_file: String,
    /// Path of the tool-managed document inside `config_folder`.
    pub generated_file: String,
    pub user: UserConfig,
    pub generated: GeneratedConfig,
}

/// Mathematical value of an `ApiConfig`.
pub ghost struct ApiConfigV {
    pub base_url: Seq<char>,
    pub timeout_secs: u64,
}

/// Mathematical value of a `UserConfig`.
pub ghost struct UserConfigV {
    pub api: ApiConfigV,
}

/// Mathematical value of a `GeneratedConfig`.
pub ghost struct GeneratedConfigV {
    pub last_launch: Option<i64>,
}

/// Mathematical value of a `Config`.
pub ghost struct ConfigV {
    pub config_folder: Seq<char>,
    pub user_file: Seq<char>,
    pub generated_file: Seq<char>,
    pub user: UserConfigV,
    pub generated: GeneratedConfigV,
}

impl View for ApiConfig {
    type V = ApiConfigV;

    open spec fn view(&self) -> ApiConfigV {
        ApiConfigV { base_url: self.base_url@, timeout_secs: self.timeout_secs }
    }
}

impl View for UserConfig {
    type V = UserConfigV;

    open spec fn view(&self) -> UserConfigV {
        UserConfigV { api: self.api@ }
    }
}

impl View for GeneratedConfig {
    type V = GeneratedConfigV;

    open spec fn view(&self) -> GeneratedConfigV {
        GeneratedConfigV { last_launch: self.last_launch }
    }
}

impl View for Config {
    type V = ConfigV;

    open spec fn view(&self) -> ConfigV {
        ConfigV {
            config_folder: self.config_folder@,
            user_file: self.user_file@,
            generated_file: self.generated_file@,
            user: self.user@,
            generated: self.generated@,
        }
    }
}

/// The default base URL of the API section.
pub open spec fn default_base_url() -> Seq<char> {
    "https://kybe.xyz"@
}

/// The documented default of the API section.
pub open spec fn default_api_v() -> ApiConfigV {
    ApiConfigV { base_url: default_base_url(), timeout_secs: DEFAULT_TIMEOUT_SECS }
}

/// The documented default of the user document.
pub open spec fn default_user_v() -> UserConfigV {
    UserConfigV { api: default_api_v() }
}

/// The documented default of the generated document: no launch recorded yet.
pub open spec fn default_generated_v() -> GeneratedConfigV {
    GeneratedConfigV { last_launch: None }
}

impl Default for ApiConfig {
    /// The documented default of every API field.
    fn default() -> (r: ApiConfig)
        ensures
            r@ == default_api_v(),
    {
        ApiConfig { base_url: "https://kybe.xyz".to_owned(), timeout_secs: DEFAULT_TIMEOUT_SECS }
    }
}

impl Default for UserConfig {
    /// The documented default of the whole user document.
    fn default() -> (r: UserConfig)
        ensures
            r@ == default_user_v(),
    {
        UserConfig { api: ApiConfig::default() }
    }
}

impl Default for GeneratedConfig {
    /// The state before any recorded launch.
    fn default() -> (r: GeneratedConfig)
        ensures
            r@ == default_generated_v(),
    {
        GeneratedConfig { last_launch: None }
    }
}

} // verus!
