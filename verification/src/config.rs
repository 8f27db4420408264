//! Application configuration.

use vstd::prelude::*;

verus! {

/// Application configuration.
pub struct AppConfig {
    pub app_name: String,
    pub version: String,
    pub database: DatabaseConfig,
    pub ai: AiConfig,
}

/// Database configuration; the provider is one of `"memory"`, `"sqlite"`, `"postgres"`.
pub struct DatabaseConfig {
    pub provider: String,
    pub connection_string: Option<String>,
}

/// AI configuration.
pub struct AiConfig {
    pub gemini_api_key: Option<String>,
    pub enabled: bool,
}

impl Default for DatabaseConfig {
    /// The in-memory store, without a connection string.
    fn default() -> (r: DatabaseConfig)
        ensures
            r.provider@ == "memory"@,
            r.connection_string is None,
    {
        DatabaseConfig { provider: String::from_str("memory"), connection_string: None }
    }
}

impl AiConfig {
    /// The default AI configuration given the value of `GEMINI_API_KEY` in the environment:
    /// that key, with AI disabled.
    pub fn desde_entorno(gemini_api_key: Option<String>) -> (r: AiConfig)
        ensures
            r.gemini_api_key == gemini_api_key,
            !r.enabled,
    {
        AiConfig { gemini_api_key, enabled: false }
    }
}

impl AppConfig {
    /// The default configuration of the given version, given the value of `GEMINI_API_KEY`
    /// in the environment.
    pub fn predeterminada(version: String, gemini_api_key: Option<String>) -> (r: AppConfig)
        ensures
            r.app_name@ == "Oficialia DSA"@,
            r.version == version,
            r.database.provider@ == "memory"@,
            r.database.connection_string is None,
            r.ai.gemini_api_key == gemini_api_key,
            !r.ai.enabled,
    {
        AppConfig {
            app_name: String::from_str("Oficialia DSA"),
            version,
            database: DatabaseConfig::default(),
            ai: AiConfig::desde_entorno(gemini_api_key),
        }
    }

    /// The configuration loaded from the environment: the default one, with AI enabled
    /// when `GEMINI_API_KEY` is set.
    pub fn from_env(version: String, gemini_api_key: Option<String>) -> (r: AppConfig)
        ensures
            r.app_name@ == "Oficialia DSA"@,
            r.version == version,
            r.database.provider@ == "memory"@,
            r.database.connection_string is None,
            r.ai.gemini_api_key == gemini_api_key,
            r.ai.enabled == gemini_api_key is Some,
    {
        let habilitar = gemini_api_key.is_some();
        let mut config = AppConfig::predeterminada(version, gemini_api_key);
        if habilitar {
            config.ai.enabled = true;
        }
        config
    }
}

} // verus!
