//! Service configuration and its validation rules. Loading the values —
//! command line, environment, configuration file — is the caller's
//! concern; the rules on what makes a loaded configuration usable are
//! decided here.

use vstd::prelude::*;

verus! {

/// The service configuration.
#[derive(Debug)]
pub struct AppConfig {
    pub host: String,
    pub port: u16,
    pub external_hostname: String,
    pub callback_hostname: String,
    pub key_path: String,
    pub verification_method: String,
    pub callback_base_path: String,
    pub bearer_token: Option<String>,
}

/// Why a configuration was rejected.
#[derive(Debug)]
pub enum ConfigError {
    /// A required setting is missing or out of bounds.
    NotFound { message: String },
}

/// Whether a configuration passes every validation rule.
pub open spec fn config_ok(config: AppConfig) -> bool {
    &&& config.host@.len() > 0
    &&& config.port != 0
    &&& config.external_hostname@.len() > 0
    &&& config.callback_hostname@.len() > 0
    &&& config.key_path@.len() > 0
    &&& config.verification_method@.len() > 0
    &&& config.callback_base_path@.len() > 0
}

/// The message of the first validation rule a configuration breaks.
pub open spec fn first_config_error(config: AppConfig) -> Seq<char> {
    if config.host@.len() == 0 {
        "Error: 'host' is required but missing"@
    } else if config.port == 0 {
        "Error: 'port' out of bounds"@
    } else if config.external_hostname@.len() == 0 {
        "Error: 'external_hostname' is required but missing"@
    } else if config.callback_hostname@.len() == 0 {
        "Error: 'shop_hostname' must be a valid non-zero value"@
    } else if config.key_path@.len() == 0 {
        "Error: 'key_path' is required but missing"@
    } else if config.verification_method@.len() == 0 {
        "Error: 'verification_method' is required but missing"@
    } else {
        "Error: 'callback_base_path' is required but missing"@
    }
}

impl AppConfig {
    /// Validates a loaded configuration: every setting must be present
    /// and the port non-zero. Succeeds exactly on configurations that
    /// pass every rule, returning them unchanged; otherwise reports the
    /// first rule broken.
    pub fn validate(config: Self) -> (r: Result<Self, ConfigError>)
        ensures
            r is Ok <==> config_ok(config),
            r matches Ok(c) ==> c == config,
            r matches Err(ConfigError::NotFound { message }) ==> message@ == first_config_error(
                config,
            ),
    {
        if config.host.as_str().is_empty() {
            return Err(ConfigError::NotFound {
                message: "Error: 'host' is required but missing".to_owned(),
            });
        }
        if config.port == 0 {
            return Err(ConfigError::NotFound {
                message: "Error: 'port' out of bounds".to_owned(),
            });
        }
        if config.external_hostname.as_str().is_empty() {
            return Err(ConfigError::NotFound {
                message: "Error: 'external_hostname' is required but missing".to_owned(),
            });
        }
        if config.callback_hostname.as_str().is_empty() {
            return Err(ConfigError::NotFound {
                message: "Error: 'shop_hostname' must be a valid non-zero value".to_owned(),
            });
        }
        if config.key_path.as_str().is_empty() {
            return Err(ConfigError::NotFound {
                message: "Error: 'key_path' is required but missing".to_owned(),
            });
        }
        if config.verification_method.as_str().is_empty() {
            return Err(ConfigError::NotFound {
                message: "Error: 'verification_method' is required but missing".to_owned(),
            });
        }
        if config.callback_base_path.as_str().is_empty() {
            return Err(ConfigError::NotFound {
                message: "Error: 'callback_base_path' is required but missing".to_owned(),
            });
        }
        Ok(config)
    }
}

} // verus!
