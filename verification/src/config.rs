//! Validation of the bot's settings: every field must be present before any
//! network activity begins, and each missing field is reported by name.

use vstd::prelude::*;

verus! {

/// The bot's immutable settings, complete and validated.
#[derive(Debug)]
pub struct BotConfig {
    /// Authentication token for the messaging session.
    pub auth_token: String,
    /// Human-readable name of the channel the bot serves; resolved to an id
    /// when the connection is established.
    pub channel_name: String,
    /// Key for the media-lookup service.
    pub api_key: String,
    /// Trigger keywords, in configured order.
    pub keywords: Vec<String>,
}

/// The settings field whose absence aborts startup.
#[derive(Clone, Copy, PartialEq, Eq, Structural, Debug)]
pub enum ConfigError {
    MissingAuthToken,
    MissingChannelName,
    MissingApiKey,
    MissingKeywords,
}

/// What validation decides: the first absent field (in the order the fields
/// are listed) is reported; with every field present the settings are
/// accepted unchanged.
pub open spec fn config_of(
    auth_token: Option<String>,
    channel_name: Option<String>,
    api_key: Option<String>,
    keywords: Option<Vec<String>>,
) -> Result<BotConfig, ConfigError> {
    if auth_token is None {
        Err(ConfigError::MissingAuthToken)
    } else if channel_name is None {
        Err(ConfigError::MissingChannelName)
    } else if api_key is None {
        Err(ConfigError::MissingApiKey)
    } else if keywords is None {
        Err(ConfigError::MissingKeywords)
    } else {
        Ok(
            (BotConfig {
                auth_token: auth_token->0,
                channel_name: channel_name->0,
                api_key: api_key->0,
                keywords: keywords->0,
            }),
        )
    }
}

/// Validate the raw settings read from the configuration document: absent
/// fields are fatal at startup, present ones are taken over unchanged.
pub fn build_config(
    auth_token: Option<String>,
    channel_name: Option<String>,
    api_key: Option<String>,
    keywords: Option<Vec<String>>,
) -> (r: Result<BotConfig, ConfigError>)
    ensures
        r == config_of(auth_token, channel_name, api_key, keywords),
{
    match (auth_token, channel_name, api_key, keywords) {
        (Some(auth_token), Some(channel_name), Some(api_key), Some(keywords)) => Ok(
            BotConfig { auth_token, channel_name, api_key, keywords },
        ),
        (None, _, _, _) => Err(ConfigError::MissingAuthToken),
        (Some(_), None, _, _) => Err(ConfigError::MissingChannelName),
        (Some(_), Some(_), None, _) => Err(ConfigError::MissingApiKey),
        (Some(_), Some(_), Some(_), None) => Err(ConfigError::MissingKeywords),
    }
}

} // verus!
