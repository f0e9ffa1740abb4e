use vstd::prelude::*;

use crate::sendgrid_api::{ApiKeyError, SendGridApiKey};

verus! {

/// The connector's validated configuration: the API key to call the
/// mail-delivery service with.
#[derive(Debug, Clone, PartialEq)]
pub struct SendGridConfiguration {
    pub sendgrid_api_key: SendGridApiKey,
}

/// Why a configuration was rejected: the key's environment variable is
/// missing, holds text that is not unicode, or is blank.
#[derive(Debug, PartialEq)]
pub enum ConfigurationError {
    MissingKey,
    KeyNotUnicode,
    BlankKey,
}

/// The message reported for each configuration error.
pub open spec fn spec_configuration_error_message(e: ConfigurationError) -> Seq<char> {
    match e {
        ConfigurationError::MissingKey => "The SENDGRID_API_KEY environment variable is required"@,
        ConfigurationError::KeyNotUnicode
            => "The SENDGRID_API_KEY environment variable value is not valid unicode"@,
        ConfigurationError::BlankKey
            => "The SENDGRID_API_KEY environment variable cannot be blank"@,
    }
}

impl ConfigurationError {
    /// The error as text.
    pub fn message(&self) -> (r: &str)
        ensures
            r@ == spec_configuration_error_message(*self),
    {
        match self {
            ConfigurationError::MissingKey => {
                "The SENDGRID_API_KEY environment variable is required"
            },
            ConfigurationError::KeyNotUnicode => {
                "The SENDGRID_API_KEY environment variable value is not valid unicode"
            },
            ConfigurationError::BlankKey => {
                "The SENDGRID_API_KEY environment variable cannot be blank"
            },
        }
    }
}

/// Validates the key read from the environment: absent and blank keys are
/// rejected, any other key makes a configuration.
pub fn parse_configuration(env_api_key: Option<String>) -> (r: Result<
    SendGridConfiguration,
    ConfigurationError,
>)
    ensures
        env_api_key is None ==> r == Err::<SendGridConfiguration, ConfigurationError>(
            ConfigurationError::MissingKey,
        ),
        env_api_key matches Some(k) ==> (if k@.len() == 0 {
            r == Err::<SendGridConfiguration, ConfigurationError>(ConfigurationError::BlankKey)
        } else {
            r matches Ok(c) && c.sendgrid_api_key@ == k@
        }),
{
    match env_api_key {
        None => Err(ConfigurationError::MissingKey),
        Some(key) => match SendGridApiKey::new(key.as_str()) {
            Ok(api_key) => Ok(SendGridConfiguration { sendgrid_api_key: api_key }),
            Err(ApiKeyError::CannotBeBlank) => Err(ConfigurationError::BlankKey),
        },
    }
}

} // verus!
