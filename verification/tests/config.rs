use ndc_sendgrid::configuration::{parse_configuration, ConfigurationError};
use ndc_sendgrid::fields::FieldsError;
use ndc_sendgrid::sendgrid_api::{ApiKeyError, SendGridApiKey};

fn s(x: &str) -> String {
    x.to_string()
}

#[test]
fn api_key_rejects_blank() {
    assert!(matches!(SendGridApiKey::new(""), Err(ApiKeyError::CannotBeBlank)));
}

#[test]
fn api_key_accepts_text() {
    let key = SendGridApiKey::new("SECRET-REDACTED").unwrap();
    assert_eq!(key.as_str(), "SECRET-REDACTED");
}

#[test]
fn configuration_requires_the_variable() {
    let err = parse_configuration(None).unwrap_err();
    assert_eq!(err, ConfigurationError::MissingKey);
    assert_eq!(err.message(), "The SENDGRID_API_KEY environment variable is required");
}

#[test]
fn configuration_rejects_blank_key() {
    let err = parse_configuration(Some(s(""))).unwrap_err();
    assert_eq!(err, ConfigurationError::BlankKey);
    assert_eq!(err.message(), "The SENDGRID_API_KEY environment variable cannot be blank");
}

#[test]
fn configuration_accepts_a_key() {
    let config = parse_configuration(Some(s("k"))).unwrap();
    assert_eq!(config.sendgrid_api_key.as_str(), "k");
}

#[test]
fn not_unicode_message() {
    assert_eq!(
        ConfigurationError::KeyNotUnicode.message(),
        "The SENDGRID_API_KEY environment variable value is not valid unicode"
    );
}

#[test]
fn fields_error_messages() {
    assert_eq!(FieldsError::InvalidRequest(s("bad")).message(), "bad");
    assert_eq!(FieldsError::UnsupportedOperation(s("no")).message(), "no");
}
