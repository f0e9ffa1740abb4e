use ndc_sendgrid::fields::FieldsError;
use ndc_sendgrid::mutation::{is_send_mail_procedure, unknown_procedure_error};
use ndc_sendgrid::query::{is_list_templates_function, unknown_collection_error};
use ndc_sendgrid::values::Value;

fn s(x: &str) -> String {
    x.to_string()
}

#[test]
fn deep_clone_copies_every_level() {
    let value = Value::Object(vec![
        (s("a"), Value::Array(vec![Value::Number(1), Value::Bool(false)])),
        (s("b"), Value::Object(vec![(s("c"), Value::String(s("x")))])),
        (s("d"), Value::Null),
    ]);
    assert_eq!(value.deep_clone(), value);
}

#[test]
fn operation_name_dispatch() {
    assert!(is_list_templates_function(&s("list_templates")));
    assert!(!is_list_templates_function(&s("send_mail")));
    assert!(is_send_mail_procedure(&s("send_mail")));
    assert!(!is_send_mail_procedure(&s("list_templates")));
}

#[test]
fn unknown_operations_are_invalid_requests() {
    assert_eq!(
        unknown_collection_error(&s("nope")),
        FieldsError::InvalidRequest(s("Unknown collection: nope"))
    );
    assert_eq!(
        unknown_procedure_error(&s("nope")),
        FieldsError::InvalidRequest(s("Unknown procedure: nope"))
    );
}
