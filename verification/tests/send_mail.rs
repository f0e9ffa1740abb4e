use ndc_sendgrid::fields::{Field, FieldsError, NestedField};
use ndc_sendgrid::mutation::{parse_send_mail_args, project_procedure_result, send_mail_response_value};
use ndc_sendgrid::sendgrid_api::{MailAddress, MailContent, UnsubscriptionSettings};
use ndc_sendgrid::values::Value;

fn s(x: &str) -> String {
    x.to_string()
}

fn obj(entries: Vec<(&str, Value)>) -> Value {
    Value::Object(entries.into_iter().map(|(k, v)| (s(k), v)).collect())
}

fn address(email: &str) -> Value {
    obj(vec![("email", Value::String(s(email)))])
}

fn full_args() -> Vec<(String, Value)> {
    vec![
        (
            s("personalizations"),
            Value::Array(vec![obj(vec![
                ("to", Value::Array(vec![address("to@example.com")])),
                (
                    "headers",
                    Value::Array(vec![
                        obj(vec![
                            ("name", Value::String(s("X-A"))),
                            ("value", Value::String(s("1"))),
                        ]),
                        obj(vec![
                            ("name", Value::String(s("X-B"))),
                            ("value", Value::String(s("2"))),
                        ]),
                    ]),
                ),
                (
                    "substitutions",
                    Value::Array(vec![obj(vec![
                        ("tag", Value::String(s("-name-"))),
                        ("value", Value::String(s("Ada"))),
                    ])]),
                ),
                ("send_at", Value::Number(1000)),
            ])]),
        ),
        (
            s("from"),
            obj(vec![
                ("email", Value::String(s("sender@example.com"))),
                ("name", Value::String(s("Sender"))),
            ]),
        ),
        (s("reply_to_list"), Value::Array(vec![address("reply@example.com")])),
        (s("subject"), Value::String(s("Hello"))),
        (
            s("content"),
            Value::Array(vec![obj(vec![
                ("type", Value::String(s("text/plain"))),
                ("value", Value::String(s("Hi there"))),
            ])]),
        ),
        (s("batch_id"), Value::String(s("batch-7"))),
    ]
}

#[test]
fn parse_send_mail_args_full_request() {
    let request = parse_send_mail_args(&full_args()).unwrap();
    assert_eq!(request.from, MailAddress { email: s("sender@example.com"), name: Some(s("Sender")) });
    assert_eq!(request.reply_to_list, vec![MailAddress { email: s("reply@example.com"), name: None }]);
    assert_eq!(request.subject, s("Hello"));
    assert_eq!(request.content, vec![MailContent { mime_type: s("text/plain"), value: s("Hi there") }]);
    assert_eq!(request.attachments, None);
    assert_eq!(request.template_id, None);
    assert_eq!(request.headers, None);
    assert_eq!(request.send_at, None);
    assert_eq!(request.batch_id, Some(s("batch-7")));
    assert_eq!(request.unsubscription_settings, None);
    assert_eq!(request.personalizations.len(), 1);
    let p = &request.personalizations[0];
    assert_eq!(p.to, vec![MailAddress { email: s("to@example.com"), name: None }]);
    assert_eq!(p.headers, Some(vec![(s("X-A"), s("1")), (s("X-B"), s("2"))]));
    assert_eq!(p.substitutions, Some(vec![(s("-name-"), s("Ada"))]));
    assert_eq!(p.dynamic_template_data, None);
    assert_eq!(p.send_at, Some(1000));
    assert_eq!(p.from, None);
    assert_eq!(p.cc, None);
    assert_eq!(p.bcc, None);
    assert_eq!(p.subject, None);
}

#[test]
fn parse_send_mail_args_missing_subject() {
    let mut args = full_args();
    args.retain(|(k, _)| k != "subject");
    let err = parse_send_mail_args(&args).unwrap_err();
    assert_eq!(
        err,
        FieldsError::InvalidRequest(s("Unable to deserialize arguments: subject"))
    );
}

#[test]
fn parse_send_mail_args_bad_personalization() {
    let mut args = full_args();
    for (k, v) in args.iter_mut() {
        if k == "personalizations" {
            *v = Value::Array(vec![Value::String(s("nope"))]);
        }
    }
    let err = parse_send_mail_args(&args).unwrap_err();
    assert_eq!(
        err,
        FieldsError::InvalidRequest(s("Unable to deserialize arguments: personalizations"))
    );
}

#[test]
fn parse_send_mail_args_send_at_out_of_range() {
    let mut args = full_args();
    args.push((s("send_at"), Value::Number(-5)));
    let err = parse_send_mail_args(&args).unwrap_err();
    assert_eq!(
        err,
        FieldsError::InvalidRequest(s("Unable to deserialize arguments: send_at"))
    );
}

#[test]
fn parse_send_mail_args_with_unsubscription_settings() {
    let mut args = full_args();
    args.push((
        s("asm"),
        obj(vec![
            ("group_id", Value::String(s("42"))),
            ("groups_to_display", Value::Array(vec![Value::String(s("43"))])),
        ]),
    ));
    let request = parse_send_mail_args(&args).unwrap();
    assert_eq!(
        request.unsubscription_settings,
        Some(UnsubscriptionSettings {
            group_id: s("42"),
            groups_to_display: Some(vec![s("43")]),
        })
    );
}

#[test]
fn parse_send_mail_args_with_null_unsubscription_settings() {
    let mut args = full_args();
    args.push((s("asm"), Value::Null));
    let request = parse_send_mail_args(&args).unwrap();
    assert_eq!(request.unsubscription_settings, None);
}

#[test]
fn parse_send_mail_args_rejects_bad_unsubscription_settings() {
    let mut args = full_args();
    args.push((s("asm"), Value::Number(7)));
    let err = parse_send_mail_args(&args).unwrap_err();
    assert_eq!(
        err,
        FieldsError::InvalidRequest(s("Unable to deserialize arguments: asm"))
    );
}

#[test]
fn send_mail_response_with_batch_id() {
    let value = send_mail_response_value(&Some(s("batch-7")));
    assert_eq!(value, obj(vec![("batch_id", Value::String(s("batch-7")))]));
}

#[test]
fn send_mail_response_without_batch_id() {
    let value = send_mail_response_value(&None);
    assert_eq!(value, obj(vec![("batch_id", Value::Null)]));
}

#[test]
fn project_procedure_result_without_selection() {
    let value = send_mail_response_value(&Some(s("b")));
    let result = project_procedure_result(value, &None).unwrap();
    assert_eq!(result, obj(vec![("batch_id", Value::String(s("b")))]));
}

#[test]
fn project_procedure_result_with_selection() {
    let value = send_mail_response_value(&Some(s("b")));
    let nested = NestedField::Object {
        fields: vec![(s("id"), Field::Column { column: s("batch_id"), fields: None })],
    };
    let result = project_procedure_result(value, &Some(nested)).unwrap();
    assert_eq!(result, obj(vec![("id", Value::String(s("b")))]));
}

#[test]
fn project_procedure_result_with_bad_selection() {
    let value = send_mail_response_value(&None);
    let nested = NestedField::Object {
        fields: vec![(s("id"), Field::Column { column: s("nope"), fields: None })],
    };
    let err = project_procedure_result(value, &Some(nested)).unwrap_err();
    assert_eq!(err, FieldsError::InvalidRequest(s("invalid column name: nope")));
}
