use ndc_sendgrid::fields::{Field, FieldsError, NestedField};
use ndc_sendgrid::query::{project_function_result, templates_to_value};
use ndc_sendgrid::sendgrid_api::{
    ErrorItem, ErrorResponse, TransactionTemplateVersion, TransactionalTemplate,
};
use ndc_sendgrid::values::Value;

fn s(x: &str) -> String {
    x.to_string()
}

fn obj(entries: Vec<(&str, Value)>) -> Value {
    Value::Object(entries.into_iter().map(|(k, v)| (s(k), v)).collect())
}

fn sample_template() -> TransactionalTemplate {
    TransactionalTemplate {
        id: s("t1"),
        name: s("Welcome"),
        generation: s("dynamic"),
        updated_at: s("2020-01-01"),
        versions: vec![TransactionTemplateVersion {
            id: s("v1"),
            template_id: s("t1"),
            active: 1,
            name: s("first"),
            subject: None,
            updated_at: s("2020-01-02"),
            generate_plain_content: true,
            editor: s("code"),
            thumbnail_url: s("http://example.com/t.png"),
        }],
    }
}

fn sample_template_value() -> Value {
    obj(vec![
        ("id", Value::String(s("t1"))),
        ("name", Value::String(s("Welcome"))),
        ("generation", Value::String(s("dynamic"))),
        ("updated_at", Value::String(s("2020-01-01"))),
        (
            "versions",
            Value::Array(vec![obj(vec![
                ("id", Value::String(s("v1"))),
                ("template_id", Value::String(s("t1"))),
                ("active", Value::Number(1)),
                ("name", Value::String(s("first"))),
                ("subject", Value::Null),
                ("updated_at", Value::String(s("2020-01-02"))),
                ("generate_plain_content", Value::Bool(true)),
                ("editor", Value::String(s("code"))),
                ("thumbnail_url", Value::String(s("http://example.com/t.png"))),
            ])]),
        ),
    ])
}

#[test]
fn templates_render_in_wire_order() {
    let value = templates_to_value(&vec![sample_template()]);
    assert_eq!(value, Value::Array(vec![sample_template_value()]));
}

#[test]
fn no_selection_passes_rows_through() {
    let value = templates_to_value(&vec![sample_template()]);
    let projected = project_function_result(value, &None).unwrap();
    assert_eq!(projected, None);
}

#[test]
fn selection_projects_the_value_column() {
    let value = templates_to_value(&vec![sample_template()]);
    let fields = vec![(s("rows"), Field::Column { column: s("__value"), fields: None })];
    let projected = project_function_result(value, &Some(fields)).unwrap().unwrap();
    assert_eq!(projected.len(), 1);
    assert_eq!(projected[0].0, s("rows"));
    assert_eq!(projected[0].1 .0, Value::Array(vec![sample_template_value()]));
}

#[test]
fn selection_of_unknown_column_fails() {
    let value = templates_to_value(&vec![]);
    let fields = vec![(s("rows"), Field::Column { column: s("nope"), fields: None })];
    let err = project_function_result(value, &Some(fields)).unwrap_err();
    assert_eq!(err, FieldsError::InvalidRequest(s("invalid column name: nope")));
}

#[test]
fn nested_selection_into_the_value_column() {
    let value = templates_to_value(&vec![sample_template()]);
    let element = NestedField::Object {
        fields: vec![(s("name"), Field::Column { column: s("name"), fields: None })],
    };
    let nested = NestedField::Array { fields: Box::new(element) };
    let fields = vec![(
        s("names"),
        Field::Column { column: s("__value"), fields: Some(nested) },
    )];
    let projected = project_function_result(value, &Some(fields)).unwrap().unwrap();
    assert_eq!(
        projected[0].1 .0,
        Value::Array(vec![obj(vec![("name", Value::String(s("Welcome")))])])
    );
}

#[test]
fn error_response_without_items() {
    let response = ErrorResponse { errors: None };
    assert_eq!(response.message_string(), "Errors: []");
}

#[test]
fn error_response_with_one_item() {
    let response = ErrorResponse {
        errors: Some(vec![ErrorItem { message: s("boom"), error_id: s("e1") }]),
    };
    assert_eq!(response.message_string(), "Errors: [e1: boom]");
}

#[test]
fn error_response_with_two_items() {
    let response = ErrorResponse {
        errors: Some(vec![
            ErrorItem { message: s("boom"), error_id: s("e1") },
            ErrorItem { message: s("bang"), error_id: s("e2") },
        ]),
    };
    assert_eq!(response.message_string(), "Errors: [e1: boom, e2: bang]");
}

#[test]
fn error_item_text() {
    let item = ErrorItem { message: s("boom"), error_id: s("e1") };
    assert_eq!(item.message_string(), "e1: boom");
}
