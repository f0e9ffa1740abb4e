use ndc_sendgrid::fields::FieldsError;
use ndc_sendgrid::query::{parse_list_templates_params, Argument};
use ndc_sendgrid::sendgrid_api::{u32_to_decimal_string, ListTransactionalTemplatesParams};
use ndc_sendgrid::values::Value;

fn s(x: &str) -> String {
    x.to_string()
}

fn lit(v: Value) -> Argument {
    Argument::Literal { value: v }
}

#[test]
fn decimal_rendering() {
    assert_eq!(u32_to_decimal_string(0), "0");
    assert_eq!(u32_to_decimal_string(7), "7");
    assert_eq!(u32_to_decimal_string(10), "10");
    assert_eq!(u32_to_decimal_string(25), "25");
    assert_eq!(u32_to_decimal_string(100), "100");
    assert_eq!(u32_to_decimal_string(4294967295), "4294967295");
}

#[test]
fn query_params_with_everything() {
    let params = ListTransactionalTemplatesParams {
        generations: Some(s("legacy,dynamic")),
        page_size: 25,
        page_token: Some(s("tok")),
    };
    assert_eq!(
        params.to_query_params(),
        vec![
            (s("generations"), s("legacy,dynamic")),
            (s("page_size"), s("25")),
            (s("page_token"), s("tok")),
        ]
    );
}

#[test]
fn query_params_with_page_size_only() {
    let params = ListTransactionalTemplatesParams {
        generations: None,
        page_size: 0,
        page_token: None,
    };
    assert_eq!(params.to_query_params(), vec![(s("page_size"), s("0"))]);
}

#[test]
fn parse_params_happy_path() {
    let args = vec![
        (s("generations"), lit(Value::String(s("dynamic")))),
        (s("page_size"), lit(Value::Number(50))),
        (s("page_token"), lit(Value::String(s("next")))),
    ];
    let params = parse_list_templates_params(&args).unwrap();
    assert_eq!(
        params,
        ListTransactionalTemplatesParams {
            generations: Some(s("dynamic")),
            page_size: 50,
            page_token: Some(s("next")),
        }
    );
}

#[test]
fn parse_params_defaults() {
    let args = vec![(s("page_size"), lit(Value::Number(10)))];
    let params = parse_list_templates_params(&args).unwrap();
    assert_eq!(
        params,
        ListTransactionalTemplatesParams {
            generations: Some(s("legacy,dynamic")),
            page_size: 10,
            page_token: None,
        }
    );
}

#[test]
fn parse_params_null_generations() {
    let args = vec![
        (s("generations"), lit(Value::Null)),
        (s("page_size"), lit(Value::Number(10))),
    ];
    let params = parse_list_templates_params(&args).unwrap();
    assert_eq!(params.generations, None);
}

#[test]
fn parse_params_missing_page_size() {
    let args = vec![(s("generations"), lit(Value::String(s("legacy"))))];
    let err = parse_list_templates_params(&args).unwrap_err();
    assert_eq!(
        err,
        FieldsError::InvalidRequest(s("Couldn't find 'page_size' field in arguments"))
    );
}

#[test]
fn parse_params_variable_is_unsupported() {
    let args = vec![
        (s("page_size"), lit(Value::Number(10))),
        (s("page_token"), Argument::Variable { name: s("v") }),
    ];
    let err = parse_list_templates_params(&args).unwrap_err();
    assert_eq!(
        err,
        FieldsError::UnsupportedOperation(s("Variables not currently supported"))
    );
}

#[test]
fn parse_params_page_size_of_wrong_shape() {
    let args = vec![(s("page_size"), lit(Value::String(s("ten"))))];
    let err = parse_list_templates_params(&args).unwrap_err();
    assert_eq!(
        err,
        FieldsError::InvalidRequest(s("Unable to deserialize 'params': page_size"))
    );
}

#[test]
fn parse_params_page_size_out_of_range() {
    let args = vec![(s("page_size"), lit(Value::Number(-1)))];
    let err = parse_list_templates_params(&args).unwrap_err();
    assert_eq!(
        err,
        FieldsError::InvalidRequest(s("Unable to deserialize 'params': page_size"))
    );
    let args = vec![(s("page_size"), lit(Value::Number(4294967296)))];
    let err = parse_list_templates_params(&args).unwrap_err();
    assert_eq!(
        err,
        FieldsError::InvalidRequest(s("Unable to deserialize 'params': page_size"))
    );
}

#[test]
fn parse_params_generations_of_wrong_shape() {
    let args = vec![
        (s("generations"), lit(Value::Number(3))),
        (s("page_size"), lit(Value::Number(10))),
    ];
    let err = parse_list_templates_params(&args).unwrap_err();
    assert_eq!(
        err,
        FieldsError::InvalidRequest(s("Unable to deserialize 'params': generations"))
    );
}
