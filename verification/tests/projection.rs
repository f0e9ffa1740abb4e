use ndc_sendgrid::fields::{eval_row, eval_nested_field, Field, FieldsError, NestedField, RowFieldValue};
use ndc_sendgrid::values::Value;

fn s(x: &str) -> String {
    x.to_string()
}

fn col(name: &str) -> Field {
    Field::Column { column: s(name), fields: None }
}

fn col_nested(name: &str, nested: NestedField) -> Field {
    Field::Column { column: s(name), fields: Some(nested) }
}

#[test]
fn identity_projection_same_order() {
    let row = vec![(s("a"), Value::Number(1)), (s("b"), Value::Number(2))];
    let selection = vec![(s("a"), col("a")), (s("b"), col("b"))];
    let result = eval_row(&selection, &row).unwrap();
    assert_eq!(
        result,
        vec![
            (s("a"), RowFieldValue(Value::Number(1))),
            (s("b"), RowFieldValue(Value::Number(2))),
        ]
    );
}

#[test]
fn identity_projection_reordered() {
    let row = vec![(s("a"), Value::Number(1)), (s("b"), Value::Number(2))];
    let selection = vec![(s("b"), col("b")), (s("a"), col("a"))];
    let result = eval_row(&selection, &row).unwrap();
    assert_eq!(
        result,
        vec![
            (s("b"), RowFieldValue(Value::Number(2))),
            (s("a"), RowFieldValue(Value::Number(1))),
        ]
    );
}

#[test]
fn subset_projection() {
    let row = vec![
        (s("a"), Value::Number(1)),
        (s("b"), Value::Number(2)),
        (s("c"), Value::Number(3)),
    ];
    let selection = vec![(s("x"), col("a")), (s("y"), col("c"))];
    let result = eval_row(&selection, &row).unwrap();
    assert_eq!(
        result,
        vec![
            (s("x"), RowFieldValue(Value::Number(1))),
            (s("y"), RowFieldValue(Value::Number(3))),
        ]
    );
}

#[test]
fn unknown_column_error() {
    let row = vec![(s("a"), Value::Number(1))];
    let selection = vec![(s("x"), col("missing"))];
    let err = eval_row(&selection, &row).unwrap_err();
    assert_eq!(
        err,
        FieldsError::InvalidRequest(s("invalid column name: missing"))
    );
}

#[test]
fn nested_object_projection() {
    let row = vec![(
        s("outer"),
        Value::Object(vec![
            (s("inner"), Value::Number(7)),
            (s("extra"), Value::Number(8)),
        ]),
    )];
    let nested = NestedField::Object { fields: vec![(s("i"), col("inner"))] };
    let selection = vec![(s("o"), col_nested("outer", nested))];
    let result = eval_row(&selection, &row).unwrap();
    assert_eq!(
        result,
        vec![(
            s("o"),
            RowFieldValue(Value::Object(vec![(s("i"), Value::Number(7))]))
        )]
    );
}

#[test]
fn nested_array_projection() {
    let row = vec![(
        s("items"),
        Value::Array(vec![
            Value::Object(vec![(s("v"), Value::Number(1))]),
            Value::Object(vec![(s("v"), Value::Number(2))]),
        ]),
    )];
    let element = NestedField::Object { fields: vec![(s("v"), col("v"))] };
    let nested = NestedField::Array { fields: Box::new(element) };
    let selection = vec![(s("out"), col_nested("items", nested))];
    let result = eval_row(&selection, &row).unwrap();
    assert_eq!(
        result,
        vec![(
            s("out"),
            RowFieldValue(Value::Array(vec![
                Value::Object(vec![(s("v"), Value::Number(1))]),
                Value::Object(vec![(s("v"), Value::Number(2))]),
            ]))
        )]
    );
}

#[test]
fn nested_array_element_of_wrong_shape() {
    let row = vec![(
        s("items"),
        Value::Array(vec![
            Value::Object(vec![(s("v"), Value::Number(1))]),
            Value::String(s("not an object")),
        ]),
    )];
    let element = NestedField::Object { fields: vec![(s("v"), col("v"))] };
    let nested = NestedField::Array { fields: Box::new(element) };
    let selection = vec![(s("out"), col_nested("items", nested))];
    let err = eval_row(&selection, &row).unwrap_err();
    assert_eq!(err, FieldsError::InvalidRequest(s("Object expected")));
}

#[test]
fn object_expected_error() {
    let row = vec![(s("a"), Value::Number(1))];
    let nested = NestedField::Object { fields: vec![(s("i"), col("inner"))] };
    let selection = vec![(s("o"), col_nested("a", nested))];
    let err = eval_row(&selection, &row).unwrap_err();
    assert_eq!(err, FieldsError::InvalidRequest(s("Object expected")));
}

#[test]
fn array_expected_error() {
    let row = vec![(s("a"), Value::Bool(true))];
    let element = NestedField::Object { fields: vec![(s("v"), col("v"))] };
    let nested = NestedField::Array { fields: Box::new(element) };
    let selection = vec![(s("out"), col_nested("a", nested))];
    let err = eval_row(&selection, &row).unwrap_err();
    assert_eq!(err, FieldsError::InvalidRequest(s("Array expected")));
}

#[test]
fn relationship_rejected() {
    let row = vec![(s("a"), Value::Number(1))];
    let selection = vec![(s("r"), Field::Relationship)];
    let err = eval_row(&selection, &row).unwrap_err();
    assert_eq!(
        err,
        FieldsError::UnsupportedOperation(s("Relationship fields are not supported"))
    );
}

#[test]
fn relationship_rejected_whatever_the_row_holds() {
    let selection = vec![(s("a"), col("a")), (s("r"), Field::Relationship)];
    let row = vec![(s("a"), Value::Null)];
    let err = eval_row(&selection, &row).unwrap_err();
    assert_eq!(
        err,
        FieldsError::UnsupportedOperation(s("Relationship fields are not supported"))
    );
    let other_row = vec![(s("a"), Value::String(s("x"))), (s("b"), Value::Bool(false))];
    let err = eval_row(&selection, &other_row).unwrap_err();
    assert_eq!(
        err,
        FieldsError::UnsupportedOperation(s("Relationship fields are not supported"))
    );
}

#[test]
fn first_error_wins() {
    let row = vec![(s("a"), Value::Number(1))];
    let selection = vec![(s("x"), col("missing")), (s("r"), Field::Relationship)];
    let err = eval_row(&selection, &row).unwrap_err();
    assert_eq!(
        err,
        FieldsError::InvalidRequest(s("invalid column name: missing"))
    );
}

#[test]
fn empty_selection_projects_empty_row() {
    let row = vec![(s("a"), Value::Number(1))];
    let selection: Vec<(String, Field)> = vec![];
    let result = eval_row(&selection, &row).unwrap();
    assert_eq!(result, vec![]);
}

#[test]
fn plain_column_passes_value_through_unvalidated() {
    let row = vec![(
        s("blob"),
        Value::Object(vec![(s("deep"), Value::Array(vec![Value::Null]))]),
    )];
    let selection = vec![(s("out"), col("blob"))];
    let result = eval_row(&selection, &row).unwrap();
    assert_eq!(
        result,
        vec![(
            s("out"),
            RowFieldValue(Value::Object(vec![(
                s("deep"),
                Value::Array(vec![Value::Null])
            )]))
        )]
    );
}

#[test]
fn projection_is_deterministic() {
    let row = vec![
        (s("a"), Value::Number(1)),
        (s("b"), Value::Array(vec![Value::Bool(true), Value::Null])),
    ];
    let selection = vec![(s("y"), col("b")), (s("x"), col("a"))];
    let first = eval_row(&selection, &row);
    let second = eval_row(&selection, &row);
    assert_eq!(first, second);
}

#[test]
fn eval_nested_field_object_directly() {
    let value = Value::Object(vec![(s("k"), Value::Number(9)), (s("drop"), Value::Null)]);
    let nested = NestedField::Object { fields: vec![(s("kept"), col("k"))] };
    let result = eval_nested_field(&value, &nested).unwrap();
    assert_eq!(
        result,
        RowFieldValue(Value::Object(vec![(s("kept"), Value::Number(9))]))
    );
}

#[test]
fn array_of_arrays_projection() {
    let row = vec![(
        s("grid"),
        Value::Array(vec![
            Value::Array(vec![Value::Object(vec![
                (s("v"), Value::Number(1)),
                (s("w"), Value::Number(9)),
            ])]),
            Value::Array(vec![
                Value::Object(vec![(s("v"), Value::Number(2))]),
                Value::Object(vec![(s("v"), Value::Number(3))]),
            ]),
        ]),
    )];
    let innermost = NestedField::Object { fields: vec![(s("v"), col("v"))] };
    let inner = NestedField::Array { fields: Box::new(innermost) };
    let nested = NestedField::Array { fields: Box::new(inner) };
    let selection = vec![(s("out"), col_nested("grid", nested))];
    let result = eval_row(&selection, &row).unwrap();
    assert_eq!(
        result,
        vec![(
            s("out"),
            RowFieldValue(Value::Array(vec![
                Value::Array(vec![Value::Object(vec![(s("v"), Value::Number(1))])]),
                Value::Array(vec![
                    Value::Object(vec![(s("v"), Value::Number(2))]),
                    Value::Object(vec![(s("v"), Value::Number(3))]),
                ]),
            ]))
        )]
    );
}

#[test]
fn empty_array_projects_to_empty_array() {
    let value = Value::Array(vec![]);
    let element = NestedField::Object { fields: vec![(s("v"), col("v"))] };
    let nested = NestedField::Array { fields: Box::new(element) };
    let result = eval_nested_field(&value, &nested).unwrap();
    assert_eq!(result, RowFieldValue(Value::Array(vec![])));
}
