use vstd::prelude::*;
use vstd::string::StringExecFns;

use crate::values::{
    lemma_lookup_found, lemma_lookup_none, lemma_row_view, lemma_values_view, lookup, row_view,
    unique_keys, values_view, Value, ValueV,
};

verus! {

/// An error of the projection engine.
///
/// `InvalidRequest` names a selection that does not match the data: an
/// unknown column, or a nested selection over a value of the wrong shape.
/// `UnsupportedOperation` reports a capability the engine never has.
#[derive(Debug, PartialEq)]
pub enum FieldsError {
    InvalidRequest(String),
    UnsupportedOperation(String),
}

/// The model of a `FieldsError`: the same two kinds, over character
/// sequences.
pub enum FieldsErrorV {
    InvalidRequest(Seq<char>),
    UnsupportedOperation(Seq<char>),
}

impl View for FieldsError {
    type V = FieldsErrorV;

    open spec fn view(&self) -> FieldsErrorV {
        match self {
            FieldsError::InvalidRequest(m) => FieldsErrorV::InvalidRequest(m@),
            FieldsError::UnsupportedOperation(m) => FieldsErrorV::UnsupportedOperation(m@),
        }
    }
}

impl FieldsError {
    /// The message carried by the error.
    pub fn message(&self) -> (r: &str)
        ensures
            self@ matches FieldsErrorV::InvalidRequest(m) ==> r@ == m,
            self@ matches FieldsErrorV::UnsupportedOperation(m) ==> r@ == m,
    {
        match self {
            FieldsError::InvalidRequest(m) => m.as_str(),
            FieldsError::UnsupportedOperation(m) => m.as_str(),
        }
    }
}

/// One requested output field: either a column of the row, optionally
/// projected further by a nested selection, or a relationship reference,
/// which this engine never resolves.
#[derive(Debug, PartialEq)]
pub enum Field {
    Column { column: String, fields: Option<NestedField> },
    Relationship,
}

/// A nested selection: the shape expected of a column's value, and what to
/// extract from it.
#[derive(Debug, PartialEq)]
pub enum NestedField {
    Object { fields: Vec<(String, Field)> },
    Array { fields: Box<NestedField> },
}

/// A projected output value.
#[derive(Debug, PartialEq)]
pub struct RowFieldValue(pub Value);

impl View for RowFieldValue {
    type V = ValueV;

    open spec fn view(&self) -> ValueV {
        self.0@
    }
}

/// The model of a `Field`.
pub enum FieldV {
    Column { column: Seq<char>, fields: Option<NestedFieldV> },
    Relationship,
}

/// The model of a `NestedField`.
pub enum NestedFieldV {
    Object(Seq<(Seq<char>, FieldV)>),
    Array(Box<NestedFieldV>),
}

impl View for Field {
    type V = FieldV;

    open spec fn view(&self) -> FieldV
        decreases self,
    {
        match self {
            Field::Column { column, fields } => FieldV::Column {
                column: column@,
                fields: match fields {
                    None => None,
                    Some(nested) => Some(nested@),
                },
            },
            Field::Relationship => FieldV::Relationship,
        }
    }
}

impl View for NestedField {
    type V = NestedFieldV;

    open spec fn view(&self) -> NestedFieldV
        decreases self,
    {
        match self {
            NestedField::Object { fields } => NestedFieldV::Object(selection_view(fields@)),
            NestedField::Array { fields } => NestedFieldV::Array(Box::new((**fields)@)),
        }
    }
}

/// The model of a selection: named fields, in order.
pub open spec fn selection_view(fields: Seq<(String, Field)>) -> Seq<(Seq<char>, FieldV)>
    decreases fields,
{
    if fields.len() == 0 {
        Seq::empty()
    } else {
        selection_view(fields.drop_last()).push((fields.last().0@, fields.last().1@))
    }
}

/// `selection_view` maps the entries element by element.
pub proof fn lemma_selection_view(fields: Seq<(String, Field)>)
    ensures
        selection_view(fields).len() == fields.len(),
        forall|i: int| 0 <= i < fields.len()
            ==> selection_view(fields)[i] == (#[trigger] fields[i].0@, fields[i].1@),
    decreases fields.len(),
{
    if fields.len() > 0 {
        lemma_selection_view(fields.drop_last());
        assert(selection_view(fields) == selection_view(fields.drop_last()).push(
            (fields.last().0@, fields.last().1@),
        ));
        assert forall|i: int| 0 <= i < fields.len() implies selection_view(fields)[i]
            == (#[trigger] fields[i].0@, fields[i].1@) by {
            if i < fields.len() - 1 {
                assert(fields.drop_last()[i] == fields[i]);
                assert(selection_view(fields.drop_last())[i]
                    == (fields.drop_last()[i].0@, fields.drop_last()[i].1@));
                assert(selection_view(fields)[i] == selection_view(fields.drop_last())[i]);
            } else {
                assert(fields.last() == fields[i]);
                assert(selection_view(fields)[i] == (fields.last().0@, fields.last().1@));
            }
        }
    }
}

/// The model of a projected row, in output order.
pub open spec fn result_row_view(row: Seq<(String, RowFieldValue)>) -> Seq<(Seq<char>, ValueV)>
    decreases row,
{
    if row.len() == 0 {
        Seq::empty()
    } else {
        result_row_view(row.drop_last()).push((row.last().0@, row.last().1@))
    }
}

/// `result_row_view` maps the entries element by element.
pub proof fn lemma_result_row_view(row: Seq<(String, RowFieldValue)>)
    ensures
        result_row_view(row).len() == row.len(),
        forall|i: int| 0 <= i < row.len()
            ==> result_row_view(row)[i] == (#[trigger] row[i].0@, row[i].1@),
    decreases row.len(),
{
    if row.len() > 0 {
        lemma_result_row_view(row.drop_last());
        assert(result_row_view(row) == result_row_view(row.drop_last()).push(
            (row.last().0@, row.last().1@),
        ));
        assert forall|i: int| 0 <= i < row.len() implies result_row_view(row)[i]
            == (#[trigger] row[i].0@, row[i].1@) by {
            if i < row.len() - 1 {
                assert(row.drop_last()[i] == row[i]);
                assert(result_row_view(row.drop_last())[i]
                    == (row.drop_last()[i].0@, row.drop_last()[i].1@));
                assert(result_row_view(row)[i] == result_row_view(row.drop_last())[i]);
            } else {
                assert(row.last() == row[i]);
                assert(result_row_view(row)[i] == (row.last().0@, row.last().1@));
            }
        }
    }
}

/// The error reported for a column the row does not have.
pub open spec fn invalid_column_error(column: Seq<char>) -> FieldsErrorV {
    FieldsErrorV::InvalidRequest("invalid column name: "@ + column)
}

/// The error reported for a relationship selection.
pub open spec fn relationship_error() -> FieldsErrorV {
    FieldsErrorV::UnsupportedOperation("Relationship fields are not supported"@)
}

/// The error reported when a nested object selection meets a value that is
/// not an object.
pub open spec fn object_expected_error() -> FieldsErrorV {
    FieldsErrorV::InvalidRequest("Object expected"@)
}

/// The error reported when a nested array selection meets a value that is
/// not an array.
pub open spec fn array_expected_error() -> FieldsErrorV {
    FieldsErrorV::InvalidRequest("Array expected"@)
}

/// What reading a column of a row yields: the first entry of that name, or
/// an error naming the column.
pub open spec fn spec_eval_column(item: Seq<(Seq<char>, ValueV)>, column: Seq<char>) -> Result<
    ValueV,
    FieldsErrorV,
> {
    match lookup(item, column) {
        Some(v) => Ok(v),
        None => Err(invalid_column_error(column)),
    }
}

/// What evaluating one requested field against a row yields.
pub open spec fn spec_eval_field(field: FieldV, item: Seq<(Seq<char>, ValueV)>) -> Result<
    ValueV,
    FieldsErrorV,
>
    decreases field, 0int, 0int,
{
    match field {
        FieldV::Column { column, fields } => match spec_eval_column(item, column) {
            Ok(col_val) => match fields {
                None => Ok(col_val),
                Some(nested) => spec_eval_nested_field(col_val, nested),
            },
            Err(e) => Err(e),
        },
        FieldV::Relationship => Err(relationship_error()),
    }
}

/// What projecting a whole selection against a row yields: the requested
/// entries in selection order, or the first error met in that order.
pub open spec fn spec_eval_row(
    fields: Seq<(Seq<char>, FieldV)>,
    item: Seq<(Seq<char>, ValueV)>,
) -> Result<Seq<(Seq<char>, ValueV)>, FieldsErrorV>
    decreases fields, 0int, 0int,
{
    if fields.len() == 0 {
        Ok(Seq::empty())
    } else {
        match spec_eval_row(fields.drop_last(), item) {
            Ok(row) => match spec_eval_field(fields.last().1, item) {
                Ok(v) => Ok(row.push((fields.last().0, v))),
                Err(e) => Err(e),
            },
            Err(e) => Err(e),
        }
    }
}

/// What projecting a nested selection into one value yields.
pub open spec fn spec_eval_nested_field(value: ValueV, nested_field: NestedFieldV) -> Result<
    ValueV,
    FieldsErrorV,
>
    decreases nested_field, 0int, 0int,
{
    match nested_field {
        NestedFieldV::Object(fields) => match value {
            ValueV::Object(entries) => match spec_eval_row(fields, entries) {
                Ok(row) => Ok(ValueV::Object(row)),
                Err(e) => Err(e),
            },
            _ => Err(object_expected_error()),
        },
        NestedFieldV::Array(elem) => match value {
            ValueV::Array(items) => match spec_eval_elements(*elem, items) {
                Ok(vals) => Ok(ValueV::Array(vals)),
                Err(e) => Err(e),
            },
            _ => Err(array_expected_error()),
        },
    }
}

/// What projecting a nested selection into every element of an array yields:
/// an array of equal length, in order, or the first element's error.
pub open spec fn spec_eval_elements(elem: NestedFieldV, items: Seq<ValueV>) -> Result<
    Seq<ValueV>,
    FieldsErrorV,
>
    decreases elem, 1int, items.len(),
{
    if items.len() == 0 {
        Ok(Seq::empty())
    } else {
        match spec_eval_elements(elem, items.drop_last()) {
            Ok(vals) => match spec_eval_nested_field(items.last(), elem) {
                Ok(v) => Ok(vals.push(v)),
                Err(e) => Err(e),
            },
            Err(e) => Err(e),
        }
    }
}

/// An error on a field aborts the whole row projection with that error,
/// provided every field before it succeeded.
pub proof fn lemma_eval_row_error(
    fields: Seq<(Seq<char>, FieldV)>,
    item: Seq<(Seq<char>, ValueV)>,
    i: int,
)
    requires
        0 <= i < fields.len(),
        spec_eval_row(fields.take(i), item) is Ok,
        spec_eval_field(fields[i].1, item) is Err,
    ensures
        spec_eval_row(fields, item) == Err::<Seq<(Seq<char>, ValueV)>, FieldsErrorV>(
            spec_eval_field(fields[i].1, item)->Err_0,
        ),
    decreases fields.len(),
{
    if i == fields.len() - 1 {
        assert(fields.take(i) =~= fields.drop_last());
        assert(fields.last() == fields[i]);
    } else {
        assert(fields.drop_last().take(i) =~= fields.take(i));
        assert(fields.drop_last()[i] == fields[i]);
        lemma_eval_row_error(fields.drop_last(), item, i);
    }
}

/// An error on an array element aborts the whole array projection with that
/// error, provided every element before it succeeded.
pub proof fn lemma_eval_elements_error(elem: NestedFieldV, items: Seq<ValueV>, i: int)
    requires
        0 <= i < items.len(),
        spec_eval_elements(elem, items.take(i)) is Ok,
        spec_eval_nested_field(items[i], elem) is Err,
    ensures
        spec_eval_elements(elem, items) == Err::<Seq<ValueV>, FieldsErrorV>(
            spec_eval_nested_field(items[i], elem)->Err_0,
        ),
    decreases items.len(),
{
    if i == items.len() - 1 {
        assert(items.take(i) =~= items.drop_last());
        assert(items.last() == items[i]);
    } else {
        assert(items.drop_last().take(i) =~= items.take(i));
        assert(items.drop_last()[i] == items[i]);
        lemma_eval_elements_error(elem, items.drop_last(), i);
    }
}

/// In a row with unique keys, looking a key up yields that entry's value.
pub proof fn lemma_lookup_unique_at(item: Seq<(Seq<char>, ValueV)>, j: int)
    requires
        unique_keys(item),
        0 <= j < item.len(),
    ensures
        lookup(item, item[j].0) == Some(item[j].1),
{
    lemma_lookup_found(item, item[j].0, j);
}

/// Law: a projection that succeeds has exactly the selection's shape: one
/// output entry per requested field, under the requested names, in the
/// selection's order, each carrying the value its field evaluates to.
pub proof fn lemma_output_shape(fields: Seq<(Seq<char>, FieldV)>, item: Seq<(Seq<char>, ValueV)>)
    requires
        spec_eval_row(fields, item) is Ok,
    ensures
        spec_eval_row(fields, item)->Ok_0.len() == fields.len(),
        forall|i: int| 0 <= i < fields.len()
            ==> #[trigger] spec_eval_field(fields[i].1, item) is Ok,
        forall|i: int| 0 <= i < fields.len() ==> #[trigger] spec_eval_row(fields, item)->Ok_0[i]
            == (fields[i].0, spec_eval_field(fields[i].1, item)->Ok_0),
    decreases fields.len(),
{
    if fields.len() > 0 {
        lemma_output_shape(fields.drop_last(), item);
        assert forall|i: int| 0 <= i < fields.len() implies #[trigger] spec_eval_field(
            fields[i].1,
            item,
        ) is Ok && spec_eval_row(fields, item)->Ok_0[i] == (
            fields[i].0,
            spec_eval_field(fields[i].1, item)->Ok_0,
        ) by {
            if i < fields.len() - 1 {
                assert(fields.drop_last()[i] == fields[i]);
                assert(spec_eval_row(fields.drop_last(), item)->Ok_0[i] == (
                    fields[i].0,
                    spec_eval_field(fields[i].1, item)->Ok_0,
                ));
            } else {
                assert(fields.last() == fields[i]);
            }
        }
    }
}

/// Law: a selection of plain column references, every one of which names a
/// column the row has, projects successfully, and each output entry carries
/// the requested name and the looked-up value.
pub proof fn lemma_plain_projection(
    fields: Seq<(Seq<char>, FieldV)>,
    item: Seq<(Seq<char>, ValueV)>,
)
    requires
        forall|i: int| 0 <= i < fields.len() ==> (#[trigger] fields[i]).1 == (FieldV::Column {
            column: fields[i].0,
            fields: None::<NestedFieldV>,
        }),
        forall|i: int| 0 <= i < fields.len() ==> #[trigger] lookup(item, fields[i].0) is Some,
    ensures
        spec_eval_row(fields, item) is Ok,
        spec_eval_row(fields, item)->Ok_0.len() == fields.len(),
        forall|i: int| 0 <= i < fields.len() ==> #[trigger] spec_eval_row(fields, item)->Ok_0[i]
            == (fields[i].0, lookup(item, fields[i].0)->0),
    decreases fields.len(),
{
    if fields.len() > 0 {
        assert forall|i: int| 0 <= i < fields.drop_last().len() implies (
        #[trigger] fields.drop_last()[i]).1 == (FieldV::Column {
            column: fields.drop_last()[i].0,
            fields: None::<NestedFieldV>,
        }) && lookup(item, fields.drop_last()[i].0) is Some by {
            assert(fields.drop_last()[i] == fields[i]);
            assert(lookup(item, fields[i].0) is Some);
        }
        lemma_plain_projection(fields.drop_last(), item);
        let last = fields.last();
        assert(last == fields[fields.len() - 1]);
        assert(spec_eval_field(last.1, item) == Ok::<ValueV, FieldsErrorV>(
            lookup(item, last.0)->0,
        ));
        assert forall|i: int| 0 <= i < fields.len() implies #[trigger] spec_eval_row(
            fields,
            item,
        )->Ok_0[i] == (fields[i].0, lookup(item, fields[i].0)->0) by {
            if i < fields.len() - 1 {
                assert(fields.drop_last()[i] == fields[i]);
                assert(spec_eval_row(fields.drop_last(), item)->Ok_0[i] == (
                    fields.drop_last()[i].0,
                    lookup(item, fields.drop_last()[i].0)->0,
                ));
            }
        }
    }
}

/// Law: identity projection. A selection that names every column of a row
/// with unique keys, each as a plain reference to the column of the same
/// name, projects to the row itself, reordered to the selection's order:
/// entry `i` of the output is the row's entry for the selection's `i`-th
/// name, every entry of the row appears in the output, and every entry of
/// the output is an entry of the row.
pub proof fn lemma_identity_projection(
    fields: Seq<(Seq<char>, FieldV)>,
    item: Seq<(Seq<char>, ValueV)>,
)
    requires
        unique_keys(item),
        forall|i: int| 0 <= i < fields.len() ==> (#[trigger] fields[i]).1 == (FieldV::Column {
            column: fields[i].0,
            fields: None::<NestedFieldV>,
        }),
        forall|i: int| 0 <= i < fields.len() ==> #[trigger] lookup(item, fields[i].0) is Some,
        forall|j: int| 0 <= j < item.len() ==> exists|i: int|
            0 <= i < fields.len() && (#[trigger] item[j]).0 == fields[i].0,
    ensures
        spec_eval_row(fields, item) is Ok,
        spec_eval_row(fields, item)->Ok_0.len() == fields.len(),
        forall|i: int| 0 <= i < fields.len() ==> #[trigger] spec_eval_row(fields, item)->Ok_0[i]
            == (fields[i].0, lookup(item, fields[i].0)->0),
        forall|j: int| 0 <= j < item.len() ==> exists|i: int|
            0 <= i < fields.len() && #[trigger] item[j] == spec_eval_row(fields, item)->Ok_0[i],
        forall|i: int| 0 <= i < fields.len() ==> exists|j: int|
            0 <= j < item.len() && #[trigger] spec_eval_row(fields, item)->Ok_0[i] == item[j],
{
    lemma_plain_projection(fields, item);
    assert forall|i: int| 0 <= i < fields.len() implies exists|j: int|
        0 <= j < item.len() && #[trigger] spec_eval_row(fields, item)->Ok_0[i] == item[j] by {
        assert(lookup(item, fields[i].0) is Some);
        crate::values::lemma_lookup_is_entry(item, fields[i].0);
        let j = choose|j: int|
            0 <= j < item.len() && #[trigger] item[j] == (
                fields[i].0,
                lookup(item, fields[i].0)->0,
            );
        assert(spec_eval_row(fields, item)->Ok_0[i] == item[j]);
    }
    assert forall|j: int| 0 <= j < item.len() implies exists|i: int|
        0 <= i < fields.len() && #[trigger] item[j] == spec_eval_row(fields, item)->Ok_0[i] by {
        let i = choose|i: int| 0 <= i < fields.len() && item[j].0 == fields[i].0;
        lemma_lookup_unique_at(item, j);
        assert(lookup(item, fields[i].0) == Some(item[j].1));
        assert(spec_eval_row(fields, item)->Ok_0[i] == (fields[i].0, item[j].1));
        assert(item[j] == spec_eval_row(fields, item)->Ok_0[i]);
    }
}

/// Law: a relationship field evaluates to the unsupported-operation error
/// whatever the row holds: the row is never consulted.
pub proof fn lemma_relationship_field_error(field: FieldV, item: Seq<(Seq<char>, ValueV)>)
    requires
        field is Relationship,
    ensures
        spec_eval_field(field, item) == Err::<ValueV, FieldsErrorV>(relationship_error()),
{
}

/// Law: relationship rejection. A selection that contains a relationship
/// field never projects successfully, whatever the row holds; and when every
/// field before the relationship evaluates successfully, the error is the
/// unsupported-operation error.
pub proof fn lemma_relationship_rejected(
    fields: Seq<(Seq<char>, FieldV)>,
    item: Seq<(Seq<char>, ValueV)>,
    i: int,
)
    requires
        0 <= i < fields.len(),
        fields[i].1 is Relationship,
    ensures
        spec_eval_row(fields, item) is Err,
        spec_eval_row(fields.take(i), item) is Ok ==> spec_eval_row(fields, item) == Err::<
            Seq<(Seq<char>, ValueV)>,
            FieldsErrorV,
        >(relationship_error()),
{
    if spec_eval_row(fields, item) is Ok {
        lemma_output_shape(fields, item);
        assert(spec_eval_field(fields[i].1, item) is Ok);
        assert(false);
    }
    if spec_eval_row(fields.take(i), item) is Ok {
        lemma_eval_row_error(fields, item, i);
    }
}

/// Law: determinism. The projection of a row through a selection is a
/// function of the two alone: equal selections and equal rows always
/// project to equal results.
pub proof fn lemma_projection_deterministic(
    fields1: Seq<(Seq<char>, FieldV)>,
    item1: Seq<(Seq<char>, ValueV)>,
    fields2: Seq<(Seq<char>, FieldV)>,
    item2: Seq<(Seq<char>, ValueV)>,
)
    requires
        fields1 == fields2,
        item1 == item2,
    ensures
        spec_eval_row(fields1, item1) == spec_eval_row(fields2, item2),
{
}

/// Looks a column up in a row, by exact name.
fn eval_column(item: &Vec<(String, Value)>, column_name: &String) -> (r: Result<
    Value,
    FieldsError,
>)
    ensures
        match r {
            Ok(v) => spec_eval_column(row_view(item@), column_name@) == Ok::<
                ValueV,
                FieldsErrorV,
            >(v@),
            Err(e) => spec_eval_column(row_view(item@), column_name@) == Err::<
                ValueV,
                FieldsErrorV,
            >(e@),
        },
{
    let mut i: usize = 0;
    while i < item.len()
        invariant
            i <= item@.len(),
            forall|j: int| 0 <= j < i ==> #[trigger] item@[j].0@ != column_name@,
        decreases item@.len() - i,
    {
        if item[i].0 == *column_name {
            proof {
                lemma_row_view(item@);
                assert forall|j: int| 0 <= j < i implies #[trigger] row_view(item@)[j].0
                    != column_name@ by {
                    assert(item@[j].0@ != column_name@);
                    assert(row_view(item@)[j] == (item@[j].0@, item@[j].1@));
                }
                assert(row_view(item@)[i as int] == (item@[i as int].0@, item@[i as int].1@));
                lemma_lookup_found(row_view(item@), column_name@, i as int);
            }
            return Ok(item[i].1.deep_clone());
        }
        i += 1;
    }
    proof {
        lemma_row_view(item@);
        assert forall|j: int| 0 <= j < item@.len() implies #[trigger] row_view(item@)[j].0
            != column_name@ by {
            assert(item@[j].0@ != column_name@);
            assert(row_view(item@)[j] == (item@[j].0@, item@[j].1@));
        }
        lemma_lookup_none(row_view(item@), column_name@);
    }
    Err(FieldsError::InvalidRequest(
        "invalid column name: ".to_owned().concat(column_name.as_str()),
    ))
}

/// Evaluates one requested field against a row.
fn eval_field(field: &Field, item: &Vec<(String, Value)>) -> (r: Result<
    RowFieldValue,
    FieldsError,
>)
    ensures
        match r {
            Ok(v) => spec_eval_field(field@, row_view(item@)) == Ok::<ValueV, FieldsErrorV>(v@),
            Err(e) => spec_eval_field(field@, row_view(item@)) == Err::<ValueV, FieldsErrorV>(e@),
        },
    decreases field,
{
    match field {
        Field::Column { column, fields } => match eval_column(item, column) {
            Ok(col_val) => match fields {
                None => Ok(RowFieldValue(col_val)),
                Some(nested_field) => eval_nested_field(&col_val, nested_field),
            },
            Err(e) => Err(e),
        },
        Field::Relationship => Err(FieldsError::UnsupportedOperation(
            "Relationship fields are not supported".to_owned(),
        )),
    }
}

/// Projects a row through a selection: for each requested field, in the
/// selection's order, the column it names, projected by its nested selection
/// when it has one. The first failing field aborts the projection with its
/// error.
pub fn eval_row(fields: &Vec<(String, Field)>, item: &Vec<(String, Value)>) -> (r: Result<
    Vec<(String, RowFieldValue)>,
    FieldsError,
>)
    ensures
        match r {
            Ok(row) => spec_eval_row(selection_view(fields@), row_view(item@)) == Ok::<
                Seq<(Seq<char>, ValueV)>,
                FieldsErrorV,
            >(result_row_view(row@)),
            Err(e) => spec_eval_row(selection_view(fields@), row_view(item@)) == Err::<
                Seq<(Seq<char>, ValueV)>,
                FieldsErrorV,
            >(e@),
        },
    decreases fields@,
{
    let ghost sel = selection_view(fields@);
    let ghost rv = row_view(item@);
    let mut row: Vec<(String, RowFieldValue)> = Vec::new();
    let mut i: usize = 0;
    while i < fields.len()
        invariant
            i <= fields@.len(),
            row@.len() == i as nat,
            sel == selection_view(fields@),
            rv == row_view(item@),
            spec_eval_row(sel.take(i as int), rv) == Ok::<
                Seq<(Seq<char>, ValueV)>,
                FieldsErrorV,
            >(result_row_view(row@)),
        decreases fields@.len() - i,
    {
        proof {
            lemma_selection_view(fields@);
        }
        let (name, field) = &fields[i];
        match eval_field(field, item) {
            Ok(v) => {
                let ghost row_before = row@;
                row.push((name.clone(), v));
                proof {
                    assert(sel[i as int] == (fields@[i as int].0@, fields@[i as int].1@));
                    assert(sel.take(i as int + 1).drop_last() =~= sel.take(i as int));
                    assert(sel.take(i as int + 1).last() == (name@, field@));
                    assert(row@.drop_last() =~= row_before);
                    assert(result_row_view(row@) == result_row_view(row_before).push(
                        (name@, v@),
                    ));
                }
            },
            Err(e) => {
                proof {
                    assert(sel[i as int] == (fields@[i as int].0@, fields@[i as int].1@));
                    lemma_eval_row_error(sel, rv, i as int);
                }
                return Err(e);
            },
        }
        i += 1;
    }
    proof {
        lemma_selection_view(fields@);
        assert(sel.take(fields@.len() as int) =~= sel);
    }
    Ok(row)
}

/// Turns a projected row back into object entries.
fn row_to_entries(row: Vec<(String, RowFieldValue)>) -> (r: Vec<(String, Value)>)
    ensures
        row_view(r@) == result_row_view(row@),
{
    let mut rest = row;
    let mut out: Vec<(String, Value)> = Vec::new();
    let ghost all = rest@;
    while rest.len() > 0
        invariant
            out@.len() + rest@.len() == all.len(),
            rest@ =~= all.skip(out@.len() as int),
            forall|k: int| 0 <= k < out@.len() ==> (#[trigger] out@[k]).0@ == all[k].0@
                && out@[k].1@ == all[k].1@,
        decreases rest@.len(),
    {
        let ghost done = out@.len() as int;
        let ghost out_before = out@;
        let (name, value) = rest.remove(0);
        out.push((name, value.0));
        proof {
            assert(rest@ =~= all.skip(done + 1));
            assert(all.skip(done)[0] == all[done]);
            assert(out@[done] == (all[done].0, all[done].1.0));
            assert forall|k: int| 0 <= k < out@.len() implies (#[trigger] out@[k]).0@
                == all[k].0@ && out@[k].1@ == all[k].1@ by {
                if k < done {
                    assert(out@[k] == out_before[k]);
                }
            }
        }
    }
    proof {
        lemma_row_view(out@);
        lemma_result_row_view(all);
        assert forall|k: int| 0 <= k < all.len() implies row_view(out@)[k]
            == result_row_view(all)[k] by {
            assert((out@[k]).0@ == all[k].0@ && out@[k].1@ == all[k].1@);
        }
        assert(row_view(out@) =~= result_row_view(all));
    }
    out
}

/// Projects a nested selection into one value: an object selection projects
/// the value's entries as a row, an array selection projects every element
/// of the value in order. A value of the wrong shape, or any failing
/// element, aborts the projection with its error.
#[verifier::loop_isolation(false)]
pub fn eval_nested_field(value: &Value, nested_field: &NestedField) -> (r: Result<
    RowFieldValue,
    FieldsError,
>)
    ensures
        match r {
            Ok(v) => spec_eval_nested_field(value@, nested_field@) == Ok::<
                ValueV,
                FieldsErrorV,
            >(v@),
            Err(e) => spec_eval_nested_field(value@, nested_field@) == Err::<
                ValueV,
                FieldsErrorV,
            >(e@),
        },
    decreases nested_field,
{
    match nested_field {
        NestedField::Object { fields } => match value {
            Value::Object(entries) => match eval_row(fields, entries) {
                Ok(row) => Ok(RowFieldValue(Value::Object(row_to_entries(row)))),
                Err(e) => Err(e),
            },
            _ => Err(FieldsError::InvalidRequest("Object expected".to_owned())),
        },
        NestedField::Array { fields } => match value {
            Value::Array(items) => {
                let ghost elemv = (**fields)@;
                let ghost itemsv = values_view(items@);
                let mut out: Vec<Value> = Vec::new();
                let mut i: usize = 0;
                proof {
                    lemma_values_view(items@);
                }
                while i < items.len()
                    invariant
                        i <= items@.len(),
                        out@.len() == i as nat,
                        elemv == (**fields)@,
                        itemsv == values_view(items@),
                        itemsv.len() == items@.len(),
                        forall|k: int| 0 <= k < items@.len()
                            ==> itemsv[k] == #[trigger] items@[k]@,
                        spec_eval_elements(elemv, itemsv.take(i as int)) == Ok::<
                            Seq<ValueV>,
                            FieldsErrorV,
                        >(values_view(out@)),
                    decreases items@.len() - i,
                {
                    proof {
                        assert(decreases_to!(*nested_field => **fields));
                    }
                    match eval_nested_field(&items[i], fields) {
                        Ok(v) => {
                            let ghost out_before = out@;
                            out.push(v.0);
                            proof {
                                lemma_values_view(out@);
                                assert(itemsv.take(i as int + 1).drop_last() =~= itemsv.take(
                                    i as int,
                                ));
                                assert(itemsv.take(i as int + 1).last() == items@[i as int]@);
                                assert(out@.drop_last() =~= out_before);
                                assert(values_view(out@) == values_view(out_before).push(v@));
                            }
                        },
                        Err(e) => {
                            proof {
                                lemma_eval_elements_error(elemv, itemsv, i as int);
                            }
                            return Err(e);
                        },
                    }
                    i += 1;
                }
                proof {
                    assert(itemsv.take(items@.len() as int) =~= itemsv);
                }
                Ok(RowFieldValue(Value::Array(out)))
            },
            _ => Err(FieldsError::InvalidRequest("Array expected".to_owned())),
        },
    }
}

} // verus!
