use vstd::prelude::*;
use vstd::string::StringExecFns;

use crate::fields::{
    eval_row, selection_view, spec_eval_row, Field, FieldV, FieldsError, FieldsErrorV,
    RowFieldValue,
};
use crate::sendgrid_api::{
    ListTransactionalTemplatesParams, ListTransactionalTemplatesParamsV, TransactionTemplateVersion,
    TransactionTemplateVersionV, TransactionalTemplate, TransactionalTemplateV,
};
use crate::values::{lemma_lookup_found, lemma_lookup_none, lemma_row_view, lemma_values_view,
    lookup, opt_string_value, row_view, values_view, Value, ValueV};

verus! {

/// One argument of a query request: a literal value, or a reference to a
/// variable, which this connector does not support.
#[derive(Debug, PartialEq)]
pub enum Argument {
    Literal { value: Value },
    Variable { name: String },
}

/// The model of an `Argument`.
pub enum ArgumentV {
    Literal { value: ValueV },
    Variable { name: Seq<char> },
}

impl View for Argument {
    type V = ArgumentV;

    open spec fn view(&self) -> ArgumentV {
        match self {
            Argument::Literal { value } => ArgumentV::Literal { value: value@ },
            Argument::Variable { name } => ArgumentV::Variable { name: name@ },
        }
    }
}

/// The model of a list of named arguments.
pub open spec fn arguments_view(args: Seq<(String, Argument)>) -> Seq<(Seq<char>, ArgumentV)> {
    Seq::new(args.len(), |i: int| (args[i].0@, args[i].1@))
}

/// The first argument of the given name, if any.
fn find_argument<'a>(args: &'a Vec<(String, Argument)>, name: &String) -> (r: Option<
    &'a Argument,
>)
    ensures
        match r {
            Some(a) => lookup(arguments_view(args@), name@) == Some(a@),
            None => lookup(arguments_view(args@), name@) is None,
        },
{
    let mut i: usize = 0;
    while i < args.len()
        invariant
            i <= args@.len(),
            forall|j: int| 0 <= j < i ==> #[trigger] args@[j].0@ != name@,
        decreases args@.len() - i,
    {
        if args[i].0 == *name {
            proof {
                assert forall|j: int| 0 <= j < i implies #[trigger] arguments_view(args@)[j].0
                    != name@ by {
                    assert(args@[j].0@ != name@);
                }
                lemma_lookup_found(arguments_view(args@), name@, i as int);
            }
            return Some(&args[i].1);
        }
        i += 1;
    }
    proof {
        assert forall|j: int| 0 <= j < args@.len() implies #[trigger] arguments_view(args@)[j].0
            != name@ by {
            assert(args@[j].0@ != name@);
        }
        lemma_lookup_none(arguments_view(args@), name@);
    }
    None
}

/// Whether a request names the template-listing function.
pub fn is_list_templates_function(name: &String) -> (r: bool)
    ensures
        r == (name@ == "list_templates"@),
{
    *name == String::from_str(crate::schema::LIST_TEMPLATES_FUNCTION_NAME)
}

/// The error reported for a collection this connector does not have.
pub open spec fn spec_unknown_collection_message(name: Seq<char>) -> Seq<char> {
    "Unknown collection: "@ + name
}

/// Builds the refusal for a collection this connector does not have: an
/// invalid-request error naming the collection.
pub fn unknown_collection_error(name: &String) -> (r: FieldsError)
    ensures
        r@ == FieldsErrorV::InvalidRequest(spec_unknown_collection_message(name@)),
{
    FieldsError::InvalidRequest("Unknown collection: ".to_owned().concat(name.as_str()))
}

/// The error reported when a parameter value has the wrong shape: it
/// names the parameter at fault.
pub open spec fn params_error(name: Seq<char>) -> FieldsErrorV {
    FieldsErrorV::InvalidRequest("Unable to deserialize 'params': "@ + name)
}

/// What an optional text parameter parses to: null stands for absent, text
/// for itself, and anything else is rejected, naming the parameter.
pub open spec fn spec_parse_opt_string(v: ValueV, name: Seq<char>) -> Result<
    Option<Seq<char>>,
    FieldsErrorV,
> {
    match v {
        ValueV::Null => Ok(None),
        ValueV::String(s) => Ok(Some(s)),
        _ => Err(params_error(name)),
    }
}

/// What a page-size parameter parses to: an integer that fits an unsigned
/// 32-bit number; anything else is rejected, naming the parameter.
pub open spec fn spec_parse_page_size(v: ValueV) -> Result<u32, FieldsErrorV> {
    match v {
        ValueV::Number(n) => if 0 <= n <= u32::MAX {
            Ok(n as u32)
        } else {
            Err(params_error("page_size"@))
        },
        _ => Err(params_error("page_size"@)),
    }
}

/// What the arguments of a template-listing request parse to.
///
/// `page_size` is required; `generations` defaults to `legacy,dynamic` and
/// `page_token` to absent. A variable in place of any literal is
/// unsupported; parameter values of the wrong shape are invalid.
pub open spec fn spec_parse_list_templates_params(args: Seq<(Seq<char>, ArgumentV)>) -> Result<
    ListTransactionalTemplatesParamsV,
    FieldsErrorV,
> {
    match lookup(args, "page_size"@) {
        None => Err(
            FieldsErrorV::InvalidRequest("Couldn't find 'page_size' field in arguments"@),
        ),
        Some(page_size_arg) => {
            let generations_arg = match lookup(args, "generations"@) {
                Some(a) => a,
                None => ArgumentV::Literal { value: ValueV::String("legacy,dynamic"@) },
            };
            let page_token_arg = match lookup(args, "page_token"@) {
                Some(a) => a,
                None => ArgumentV::Literal { value: ValueV::Null },
            };
            match (generations_arg, page_size_arg, page_token_arg) {
                (
                    ArgumentV::Literal { value: gv },
                    ArgumentV::Literal { value: pv },
                    ArgumentV::Literal { value: tv },
                ) => match spec_parse_opt_string(gv, "generations"@) {
                    Ok(generations) => match spec_parse_page_size(pv) {
                        Ok(page_size) => match spec_parse_opt_string(tv, "page_token"@) {
                            Ok(page_token) => Ok(
                                ListTransactionalTemplatesParamsV {
                                    generations,
                                    page_size,
                                    page_token,
                                },
                            ),
                            Err(e) => Err(e),
                        },
                        Err(e) => Err(e),
                    },
                    Err(e) => Err(e),
                },
                _ => Err(
                    FieldsErrorV::UnsupportedOperation("Variables not currently supported"@),
                ),
            }
        },
    }
}

/// Parses the arguments of a template-listing request.
pub fn parse_list_templates_params(in_args: &Vec<(String, Argument)>) -> (r: Result<
    ListTransactionalTemplatesParams,
    FieldsError,
>)
    ensures
        match r {
            Ok(p) => spec_parse_list_templates_params(arguments_view(in_args@)) == Ok::<
                ListTransactionalTemplatesParamsV,
                FieldsErrorV,
            >(p@),
            Err(e) => spec_parse_list_templates_params(arguments_view(in_args@)) == Err::<
                ListTransactionalTemplatesParamsV,
                FieldsErrorV,
            >(e@),
        },
{
    let page_size_arg = match find_argument(in_args, &"page_size".to_owned()) {
        Some(a) => a,
        None => {
            return Err(FieldsError::InvalidRequest(
                "Couldn't find 'page_size' field in arguments".to_owned(),
            ));
        },
    };
    let default_generations = Argument::Literal {
        value: Value::String("legacy,dynamic".to_owned()),
    };
    let generations_arg = match find_argument(in_args, &"generations".to_owned()) {
        Some(a) => a,
        None => &default_generations,
    };
    let default_page_token = Argument::Literal { value: Value::Null };
    let page_token_arg = match find_argument(in_args, &"page_token".to_owned()) {
        Some(a) => a,
        None => &default_page_token,
    };
    match (generations_arg, page_size_arg, page_token_arg) {
        (
            Argument::Literal { value: gv },
            Argument::Literal { value: pv },
            Argument::Literal { value: tv },
        ) => {
            let generations: Option<String> = match gv {
                Value::Null => None,
                Value::String(s) => Some(s.clone()),
                _ => {
                    return Err(FieldsError::InvalidRequest(
                        "Unable to deserialize 'params': ".to_owned().concat("generations"),
                    ));
                },
            };
            let page_size: u32 = match pv {
                Value::Number(n) => {
                    if 0 <= *n && *n <= u32::MAX as i64 {
                        *n as u32
                    } else {
                        return Err(FieldsError::InvalidRequest(
                            "Unable to deserialize 'params': ".to_owned().concat("page_size"),
                        ));
                    }
                },
                _ => {
                    return Err(FieldsError::InvalidRequest(
                        "Unable to deserialize 'params': ".to_owned().concat("page_size"),
                    ));
                },
            };
            let page_token: Option<String> = match tv {
                Value::Null => None,
                Value::String(s) => Some(s.clone()),
                _ => {
                    return Err(FieldsError::InvalidRequest(
                        "Unable to deserialize 'params': ".to_owned().concat("page_token"),
                    ));
                },
            };
            Ok(ListTransactionalTemplatesParams { generations, page_size, page_token })
        },
        _ => Err(FieldsError::UnsupportedOperation("Variables not currently supported".to_owned())),
    }
}

/// The value a template version is rendered as: one object per field, in
/// the wire order.
pub open spec fn spec_version_value(v: TransactionTemplateVersionV) -> ValueV {
    ValueV::Object(
        seq![
            ("id"@, ValueV::String(v.id)),
            ("template_id"@, ValueV::String(v.template_id)),
            ("active"@, ValueV::Number(v.active as int)),
            ("name"@, ValueV::String(v.name)),
            ("subject"@, opt_string_value(v.subject)),
            ("updated_at"@, ValueV::String(v.updated_at)),
            ("generate_plain_content"@, ValueV::Bool(v.generate_plain_content)),
            ("editor"@, ValueV::String(v.editor)),
            ("thumbnail_url"@, ValueV::String(v.thumbnail_url)),
        ],
    )
}

/// The value a template is rendered as.
pub open spec fn spec_template_value(t: TransactionalTemplateV) -> ValueV {
    ValueV::Object(
        seq![
            ("id"@, ValueV::String(t.id)),
            ("name"@, ValueV::String(t.name)),
            ("generation"@, ValueV::String(t.generation)),
            ("updated_at"@, ValueV::String(t.updated_at)),
            (
                "versions"@,
                ValueV::Array(Seq::new(t.versions.len(), |i: int| spec_version_value(t.versions[i]))),
            ),
        ],
    )
}

/// The value a list of templates is rendered as.
pub open spec fn spec_templates_value(ts: Seq<TransactionalTemplateV>) -> ValueV {
    ValueV::Array(Seq::new(ts.len(), |i: int| spec_template_value(ts[i])))
}

/// Renders one template version as a value.
fn version_to_value(v: &TransactionTemplateVersion) -> (r: Value)
    ensures
        r@ == spec_version_value(v.deep_view()),
{
    let mut entries: Vec<(String, Value)> = Vec::new();
    entries.push(("id".to_owned(), Value::String(v.id.clone())));
    entries.push(("template_id".to_owned(), Value::String(v.template_id.clone())));
    entries.push(("active".to_owned(), Value::Number(v.active as i64)));
    entries.push(("name".to_owned(), Value::String(v.name.clone())));
    entries.push((
        "subject".to_owned(),
        match &v.subject {
            Some(s) => Value::String(s.clone()),
            None => Value::Null,
        },
    ));
    entries.push(("updated_at".to_owned(), Value::String(v.updated_at.clone())));
    entries.push(("generate_plain_content".to_owned(), Value::Bool(v.generate_plain_content)));
    entries.push(("editor".to_owned(), Value::String(v.editor.clone())));
    entries.push(("thumbnail_url".to_owned(), Value::String(v.thumbnail_url.clone())));
    proof {
        lemma_row_view(entries@);
        assert forall|k: int| 0 <= k < entries@.len() implies row_view(entries@)[k]
            == spec_version_value(v.deep_view())->Object_0[k] by {
            assert(row_view(entries@)[k] == (entries@[k].0@, entries@[k].1@));
        }
        assert(row_view(entries@) =~= spec_version_value(v.deep_view())->Object_0);
    }
    Value::Object(entries)
}

/// Renders one template as a value.
fn template_to_value(t: &TransactionalTemplate) -> (r: Value)
    ensures
        r@ == spec_template_value(t.deep_view()),
{
    let mut versions: Vec<Value> = Vec::new();
    let mut i: usize = 0;
    while i < t.versions.len()
        invariant
            i <= t.versions@.len(),
            versions@.len() == i as nat,
            forall|k: int| 0 <= k < i ==> #[trigger] versions@[k]@ == spec_version_value(
                t.versions@[k].deep_view(),
            ),
        decreases t.versions@.len() - i,
    {
        versions.push(version_to_value(&t.versions[i]));
        i += 1;
    }
    let mut entries: Vec<(String, Value)> = Vec::new();
    entries.push(("id".to_owned(), Value::String(t.id.clone())));
    entries.push(("name".to_owned(), Value::String(t.name.clone())));
    entries.push(("generation".to_owned(), Value::String(t.generation.clone())));
    entries.push(("updated_at".to_owned(), Value::String(t.updated_at.clone())));
    entries.push(("versions".to_owned(), Value::Array(versions)));
    proof {
        lemma_values_view(entries@[4].1->Array_0@);
        assert forall|k: int| 0 <= k < t.versions@.len() implies values_view(
            entries@[4].1->Array_0@,
        )[k] == spec_version_value(t.deep_view().versions[k]) by {
            assert(entries@[4].1->Array_0@[k]@ == spec_version_value(t.versions@[k].deep_view()));
            assert(t.deep_view().versions[k] == t.versions@[k].deep_view());
        }
        assert(values_view(entries@[4].1->Array_0@) =~= Seq::new(
            t.deep_view().versions.len(),
            |i: int| spec_version_value(t.deep_view().versions[i]),
        ));
        lemma_row_view(entries@);
        assert forall|k: int| 0 <= k < entries@.len() implies row_view(entries@)[k]
            == spec_template_value(t.deep_view())->Object_0[k] by {
            assert(row_view(entries@)[k] == (entries@[k].0@, entries@[k].1@));
        }
        assert(row_view(entries@) =~= spec_template_value(t.deep_view())->Object_0);
    }
    Value::Object(entries)
}

/// Renders the result of a template-listing call as a value: an array of
/// template objects, in order.
pub fn templates_to_value(templates: &Vec<TransactionalTemplate>) -> (r: Value)
    ensures
        r@ == spec_templates_value(templates.deep_view()),
{
    let mut out: Vec<Value> = Vec::new();
    let mut i: usize = 0;
    while i < templates.len()
        invariant
            i <= templates@.len(),
            out@.len() == i as nat,
            forall|k: int| 0 <= k < i ==> #[trigger] out@[k]@ == spec_template_value(
                templates@[k].deep_view(),
            ),
        decreases templates@.len() - i,
    {
        out.push(template_to_value(&templates[i]));
        i += 1;
    }
    proof {
        lemma_values_view(out@);
        assert forall|k: int| 0 <= k < out@.len() implies values_view(out@)[k]
            == spec_template_value(templates.deep_view()[k]) by {
            assert(out@[k]@ == spec_template_value(templates@[k].deep_view()));
            assert(templates.deep_view()[k] == templates@[k].deep_view());
        }
        assert(values_view(out@) =~= Seq::new(
            templates.deep_view().len(),
            |i: int| spec_template_value(templates.deep_view()[i]),
        ));
    }
    Value::Array(out)
}

/// What projecting a function's result row through an optional selection
/// yields: no selection passes the row through unprojected (absent), a
/// selection projects the single-column row holding the result under
/// `__value`.
pub open spec fn spec_project_function_result(
    result: ValueV,
    fields: Option<Seq<(Seq<char>, FieldV)>>,
) -> Result<Option<Seq<(Seq<char>, ValueV)>>, FieldsErrorV> {
    match fields {
        None => Ok(None),
        Some(f) => match spec_eval_row(f, seq![("__value"@, result)]) {
            Ok(row) => Ok(Some(row)),
            Err(e) => Err(e),
        },
    }
}

/// Projects the result of a function call through the request's selection,
/// when it has one. The result stands in a single-column row named
/// `__value`, as the connector's schema declares it.
pub fn project_function_result(result: Value, fields: &Option<Vec<(String, Field)>>) -> (r:
    Result<Option<Vec<(String, RowFieldValue)>>, FieldsError>)
    ensures
        match r {
            Ok(Some(row)) => spec_project_function_result(
                result@,
                match fields {
                    Some(f) => Some(selection_view(f@)),
                    None => None,
                },
            ) == Ok::<Option<Seq<(Seq<char>, ValueV)>>, FieldsErrorV>(
                Some(crate::fields::result_row_view(row@)),
            ),
            Ok(None) => fields is None,
            Err(e) => spec_project_function_result(
                result@,
                match fields {
                    Some(f) => Some(selection_view(f@)),
                    None => None,
                },
            ) == Err::<Option<Seq<(Seq<char>, ValueV)>>, FieldsErrorV>(e@),
        },
{
    match fields {
        None => Ok(None),
        Some(f) => {
            let row: Vec<(String, Value)> = vec![("__value".to_owned(), result)];
            proof {
                lemma_row_view(row@);
                assert(row_view(row@)[0] == (row@[0].0@, row@[0].1@));
                assert(row_view(row@) =~= seq![("__value"@, result@)]);
            }
            match eval_row(f, &row) {
                Ok(projected) => Ok(Some(projected)),
                Err(e) => Err(e),
            }
        },
    }
}

} // verus!
