use vstd::prelude::*;
use vstd::string::StringExecFns;

use crate::fields::{
    eval_nested_field, spec_eval_nested_field, FieldsError, FieldsErrorV, NestedField,
    NestedFieldV,
};
use crate::schema;
use crate::schema::{HeaderV, SubstitutionV, TemplateVariableV};
use crate::sendgrid_api;
use crate::sendgrid_api::{
    MailAddress, MailAddressV, MailAttachment, MailAttachmentV, MailContent, MailContentV,
    UnsubscriptionSettings, UnsubscriptionSettingsV,
};
use crate::values::{
    find_entry, lemma_row_view, lemma_values_view, lookup, opt_string_value, row_view,
    values_view, Value, ValueV,
};

verus! {

/// What a required text field decodes to: present text, and nothing else.
pub open spec fn spec_decode_req_string(o: Option<ValueV>) -> Option<Seq<char>> {
    match o {
        Some(ValueV::String(s)) => Some(s),
        _ => None,
    }
}

/// What an optional text field decodes to: absent and null stand for no
/// text, text for itself, and anything else is rejected.
pub open spec fn spec_decode_opt_string(o: Option<ValueV>) -> Option<Option<Seq<char>>> {
    match o {
        None => Some(None),
        Some(ValueV::Null) => Some(None),
        Some(ValueV::String(s)) => Some(Some(s)),
        _ => None,
    }
}

/// What an optional unsigned 32-bit field decodes to.
pub open spec fn spec_decode_opt_u32(o: Option<ValueV>) -> Option<Option<u32>> {
    match o {
        None => Some(None),
        Some(ValueV::Null) => Some(None),
        Some(ValueV::Number(n)) => if 0 <= n <= u32::MAX {
            Some(Some(n as u32))
        } else {
            None
        },
        _ => None,
    }
}

/// What a list of text values decodes to.
pub open spec fn spec_decode_strings(items: Seq<ValueV>) -> Option<Seq<Seq<char>>>
    decreases items.len(),
{
    if items.len() == 0 {
        Some(Seq::empty())
    } else {
        match spec_decode_strings(items.drop_last()) {
            Some(s) => match items.last() {
                ValueV::String(x) => Some(s.push(x)),
                _ => None,
            },
            None => None,
        }
    }
}

/// What a mail address decodes to: an object with required text `email`
/// and optional text `name`.
pub open spec fn spec_decode_mail_address(v: ValueV) -> Option<MailAddressV> {
    match v {
        ValueV::Object(entries) => match spec_decode_req_string(lookup(entries, "email"@)) {
            Some(email) => match spec_decode_opt_string(lookup(entries, "name"@)) {
                Some(name) => Some(MailAddressV { email, name }),
                None => None,
            },
            None => None,
        },
        _ => None,
    }
}

/// What a list of mail addresses decodes to.
pub open spec fn spec_decode_mail_addresses(items: Seq<ValueV>) -> Option<Seq<MailAddressV>>
    decreases items.len(),
{
    if items.len() == 0 {
        Some(Seq::empty())
    } else {
        match spec_decode_mail_addresses(items.drop_last()) {
            Some(s) => match spec_decode_mail_address(items.last()) {
                Some(a) => Some(s.push(a)),
                None => None,
            },
            None => None,
        }
    }
}

/// A failing element fails the whole address list.
pub proof fn lemma_decode_mail_addresses_err(items: Seq<ValueV>, i: int)
    requires
        0 <= i < items.len(),
        spec_decode_mail_address(items[i]) is None,
    ensures
        spec_decode_mail_addresses(items) is None,
    decreases items.len(),
{
    if i < items.len() - 1 {
        assert(items.drop_last()[i] == items[i]);
        lemma_decode_mail_addresses_err(items.drop_last(), i);
    }
}

/// What one mail content decodes to: an object with required text `type`
/// and `value`.
pub open spec fn spec_decode_mail_content(v: ValueV) -> Option<MailContentV> {
    match v {
        ValueV::Object(entries) => match spec_decode_req_string(lookup(entries, "type"@)) {
            Some(mime_type) => match spec_decode_req_string(lookup(entries, "value"@)) {
                Some(value) => Some(MailContentV { mime_type, value }),
                None => None,
            },
            None => None,
        },
        _ => None,
    }
}

/// What a list of mail contents decodes to.
pub open spec fn spec_decode_mail_contents(items: Seq<ValueV>) -> Option<Seq<MailContentV>>
    decreases items.len(),
{
    if items.len() == 0 {
        Some(Seq::empty())
    } else {
        match spec_decode_mail_contents(items.drop_last()) {
            Some(s) => match spec_decode_mail_content(items.last()) {
                Some(a) => Some(s.push(a)),
                None => None,
            },
            None => None,
        }
    }
}

/// A failing element fails the whole content list.
pub proof fn lemma_decode_mail_contents_err(items: Seq<ValueV>, i: int)
    requires
        0 <= i < items.len(),
        spec_decode_mail_content(items[i]) is None,
    ensures
        spec_decode_mail_contents(items) is None,
    decreases items.len(),
{
    if i < items.len() - 1 {
        assert(items.drop_last()[i] == items[i]);
        lemma_decode_mail_contents_err(items.drop_last(), i);
    }
}

/// What one attachment decodes to.
pub open spec fn spec_decode_mail_attachment(v: ValueV) -> Option<MailAttachmentV> {
    match v {
        ValueV::Object(entries) => match spec_decode_req_string(lookup(entries, "content"@)) {
            Some(content) => match spec_decode_opt_string(lookup(entries, "type"@)) {
                Some(mime_type) => match spec_decode_req_string(lookup(entries, "filename"@)) {
                    Some(filename) => match spec_decode_opt_string(
                        lookup(entries, "disposition"@),
                    ) {
                        Some(disposition) => match spec_decode_opt_string(
                            lookup(entries, "content_id"@),
                        ) {
                            Some(content_id) => Some(
                                MailAttachmentV {
                                    content,
                                    mime_type,
                                    filename,
                                    disposition,
                                    content_id,
                                },
                            ),
                            None => None,
                        },
                        None => None,
                    },
                    None => None,
                },
                None => None,
            },
            None => None,
        },
        _ => None,
    }
}

/// What a list of attachments decodes to.
pub open spec fn spec_decode_mail_attachments(items: Seq<ValueV>) -> Option<Seq<MailAttachmentV>>
    decreases items.len(),
{
    if items.len() == 0 {
        Some(Seq::empty())
    } else {
        match spec_decode_mail_attachments(items.drop_last()) {
            Some(s) => match spec_decode_mail_attachment(items.last()) {
                Some(a) => Some(s.push(a)),
                None => None,
            },
            None => None,
        }
    }
}

/// A failing element fails the whole attachment list.
pub proof fn lemma_decode_mail_attachments_err(items: Seq<ValueV>, i: int)
    requires
        0 <= i < items.len(),
        spec_decode_mail_attachment(items[i]) is None,
    ensures
        spec_decode_mail_attachments(items) is None,
    decreases items.len(),
{
    if i < items.len() - 1 {
        assert(items.drop_last()[i] == items[i]);
        lemma_decode_mail_attachments_err(items.drop_last(), i);
    }
}

/// What one header record decodes to: required text `name` and `value`.
pub open spec fn spec_decode_header(v: ValueV) -> Option<HeaderV> {
    match v {
        ValueV::Object(entries) => match spec_decode_req_string(lookup(entries, "name"@)) {
            Some(name) => match spec_decode_req_string(lookup(entries, "value"@)) {
                Some(value) => Some(HeaderV { name, value }),
                None => None,
            },
            None => None,
        },
        _ => None,
    }
}

/// What a list of header records decodes to.
pub open spec fn spec_decode_headers(items: Seq<ValueV>) -> Option<Seq<HeaderV>>
    decreases items.len(),
{
    if items.len() == 0 {
        Some(Seq::empty())
    } else {
        match spec_decode_headers(items.drop_last()) {
            Some(s) => match spec_decode_header(items.last()) {
                Some(a) => Some(s.push(a)),
                None => None,
            },
            None => None,
        }
    }
}

/// A failing element fails the whole header list.
pub proof fn lemma_decode_headers_err(items: Seq<ValueV>, i: int)
    requires
        0 <= i < items.len(),
        spec_decode_header(items[i]) is None,
    ensures
        spec_decode_headers(items) is None,
    decreases items.len(),
{
    if i < items.len() - 1 {
        assert(items.drop_last()[i] == items[i]);
        lemma_decode_headers_err(items.drop_last(), i);
    }
}

/// What one substitution record decodes to: required text `tag` and
/// `value`.
pub open spec fn spec_decode_substitution(v: ValueV) -> Option<SubstitutionV> {
    match v {
        ValueV::Object(entries) => match spec_decode_req_string(lookup(entries, "tag"@)) {
            Some(tag) => match spec_decode_req_string(lookup(entries, "value"@)) {
                Some(value) => Some(SubstitutionV { tag, value }),
                None => None,
            },
            None => None,
        },
        _ => None,
    }
}

/// What a list of substitution records decodes to.
pub open spec fn spec_decode_substitutions(items: Seq<ValueV>) -> Option<Seq<SubstitutionV>>
    decreases items.len(),
{
    if items.len() == 0 {
        Some(Seq::empty())
    } else {
        match spec_decode_substitutions(items.drop_last()) {
            Some(s) => match spec_decode_substitution(items.last()) {
                Some(a) => Some(s.push(a)),
                None => None,
            },
            None => None,
        }
    }
}

/// A failing element fails the whole substitution list.
pub proof fn lemma_decode_substitutions_err(items: Seq<ValueV>, i: int)
    requires
        0 <= i < items.len(),
        spec_decode_substitution(items[i]) is None,
    ensures
        spec_decode_substitutions(items) is None,
    decreases items.len(),
{
    if i < items.len() - 1 {
        assert(items.drop_last()[i] == items[i]);
        lemma_decode_substitutions_err(items.drop_last(), i);
    }
}

/// What one template-variable record decodes to: required text `variable`
/// and `value`.
pub open spec fn spec_decode_template_variable(v: ValueV) -> Option<TemplateVariableV> {
    match v {
        ValueV::Object(entries) => match spec_decode_req_string(lookup(entries, "variable"@)) {
            Some(variable) => match spec_decode_req_string(lookup(entries, "value"@)) {
                Some(value) => Some(TemplateVariableV { variable, value }),
                None => None,
            },
            None => None,
        },
        _ => None,
    }
}

/// What a list of template-variable records decodes to.
pub open spec fn spec_decode_template_variables(items: Seq<ValueV>) -> Option<
    Seq<TemplateVariableV>,
>
    decreases items.len(),
{
    if items.len() == 0 {
        Some(Seq::empty())
    } else {
        match spec_decode_template_variables(items.drop_last()) {
            Some(s) => match spec_decode_template_variable(items.last()) {
                Some(a) => Some(s.push(a)),
                None => None,
            },
            None => None,
        }
    }
}

/// A failing element fails the whole template-variable list.
pub proof fn lemma_decode_template_variables_err(items: Seq<ValueV>, i: int)
    requires
        0 <= i < items.len(),
        spec_decode_template_variable(items[i]) is None,
    ensures
        spec_decode_template_variables(items) is None,
    decreases items.len(),
{
    if i < items.len() - 1 {
        assert(items.drop_last()[i] == items[i]);
        lemma_decode_template_variables_err(items.drop_last(), i);
    }
}

/// A failing element fails the whole text list.
pub proof fn lemma_decode_strings_err(items: Seq<ValueV>, i: int)
    requires
        0 <= i < items.len(),
        !(items[i] is String),
    ensures
        spec_decode_strings(items) is None,
    decreases items.len(),
{
    if i < items.len() - 1 {
        assert(items.drop_last()[i] == items[i]);
        lemma_decode_strings_err(items.drop_last(), i);
    }
}

/// What unsubscription settings decode to: required text `group_id` and an
/// optional list of text `groups_to_display`.
pub open spec fn spec_decode_unsubscription_settings(v: ValueV) -> Option<
    UnsubscriptionSettingsV,
> {
    match v {
        ValueV::Object(entries) => match spec_decode_req_string(lookup(entries, "group_id"@)) {
            Some(group_id) => match lookup(entries, "groups_to_display"@) {
                None => Some(UnsubscriptionSettingsV { group_id, groups_to_display: None }),
                Some(ValueV::Null) => Some(
                    UnsubscriptionSettingsV { group_id, groups_to_display: None },
                ),
                Some(ValueV::Array(items)) => match spec_decode_strings(items) {
                    Some(groups) => Some(
                        UnsubscriptionSettingsV { group_id, groups_to_display: Some(groups) },
                    ),
                    None => None,
                },
                Some(_) => None,
            },
            None => None,
        },
        _ => None,
    }
}

/// Reads a required text field out of an object's entries.
fn get_req_string(entries: &Vec<(String, Value)>, key: &String) -> (r: Option<String>)
    ensures
        match r {
            Some(s) => spec_decode_req_string(lookup(row_view(entries@), key@)) == Some(s@),
            None => spec_decode_req_string(lookup(row_view(entries@), key@)) is None,
        },
{
    match find_entry(entries, key) {
        Some(Value::String(s)) => Some(s.clone()),
        _ => None,
    }
}

/// Reads an optional text field out of an object's entries.
fn get_opt_string(entries: &Vec<(String, Value)>, key: &String) -> (r: Option<Option<String>>)
    ensures
        match r {
            Some(s) => spec_decode_opt_string(lookup(row_view(entries@), key@)) == Some(
                s.deep_view(),
            ),
            None => spec_decode_opt_string(lookup(row_view(entries@), key@)) is None,
        },
{
    match find_entry(entries, key) {
        None => Some(None),
        Some(Value::Null) => Some(None),
        Some(Value::String(s)) => Some(Some(s.clone())),
        Some(_) => None,
    }
}

/// Reads an optional unsigned 32-bit field out of an object's entries.
fn get_opt_u32(entries: &Vec<(String, Value)>, key: &String) -> (r: Option<Option<u32>>)
    ensures
        match r {
            Some(s) => spec_decode_opt_u32(lookup(row_view(entries@), key@)) == Some(s),
            None => spec_decode_opt_u32(lookup(row_view(entries@), key@)) is None,
        },
{
    match find_entry(entries, key) {
        None => Some(None),
        Some(Value::Null) => Some(None),
        Some(Value::Number(n)) => {
            if 0 <= *n && *n <= u32::MAX as i64 {
                Some(Some(*n as u32))
            } else {
                None
            }
        },
        Some(_) => None,
    }
}

/// Decodes one mail address.
fn decode_mail_address(v: &Value) -> (r: Option<MailAddress>)
    ensures
        match r {
            Some(a) => spec_decode_mail_address(v@) == Some(a.deep_view()),
            None => spec_decode_mail_address(v@) is None,
        },
{
    match v {
        Value::Object(entries) => {
            let email = match get_req_string(entries, &"email".to_owned()) {
                Some(s) => s,
                None => {
                    return None;
                },
            };
            let name = match get_opt_string(entries, &"name".to_owned()) {
                Some(n) => n,
                None => {
                    return None;
                },
            };
            Some(MailAddress { email, name })
        },
        _ => None,
    }
}

/// Decodes a list of mail addresses.
fn decode_mail_addresses(items: &Vec<Value>) -> (r: Option<Vec<MailAddress>>)
    ensures
        match r {
            Some(list) => spec_decode_mail_addresses(values_view(items@)) == Some(
                list.deep_view(),
            ),
            None => spec_decode_mail_addresses(values_view(items@)) is None,
        },
{
    let ghost itemsv = values_view(items@);
    proof {
        lemma_values_view(items@);
    }
    let mut out: Vec<MailAddress> = Vec::new();
    let mut i: usize = 0;
    while i < items.len()
        invariant
            i <= items@.len(),
            out@.len() == i as nat,
            itemsv == values_view(items@),
            itemsv.len() == items@.len(),
            forall|k: int| 0 <= k < items@.len() ==> itemsv[k] == #[trigger] items@[k]@,
            spec_decode_mail_addresses(itemsv.take(i as int)) == Some(out.deep_view()),
        decreases items@.len() - i,
    {
        match decode_mail_address(&items[i]) {
            Some(a) => {
                let ghost out_before = out.deep_view();
                out.push(a);
                proof {
                    assert(itemsv.take(i as int + 1).drop_last() =~= itemsv.take(i as int));
                    assert(itemsv.take(i as int + 1).last() == items@[i as int]@);
                    assert(out.deep_view() =~= out_before.push(out@[i as int].deep_view()));
                }
            },
            None => {
                proof {
                    lemma_decode_mail_addresses_err(itemsv, i as int);
                }
                return None;
            },
        }
        i += 1;
    }
    proof {
        assert(itemsv.take(items@.len() as int) =~= itemsv);
    }
    Some(out)
}

/// Decodes one mail content.
fn decode_mail_content(v: &Value) -> (r: Option<MailContent>)
    ensures
        match r {
            Some(c) => spec_decode_mail_content(v@) == Some(c.deep_view()),
            None => spec_decode_mail_content(v@) is None,
        },
{
    match v {
        Value::Object(entries) => {
            let mime_type = match get_req_string(entries, &"type".to_owned()) {
                Some(s) => s,
                None => {
                    return None;
                },
            };
            let value = match get_req_string(entries, &"value".to_owned()) {
                Some(s) => s,
                None => {
                    return None;
                },
            };
            Some(MailContent { mime_type, value })
        },
        _ => None,
    }
}

/// Decodes a list of mail contents.
fn decode_mail_contents(items: &Vec<Value>) -> (r: Option<Vec<MailContent>>)
    ensures
        match r {
            Some(list) => spec_decode_mail_contents(values_view(items@)) == Some(
                list.deep_view(),
            ),
            None => spec_decode_mail_contents(values_view(items@)) is None,
        },
{
    let ghost itemsv = values_view(items@);
    proof {
        lemma_values_view(items@);
    }
    let mut out: Vec<MailContent> = Vec::new();
    let mut i: usize = 0;
    while i < items.len()
        invariant
            i <= items@.len(),
            out@.len() == i as nat,
            itemsv == values_view(items@),
            itemsv.len() == items@.len(),
            forall|k: int| 0 <= k < items@.len() ==> itemsv[k] == #[trigger] items@[k]@,
            spec_decode_mail_contents(itemsv.take(i as int)) == Some(out.deep_view()),
        decreases items@.len() - i,
    {
        match decode_mail_content(&items[i]) {
            Some(a) => {
                let ghost out_before = out.deep_view();
                out.push(a);
                proof {
                    assert(itemsv.take(i as int + 1).drop_last() =~= itemsv.take(i as int));
                    assert(itemsv.take(i as int + 1).last() == items@[i as int]@);
                    assert(out.deep_view() =~= out_before.push(out@[i as int].deep_view()));
                }
            },
            None => {
                proof {
                    lemma_decode_mail_contents_err(itemsv, i as int);
                }
                return None;
            },
        }
        i += 1;
    }
    proof {
        assert(itemsv.take(items@.len() as int) =~= itemsv);
    }
    Some(out)
}

/// Decodes one attachment.
fn decode_mail_attachment(v: &Value) -> (r: Option<MailAttachment>)
    ensures
        match r {
            Some(a) => spec_decode_mail_attachment(v@) == Some(a.deep_view()),
            None => spec_decode_mail_attachment(v@) is None,
        },
{
    match v {
        Value::Object(entries) => {
            let content = match get_req_string(entries, &"content".to_owned()) {
                Some(s) => s,
                None => {
                    return None;
                },
            };
            let mime_type = match get_opt_string(entries, &"type".to_owned()) {
                Some(s) => s,
                None => {
                    return None;
                },
            };
            let filename = match get_req_string(entries, &"filename".to_owned()) {
                Some(s) => s,
                None => {
                    return None;
                },
            };
            let disposition = match get_opt_string(entries, &"disposition".to_owned()) {
                Some(s) => s,
                None => {
                    return None;
                },
            };
            let content_id = match get_opt_string(entries, &"content_id".to_owned()) {
                Some(s) => s,
                None => {
                    return None;
                },
            };
            Some(MailAttachment { content, mime_type, filename, disposition, content_id })
        },
        _ => None,
    }
}

/// Decodes a list of attachments.
fn decode_mail_attachments(items: &Vec<Value>) -> (r: Option<Vec<MailAttachment>>)
    ensures
        match r {
            Some(list) => spec_decode_mail_attachments(values_view(items@)) == Some(
                list.deep_view(),
            ),
            None => spec_decode_mail_attachments(values_view(items@)) is None,
        },
{
    let ghost itemsv = values_view(items@);
    proof {
        lemma_values_view(items@);
    }
    let mut out: Vec<MailAttachment> = Vec::new();
    let mut i: usize = 0;
    while i < items.len()
        invariant
            i <= items@.len(),
            out@.len() == i as nat,
            itemsv == values_view(items@),
            itemsv.len() == items@.len(),
            forall|k: int| 0 <= k < items@.len() ==> itemsv[k] == #[trigger] items@[k]@,
            spec_decode_mail_attachments(itemsv.take(i as int)) == Some(out.deep_view()),
        decreases items@.len() - i,
    {
        match decode_mail_attachment(&items[i]) {
            Some(a) => {
                let ghost out_before = out.deep_view();
                out.push(a);
                proof {
                    assert(itemsv.take(i as int + 1).drop_last() =~= itemsv.take(i as int));
                    assert(itemsv.take(i as int + 1).last() == items@[i as int]@);
                    assert(out.deep_view() =~= out_before.push(out@[i as int].deep_view()));
                }
            },
            None => {
                proof {
                    lemma_decode_mail_attachments_err(itemsv, i as int);
                }
                return None;
            },
        }
        i += 1;
    }
    proof {
        assert(itemsv.take(items@.len() as int) =~= itemsv);
    }
    Some(out)
}

/// Decodes one header record.
fn decode_header(v: &Value) -> (r: Option<schema::Header>)
    ensures
        match r {
            Some(h) => spec_decode_header(v@) == Some(h.deep_view()),
            None => spec_decode_header(v@) is None,
        },
{
    match v {
        Value::Object(entries) => {
            let name = match get_req_string(entries, &"name".to_owned()) {
                Some(s) => s,
                None => {
                    return None;
                },
            };
            let value = match get_req_string(entries, &"value".to_owned()) {
                Some(s) => s,
                None => {
                    return None;
                },
            };
            Some(schema::Header { name, value })
        },
        _ => None,
    }
}

/// Decodes a list of header records.
fn decode_headers(items: &Vec<Value>) -> (r: Option<Vec<schema::Header>>)
    ensures
        match r {
            Some(list) => spec_decode_headers(values_view(items@)) == Some(list.deep_view()),
            None => spec_decode_headers(values_view(items@)) is None,
        },
{
    let ghost itemsv = values_view(items@);
    proof {
        lemma_values_view(items@);
    }
    let mut out: Vec<schema::Header> = Vec::new();
    let mut i: usize = 0;
    while i < items.len()
        invariant
            i <= items@.len(),
            out@.len() == i as nat,
            itemsv == values_view(items@),
            itemsv.len() == items@.len(),
            forall|k: int| 0 <= k < items@.len() ==> itemsv[k] == #[trigger] items@[k]@,
            spec_decode_headers(itemsv.take(i as int)) == Some(out.deep_view()),
        decreases items@.len() - i,
    {
        match decode_header(&items[i]) {
            Some(a) => {
                let ghost out_before = out.deep_view();
                out.push(a);
                proof {
                    assert(itemsv.take(i as int + 1).drop_last() =~= itemsv.take(i as int));
                    assert(itemsv.take(i as int + 1).last() == items@[i as int]@);
                    assert(out.deep_view() =~= out_before.push(out@[i as int].deep_view()));
                }
            },
            None => {
                proof {
                    lemma_decode_headers_err(itemsv, i as int);
                }
                return None;
            },
        }
        i += 1;
    }
    proof {
        assert(itemsv.take(items@.len() as int) =~= itemsv);
    }
    Some(out)
}

/// Decodes one substitution record.
fn decode_substitution(v: &Value) -> (r: Option<schema::Substitution>)
    ensures
        match r {
            Some(s) => spec_decode_substitution(v@) == Some(s.deep_view()),
            None => spec_decode_substitution(v@) is None,
        },
{
    match v {
        Value::Object(entries) => {
            let tag = match get_req_string(entries, &"tag".to_owned()) {
                Some(s) => s,
                None => {
                    return None;
                },
            };
            let value = match get_req_string(entries, &"value".to_owned()) {
                Some(s) => s,
                None => {
                    return None;
                },
            };
            Some(schema::Substitution { tag, value })
        },
        _ => None,
    }
}

/// Decodes a list of substitution records.
fn decode_substitutions(items: &Vec<Value>) -> (r: Option<Vec<schema::Substitution>>)
    ensures
        match r {
            Some(list) => spec_decode_substitutions(values_view(items@)) == Some(
                list.deep_view(),
            ),
            None => spec_decode_substitutions(values_view(items@)) is None,
        },
{
    let ghost itemsv = values_view(items@);
    proof {
        lemma_values_view(items@);
    }
    let mut out: Vec<schema::Substitution> = Vec::new();
    let mut i: usize = 0;
    while i < items.len()
        invariant
            i <= items@.len(),
            out@.len() == i as nat,
            itemsv == values_view(items@),
            itemsv.len() == items@.len(),
            forall|k: int| 0 <= k < items@.len() ==> itemsv[k] == #[trigger] items@[k]@,
            spec_decode_substitutions(itemsv.take(i as int)) == Some(out.deep_view()),
        decreases items@.len() - i,
    {
        match decode_substitution(&items[i]) {
            Some(a) => {
                let ghost out_before = out.deep_view();
                out.push(a);
                proof {
                    assert(itemsv.take(i as int + 1).drop_last() =~= itemsv.take(i as int));
                    assert(itemsv.take(i as int + 1).last() == items@[i as int]@);
                    assert(out.deep_view() =~= out_before.push(out@[i as int].deep_view()));
                }
            },
            None => {
                proof {
                    lemma_decode_substitutions_err(itemsv, i as int);
                }
                return None;
            },
        }
        i += 1;
    }
    proof {
        assert(itemsv.take(items@.len() as int) =~= itemsv);
    }
    Some(out)
}

/// Decodes one template-variable record.
fn decode_template_variable(v: &Value) -> (r: Option<schema::TemplateVariable>)
    ensures
        match r {
            Some(t) => spec_decode_template_variable(v@) == Some(t.deep_view()),
            None => spec_decode_template_variable(v@) is None,
        },
{
    match v {
        Value::Object(entries) => {
            let variable = match get_req_string(entries, &"variable".to_owned()) {
                Some(s) => s,
                None => {
                    return None;
                },
            };
            let value = match get_req_string(entries, &"value".to_owned()) {
                Some(s) => s,
                None => {
                    return None;
                },
            };
            Some(schema::TemplateVariable { variable, value })
        },
        _ => None,
    }
}

/// Decodes a list of template-variable records.
fn decode_template_variables(items: &Vec<Value>) -> (r: Option<Vec<schema::TemplateVariable>>)
    ensures
        match r {
            Some(list) => spec_decode_template_variables(values_view(items@)) == Some(
                list.deep_view(),
            ),
            None => spec_decode_template_variables(values_view(items@)) is None,
        },
{
    let ghost itemsv = values_view(items@);
    proof {
        lemma_values_view(items@);
    }
    let mut out: Vec<schema::TemplateVariable> = Vec::new();
    let mut i: usize = 0;
    while i < items.len()
        invariant
            i <= items@.len(),
            out@.len() == i as nat,
            itemsv == values_view(items@),
            itemsv.len() == items@.len(),
            forall|k: int| 0 <= k < items@.len() ==> itemsv[k] == #[trigger] items@[k]@,
            spec_decode_template_variables(itemsv.take(i as int)) == Some(out.deep_view()),
        decreases items@.len() - i,
    {
        match decode_template_variable(&items[i]) {
            Some(a) => {
                let ghost out_before = out.deep_view();
                out.push(a);
                proof {
                    assert(itemsv.take(i as int + 1).drop_last() =~= itemsv.take(i as int));
                    assert(itemsv.take(i as int + 1).last() == items@[i as int]@);
                    assert(out.deep_view() =~= out_before.push(out@[i as int].deep_view()));
                }
            },
            None => {
                proof {
                    lemma_decode_template_variables_err(itemsv, i as int);
                }
                return None;
            },
        }
        i += 1;
    }
    proof {
        assert(itemsv.take(items@.len() as int) =~= itemsv);
    }
    Some(out)
}

/// Decodes a list of text values.
fn decode_strings(items: &Vec<Value>) -> (r: Option<Vec<String>>)
    ensures
        match r {
            Some(list) => spec_decode_strings(values_view(items@)) == Some(list.deep_view()),
            None => spec_decode_strings(values_view(items@)) is None,
        },
{
    let ghost itemsv = values_view(items@);
    proof {
        lemma_values_view(items@);
    }
    let mut out: Vec<String> = Vec::new();
    let mut i: usize = 0;
    while i < items.len()
        invariant
            i <= items@.len(),
            out@.len() == i as nat,
            itemsv == values_view(items@),
            itemsv.len() == items@.len(),
            forall|k: int| 0 <= k < items@.len() ==> itemsv[k] == #[trigger] items@[k]@,
            spec_decode_strings(itemsv.take(i as int)) == Some(out.deep_view()),
        decreases items@.len() - i,
    {
        match &items[i] {
            Value::String(s) => {
                let ghost out_before = out.deep_view();
                out.push(s.clone());
                proof {
                    assert(itemsv.take(i as int + 1).drop_last() =~= itemsv.take(i as int));
                    assert(itemsv.take(i as int + 1).last() == items@[i as int]@);
                    assert(out.deep_view() =~= out_before.push(out@[i as int].deep_view()));
                }
            },
            _ => {
                proof {
                    assert(!(items@[i as int]@ is String));
                    lemma_decode_strings_err(itemsv, i as int);
                }
                return None;
            },
        }
        i += 1;
    }
    proof {
        assert(itemsv.take(items@.len() as int) =~= itemsv);
    }
    Some(out)
}

/// Decodes unsubscription settings.
fn decode_unsubscription_settings(v: &Value) -> (r: Option<UnsubscriptionSettings>)
    ensures
        match r {
            Some(u) => spec_decode_unsubscription_settings(v@) == Some(u.deep_view()),
            None => spec_decode_unsubscription_settings(v@) is None,
        },
{
    match v {
        Value::Object(entries) => {
            let group_id = match get_req_string(entries, &"group_id".to_owned()) {
                Some(s) => s,
                None => {
                    return None;
                },
            };
            let groups_to_display = match find_entry(entries, &"groups_to_display".to_owned()) {
                None => None,
                Some(Value::Null) => None,
                Some(Value::Array(items)) => match decode_strings(items) {
                    Some(groups) => Some(groups),
                    None => {
                        return None;
                    },
                },
                Some(_) => {
                    return None;
                },
            };
            Some(UnsubscriptionSettings { group_id, groups_to_display })
        },
        _ => None,
    }
}

/// What a required address field decodes to.
pub open spec fn spec_decode_req_address(o: Option<ValueV>) -> Option<MailAddressV> {
    match o {
        Some(av) => spec_decode_mail_address(av),
        None => None,
    }
}

/// What an optional address field decodes to.
pub open spec fn spec_decode_opt_address(o: Option<ValueV>) -> Option<Option<MailAddressV>> {
    match o {
        None => Some(None),
        Some(ValueV::Null) => Some(None),
        Some(av) => match spec_decode_mail_address(av) {
            Some(a) => Some(Some(a)),
            None => None,
        },
    }
}

/// What a required address-list field decodes to.
pub open spec fn spec_decode_req_addresses(o: Option<ValueV>) -> Option<Seq<MailAddressV>> {
    match o {
        Some(ValueV::Array(items)) => spec_decode_mail_addresses(items),
        _ => None,
    }
}

/// What an optional address-list field decodes to.
pub open spec fn spec_decode_opt_addresses(o: Option<ValueV>) -> Option<
    Option<Seq<MailAddressV>>,
> {
    match o {
        None => Some(None),
        Some(ValueV::Null) => Some(None),
        Some(ValueV::Array(items)) => match spec_decode_mail_addresses(items) {
            Some(l) => Some(Some(l)),
            None => None,
        },
        _ => None,
    }
}

/// What a required content-list field decodes to.
pub open spec fn spec_decode_req_contents(o: Option<ValueV>) -> Option<Seq<MailContentV>> {
    match o {
        Some(ValueV::Array(items)) => spec_decode_mail_contents(items),
        _ => None,
    }
}

/// What an optional attachment-list field decodes to.
pub open spec fn spec_decode_opt_attachments(o: Option<ValueV>) -> Option<
    Option<Seq<MailAttachmentV>>,
> {
    match o {
        None => Some(None),
        Some(ValueV::Null) => Some(None),
        Some(ValueV::Array(items)) => match spec_decode_mail_attachments(items) {
            Some(l) => Some(Some(l)),
            None => None,
        },
        _ => None,
    }
}

/// What an optional header-list field decodes to.
pub open spec fn spec_decode_opt_headers(o: Option<ValueV>) -> Option<Option<Seq<HeaderV>>> {
    match o {
        None => Some(None),
        Some(ValueV::Null) => Some(None),
        Some(ValueV::Array(items)) => match spec_decode_headers(items) {
            Some(l) => Some(Some(l)),
            None => None,
        },
        _ => None,
    }
}

/// What an optional substitution-list field decodes to.
pub open spec fn spec_decode_opt_substitutions(o: Option<ValueV>) -> Option<
    Option<Seq<SubstitutionV>>,
> {
    match o {
        None => Some(None),
        Some(ValueV::Null) => Some(None),
        Some(ValueV::Array(items)) => match spec_decode_substitutions(items) {
            Some(l) => Some(Some(l)),
            None => None,
        },
        _ => None,
    }
}

/// What an optional template-variable-list field decodes to.
pub open spec fn spec_decode_opt_template_variables(o: Option<ValueV>) -> Option<
    Option<Seq<TemplateVariableV>>,
> {
    match o {
        None => Some(None),
        Some(ValueV::Null) => Some(None),
        Some(ValueV::Array(items)) => match spec_decode_template_variables(items) {
            Some(l) => Some(Some(l)),
            None => None,
        },
        _ => None,
    }
}

/// What an optional unsubscription-settings field decodes to.
pub open spec fn spec_decode_opt_unsubscription(o: Option<ValueV>) -> Option<
    Option<UnsubscriptionSettingsV>,
> {
    match o {
        None => Some(None),
        Some(ValueV::Null) => Some(None),
        Some(uv) => match spec_decode_unsubscription_settings(uv) {
            Some(u) => Some(Some(u)),
            None => None,
        },
    }
}

/// What one envelope of a send-mail request decodes to.
pub open spec fn spec_decode_personalization(v: ValueV) -> Option<schema::MailPersonalizationV> {
    match v {
        ValueV::Object(entries) => match spec_decode_opt_address(lookup(entries, "from"@)) {
            Some(from) => match spec_decode_req_addresses(lookup(entries, "to"@)) {
                Some(to) => match spec_decode_opt_addresses(lookup(entries, "cc"@)) {
                    Some(cc) => match spec_decode_opt_addresses(lookup(entries, "bcc"@)) {
                        Some(bcc) => match spec_decode_opt_string(
                            lookup(entries, "subject"@),
                        ) {
                            Some(subject) => match spec_decode_opt_headers(
                                lookup(entries, "headers"@),
                            ) {
                                Some(headers) => match spec_decode_opt_substitutions(
                                    lookup(entries, "substitutions"@),
                                ) {
                                    Some(substitutions) => match spec_decode_opt_template_variables(
                                        lookup(entries, "dynamic_template_data"@),
                                    ) {
                                        Some(dynamic_template_data) => match spec_decode_opt_u32(
                                            lookup(entries, "send_at"@),
                                        ) {
                                            Some(send_at) => Some(
                                                schema::MailPersonalizationV {
                                                    from,
                                                    to,
                                                    cc,
                                                    bcc,
                                                    subject,
                                                    headers,
                                                    substitutions,
                                                    dynamic_template_data,
                                                    send_at,
                                                },
                                            ),
                                            None => None,
                                        },
                                        None => None,
                                    },
                                    None => None,
                                },
                                None => None,
                            },
                            None => None,
                        },
                        None => None,
                    },
                    None => None,
                },
                None => None,
            },
            None => None,
        },
        _ => None,
    }
}

/// What a list of envelopes decodes to.
pub open spec fn spec_decode_personalizations(items: Seq<ValueV>) -> Option<
    Seq<schema::MailPersonalizationV>,
>
    decreases items.len(),
{
    if items.len() == 0 {
        Some(Seq::empty())
    } else {
        match spec_decode_personalizations(items.drop_last()) {
            Some(s) => match spec_decode_personalization(items.last()) {
                Some(a) => Some(s.push(a)),
                None => None,
            },
            None => None,
        }
    }
}

/// A failing element fails the whole envelope list.
pub proof fn lemma_decode_personalizations_err(items: Seq<ValueV>, i: int)
    requires
        0 <= i < items.len(),
        spec_decode_personalization(items[i]) is None,
    ensures
        spec_decode_personalizations(items) is None,
    decreases items.len(),
{
    if i < items.len() - 1 {
        assert(items.drop_last()[i] == items[i]);
        lemma_decode_personalizations_err(items.drop_last(), i);
    }
}

/// What a required envelope-list field decodes to.
pub open spec fn spec_decode_req_personalizations(o: Option<ValueV>) -> Option<
    Seq<schema::MailPersonalizationV>,
> {
    match o {
        Some(ValueV::Array(items)) => spec_decode_personalizations(items),
        _ => None,
    }
}

/// What the arguments of a send-mail request decode to, in the shape the
/// connector's clients use.
pub open spec fn spec_decode_send_mail_request(args: Seq<(Seq<char>, ValueV)>) -> Option<
    schema::SendMailRequestV,
> {
    match spec_decode_req_personalizations(lookup(args, "personalizations"@)) {
        Some(personalizations) => match spec_decode_req_address(lookup(args, "from"@)) {
            Some(from) => match spec_decode_req_addresses(lookup(args, "reply_to_list"@)) {
                Some(reply_to_list) => match spec_decode_req_string(lookup(args, "subject"@)) {
                    Some(subject) => match spec_decode_req_contents(lookup(args, "content"@)) {
                        Some(content) => match spec_decode_opt_attachments(
                            lookup(args, "attachments"@),
                        ) {
                            Some(attachments) => match spec_decode_opt_string(
                                lookup(args, "template_id"@),
                            ) {
                                Some(template_id) => match spec_decode_opt_headers(
                                    lookup(args, "headers"@),
                                ) {
                                    Some(headers) => match spec_decode_opt_u32(
                                        lookup(args, "send_at"@),
                                    ) {
                                        Some(send_at) => match spec_decode_opt_string(
                                            lookup(args, "batch_id"@),
                                        ) {
                                            Some(batch_id) => match spec_decode_opt_unsubscription(
                                                lookup(args, "asm"@),
                                            ) {
                                                Some(unsubscription_settings) => Some(
                                                    schema::SendMailRequestV {
                                                        personalizations,
                                                        from,
                                                        reply_to_list,
                                                        subject,
                                                        content,
                                                        attachments,
                                                        template_id,
                                                        headers,
                                                        send_at,
                                                        batch_id,
                                                        unsubscription_settings,
                                                    },
                                                ),
                                                None => None,
                                            },
                                            None => None,
                                        },
                                        None => None,
                                    },
                                    None => None,
                                },
                                None => None,
                            },
                            None => None,
                        },
                        None => None,
                    },
                    None => None,
                },
                None => None,
            },
            None => None,
        },
        None => None,
    }
}

/// Reads a required address field.
fn get_req_address(entries: &Vec<(String, Value)>, key: &String) -> (r: Option<MailAddress>)
    ensures
        match r {
            Some(a) => spec_decode_req_address(lookup(row_view(entries@), key@)) == Some(
                a.deep_view(),
            ),
            None => spec_decode_req_address(lookup(row_view(entries@), key@)) is None,
        },
{
    match find_entry(entries, key) {
        Some(v) => decode_mail_address(v),
        None => None,
    }
}

/// Reads an optional address field.
fn get_opt_address(entries: &Vec<(String, Value)>, key: &String) -> (r: Option<
    Option<MailAddress>,
>)
    ensures
        match r {
            Some(a) => spec_decode_opt_address(lookup(row_view(entries@), key@)) == Some(
                a.deep_view(),
            ),
            None => spec_decode_opt_address(lookup(row_view(entries@), key@)) is None,
        },
{
    match find_entry(entries, key) {
        None => Some(None),
        Some(Value::Null) => Some(None),
        Some(v) => match decode_mail_address(v) {
            Some(a) => Some(Some(a)),
            None => None,
        },
    }
}

/// Reads a required address-list field.
fn get_req_addresses(entries: &Vec<(String, Value)>, key: &String) -> (r: Option<
    Vec<MailAddress>,
>)
    ensures
        match r {
            Some(l) => spec_decode_req_addresses(lookup(row_view(entries@), key@)) == Some(
                l.deep_view(),
            ),
            None => spec_decode_req_addresses(lookup(row_view(entries@), key@)) is None,
        },
{
    match find_entry(entries, key) {
        Some(Value::Array(items)) => decode_mail_addresses(items),
        _ => None,
    }
}

/// Reads an optional address-list field.
fn get_opt_addresses(entries: &Vec<(String, Value)>, key: &String) -> (r: Option<
    Option<Vec<MailAddress>>,
>)
    ensures
        match r {
            Some(l) => spec_decode_opt_addresses(lookup(row_view(entries@), key@)) == Some(
                l.deep_view(),
            ),
            None => spec_decode_opt_addresses(lookup(row_view(entries@), key@)) is None,
        },
{
    match find_entry(entries, key) {
        None => Some(None),
        Some(Value::Null) => Some(None),
        Some(Value::Array(items)) => match decode_mail_addresses(items) {
            Some(l) => Some(Some(l)),
            None => None,
        },
        Some(_) => None,
    }
}

/// Reads a required content-list field.
fn get_req_contents(entries: &Vec<(String, Value)>, key: &String) -> (r: Option<
    Vec<MailContent>,
>)
    ensures
        match r {
            Some(l) => spec_decode_req_contents(lookup(row_view(entries@), key@)) == Some(
                l.deep_view(),
            ),
            None => spec_decode_req_contents(lookup(row_view(entries@), key@)) is None,
        },
{
    match find_entry(entries, key) {
        Some(Value::Array(items)) => decode_mail_contents(items),
        _ => None,
    }
}

/// Reads an optional attachment-list field.
fn get_opt_attachments(entries: &Vec<(String, Value)>, key: &String) -> (r: Option<
    Option<Vec<MailAttachment>>,
>)
    ensures
        match r {
            Some(l) => spec_decode_opt_attachments(lookup(row_view(entries@), key@)) == Some(
                l.deep_view(),
            ),
            None => spec_decode_opt_attachments(lookup(row_view(entries@), key@)) is None,
        },
{
    match find_entry(entries, key) {
        None => Some(None),
        Some(Value::Null) => Some(None),
        Some(Value::Array(items)) => match decode_mail_attachments(items) {
            Some(l) => Some(Some(l)),
            None => None,
        },
        Some(_) => None,
    }
}

/// Reads an optional header-list field.
fn get_opt_headers(entries: &Vec<(String, Value)>, key: &String) -> (r: Option<
    Option<Vec<schema::Header>>,
>)
    ensures
        match r {
            Some(l) => spec_decode_opt_headers(lookup(row_view(entries@), key@)) == Some(
                l.deep_view(),
            ),
            None => spec_decode_opt_headers(lookup(row_view(entries@), key@)) is None,
        },
{
    match find_entry(entries, key) {
        None => Some(None),
        Some(Value::Null) => Some(None),
        Some(Value::Array(items)) => match decode_headers(items) {
            Some(l) => Some(Some(l)),
            None => None,
        },
        Some(_) => None,
    }
}

/// Reads an optional substitution-list field.
fn get_opt_substitutions(entries: &Vec<(String, Value)>, key: &String) -> (r: Option<
    Option<Vec<schema::Substitution>>,
>)
    ensures
        match r {
            Some(l) => spec_decode_opt_substitutions(lookup(row_view(entries@), key@)) == Some(
                l.deep_view(),
            ),
            None => spec_decode_opt_substitutions(lookup(row_view(entries@), key@)) is None,
        },
{
    match find_entry(entries, key) {
        None => Some(None),
        Some(Value::Null) => Some(None),
        Some(Value::Array(items)) => match decode_substitutions(items) {
            Some(l) => Some(Some(l)),
            None => None,
        },
        Some(_) => None,
    }
}

/// Reads an optional template-variable-list field.
fn get_opt_template_variables(entries: &Vec<(String, Value)>, key: &String) -> (r: Option<
    Option<Vec<schema::TemplateVariable>>,
>)
    ensures
        match r {
            Some(l) => spec_decode_opt_template_variables(lookup(row_view(entries@), key@))
                == Some(l.deep_view()),
            None => spec_decode_opt_template_variables(lookup(row_view(entries@), key@)) is None,
        },
{
    match find_entry(entries, key) {
        None => Some(None),
        Some(Value::Null) => Some(None),
        Some(Value::Array(items)) => match decode_template_variables(items) {
            Some(l) => Some(Some(l)),
            None => None,
        },
        Some(_) => None,
    }
}

/// Reads an optional unsubscription-settings field.
fn get_opt_unsubscription(entries: &Vec<(String, Value)>, key: &String) -> (r: Option<
    Option<UnsubscriptionSettings>,
>)
    ensures
        match r {
            Some(u) => spec_decode_opt_unsubscription(lookup(row_view(entries@), key@)) == Some(
                u.deep_view(),
            ),
            None => spec_decode_opt_unsubscription(lookup(row_view(entries@), key@)) is None,
        },
{
    match find_entry(entries, key) {
        None => Some(None),
        Some(Value::Null) => Some(None),
        Some(v) => match decode_unsubscription_settings(v) {
            Some(u) => Some(Some(u)),
            None => None,
        },
    }
}

/// Decodes one envelope of a send-mail request.
fn decode_personalization(v: &Value) -> (r: Option<schema::MailPersonalization>)
    ensures
        match r {
            Some(p) => spec_decode_personalization(v@) == Some(p.deep_view()),
            None => spec_decode_personalization(v@) is None,
        },
{
    match v {
        Value::Object(entries) => {
            let from = match get_opt_address(entries, &"from".to_owned()) {
                Some(x) => x,
                None => {
                    return None;
                },
            };
            let to = match get_req_addresses(entries, &"to".to_owned()) {
                Some(x) => x,
                None => {
                    return None;
                },
            };
            let cc = match get_opt_addresses(entries, &"cc".to_owned()) {
                Some(x) => x,
                None => {
                    return None;
                },
            };
            let bcc = match get_opt_addresses(entries, &"bcc".to_owned()) {
                Some(x) => x,
                None => {
                    return None;
                },
            };
            let subject = match get_opt_string(entries, &"subject".to_owned()) {
                Some(x) => x,
                None => {
                    return None;
                },
            };
            let headers = match get_opt_headers(entries, &"headers".to_owned()) {
                Some(x) => x,
                None => {
                    return None;
                },
            };
            let substitutions = match get_opt_substitutions(entries, &"substitutions".to_owned()) {
                Some(x) => x,
                None => {
                    return None;
                },
            };
            let dynamic_template_data = match get_opt_template_variables(
                entries,
                &"dynamic_template_data".to_owned(),
            ) {
                Some(x) => x,
                None => {
                    return None;
                },
            };
            let send_at = match get_opt_u32(entries, &"send_at".to_owned()) {
                Some(x) => x,
                None => {
                    return None;
                },
            };
            Some(
                schema::MailPersonalization {
                    from,
                    to,
                    cc,
                    bcc,
                    subject,
                    headers,
                    substitutions,
                    dynamic_template_data,
                    send_at,
                },
            )
        },
        _ => None,
    }
}

/// Decodes a list of envelopes.
fn decode_personalizations(items: &Vec<Value>) -> (r: Option<Vec<schema::MailPersonalization>>)
    ensures
        match r {
            Some(list) => spec_decode_personalizations(values_view(items@)) == Some(
                list.deep_view(),
            ),
            None => spec_decode_personalizations(values_view(items@)) is None,
        },
{
    let ghost itemsv = values_view(items@);
    proof {
        lemma_values_view(items@);
    }
    let mut out: Vec<schema::MailPersonalization> = Vec::new();
    let mut i: usize = 0;
    while i < items.len()
        invariant
            i <= items@.len(),
            out@.len() == i as nat,
            itemsv == values_view(items@),
            itemsv.len() == items@.len(),
            forall|k: int| 0 <= k < items@.len() ==> itemsv[k] == #[trigger] items@[k]@,
            spec_decode_personalizations(itemsv.take(i as int)) == Some(out.deep_view()),
        decreases items@.len() - i,
    {
        match decode_personalization(&items[i]) {
            Some(a) => {
                let ghost out_before = out.deep_view();
                out.push(a);
                proof {
                    assert(itemsv.take(i as int + 1).drop_last() =~= itemsv.take(i as int));
                    assert(itemsv.take(i as int + 1).last() == items@[i as int]@);
                    assert(out.deep_view() =~= out_before.push(out@[i as int].deep_view()));
                }
            },
            None => {
                proof {
                    lemma_decode_personalizations_err(itemsv, i as int);
                }
                return None;
            },
        }
        i += 1;
    }
    proof {
        assert(itemsv.take(items@.len() as int) =~= itemsv);
    }
    Some(out)
}

/// Reads the required envelope-list field.
fn get_req_personalizations(entries: &Vec<(String, Value)>, key: &String) -> (r: Option<
    Vec<schema::MailPersonalization>,
>)
    ensures
        match r {
            Some(l) => spec_decode_req_personalizations(lookup(row_view(entries@), key@))
                == Some(l.deep_view()),
            None => spec_decode_req_personalizations(lookup(row_view(entries@), key@)) is None,
        },
{
    match find_entry(entries, key) {
        Some(Value::Array(items)) => decode_personalizations(items),
        _ => None,
    }
}

/// Decodes the arguments of a send-mail request into the shape the
/// connector's clients use; a failure names the first argument, in decode
/// order, that did not decode.
fn decode_send_mail_request(args: &Vec<(String, Value)>) -> (r: Result<
    schema::SendMailRequest,
    &'static str,
>)
    ensures
        match r {
            Ok(req) => spec_decode_send_mail_request(row_view(args@)) == Some(req.deep_view()),
            Err(name) => spec_decode_send_mail_request(row_view(args@)) is None && name@
                == spec_failing_send_mail_argument(row_view(args@)),
        },
{
    let personalizations = match get_req_personalizations(args, &"personalizations".to_owned()) {
        Some(x) => x,
        None => {
            return Err("personalizations");
        },
    };
    let from = match get_req_address(args, &"from".to_owned()) {
        Some(x) => x,
        None => {
            return Err("from");
        },
    };
    let reply_to_list = match get_req_addresses(args, &"reply_to_list".to_owned()) {
        Some(x) => x,
        None => {
            return Err("reply_to_list");
        },
    };
    let subject = match get_req_string(args, &"subject".to_owned()) {
        Some(x) => x,
        None => {
            return Err("subject");
        },
    };
    let content = match get_req_contents(args, &"content".to_owned()) {
        Some(x) => x,
        None => {
            return Err("content");
        },
    };
    let attachments = match get_opt_attachments(args, &"attachments".to_owned()) {
        Some(x) => x,
        None => {
            return Err("attachments");
        },
    };
    let template_id = match get_opt_string(args, &"template_id".to_owned()) {
        Some(x) => x,
        None => {
            return Err("template_id");
        },
    };
    let headers = match get_opt_headers(args, &"headers".to_owned()) {
        Some(x) => x,
        None => {
            return Err("headers");
        },
    };
    let send_at = match get_opt_u32(args, &"send_at".to_owned()) {
        Some(x) => x,
        None => {
            return Err("send_at");
        },
    };
    let batch_id = match get_opt_string(args, &"batch_id".to_owned()) {
        Some(x) => x,
        None => {
            return Err("batch_id");
        },
    };
    let unsubscription_settings = match get_opt_unsubscription(args, &"asm".to_owned()) {
        Some(x) => x,
        None => {
            return Err("asm");
        },
    };
    Ok(
        schema::SendMailRequest {
            personalizations,
            from,
            reply_to_list,
            subject,
            content,
            attachments,
            template_id,
            headers,
            send_at,
            batch_id,
            unsubscription_settings,
        },
    )
}

/// The name/value pairs of a list of header records, in order.
pub open spec fn spec_header_pairs(hs: Seq<HeaderV>) -> Seq<(Seq<char>, Seq<char>)> {
    Seq::new(hs.len(), |i: int| (hs[i].name, hs[i].value))
}

/// The tag/value pairs of a list of substitution records, in order.
pub open spec fn spec_substitution_pairs(ss: Seq<SubstitutionV>) -> Seq<(Seq<char>, Seq<char>)> {
    Seq::new(ss.len(), |i: int| (ss[i].tag, ss[i].value))
}

/// The variable/value pairs of a list of template-variable records, in
/// order.
pub open spec fn spec_template_variable_pairs(vs: Seq<TemplateVariableV>) -> Seq<
    (Seq<char>, Seq<char>),
> {
    Seq::new(vs.len(), |i: int| (vs[i].variable, vs[i].value))
}

/// The wire shape of one client-shaped envelope: record lists become
/// name/value pairs, everything else is carried over.
pub open spec fn spec_convert_personalization(p: schema::MailPersonalizationV)
    -> sendgrid_api::MailPersonalizationV {
    sendgrid_api::MailPersonalizationV {
        from: p.from,
        to: p.to,
        cc: p.cc,
        bcc: p.bcc,
        subject: p.subject,
        headers: match p.headers {
            Some(hs) => Some(spec_header_pairs(hs)),
            None => None,
        },
        substitutions: match p.substitutions {
            Some(ss) => Some(spec_substitution_pairs(ss)),
            None => None,
        },
        dynamic_template_data: match p.dynamic_template_data {
            Some(vs) => Some(spec_template_variable_pairs(vs)),
            None => None,
        },
        send_at: p.send_at,
    }
}

/// The wire shape of a client-shaped send-mail request.
pub open spec fn spec_convert_send_mail_request(r: schema::SendMailRequestV)
    -> sendgrid_api::SendMailRequestV {
    sendgrid_api::SendMailRequestV {
        personalizations: Seq::new(
            r.personalizations.len(),
            |i: int| spec_convert_personalization(r.personalizations[i]),
        ),
        from: r.from,
        reply_to_list: r.reply_to_list,
        subject: r.subject,
        content: r.content,
        attachments: r.attachments,
        template_id: r.template_id,
        headers: match r.headers {
            Some(hs) => Some(spec_header_pairs(hs)),
            None => None,
        },
        send_at: r.send_at,
        batch_id: r.batch_id,
        unsubscription_settings: r.unsubscription_settings,
    }
}

/// Turns header records into name/value pairs.
fn convert_headers(hs: &Vec<schema::Header>) -> (r: Vec<(String, String)>)
    ensures
        r.deep_view() == spec_header_pairs(hs.deep_view()),
{
    let mut out: Vec<(String, String)> = Vec::new();
    let mut i: usize = 0;
    while i < hs.len()
        invariant
            i <= hs@.len(),
            out@.len() == i as nat,
            forall|k: int| 0 <= k < i ==> #[trigger] out@[k].0@ == hs@[k].name@
                && out@[k].1@ == hs@[k].value@,
        decreases hs@.len() - i,
    {
        out.push((hs[i].name.clone(), hs[i].value.clone()));
        i += 1;
    }
    proof {
        assert(out.deep_view() =~= spec_header_pairs(hs.deep_view()));
    }
    out
}

/// Turns substitution records into tag/value pairs.
fn convert_substitutions(ss: &Vec<schema::Substitution>) -> (r: Vec<(String, String)>)
    ensures
        r.deep_view() == spec_substitution_pairs(ss.deep_view()),
{
    let mut out: Vec<(String, String)> = Vec::new();
    let mut i: usize = 0;
    while i < ss.len()
        invariant
            i <= ss@.len(),
            out@.len() == i as nat,
            forall|k: int| 0 <= k < i ==> #[trigger] out@[k].0@ == ss@[k].tag@
                && out@[k].1@ == ss@[k].value@,
        decreases ss@.len() - i,
    {
        out.push((ss[i].tag.clone(), ss[i].value.clone()));
        i += 1;
    }
    proof {
        assert(out.deep_view() =~= spec_substitution_pairs(ss.deep_view()));
    }
    out
}

/// Turns template-variable records into variable/value pairs.
fn convert_template_variables(vs: &Vec<schema::TemplateVariable>) -> (r: Vec<(String, String)>)
    ensures
        r.deep_view() == spec_template_variable_pairs(vs.deep_view()),
{
    let mut out: Vec<(String, String)> = Vec::new();
    let mut i: usize = 0;
    while i < vs.len()
        invariant
            i <= vs@.len(),
            out@.len() == i as nat,
            forall|k: int| 0 <= k < i ==> #[trigger] out@[k].0@ == vs@[k].variable@
                && out@[k].1@ == vs@[k].value@,
        decreases vs@.len() - i,
    {
        out.push((vs[i].variable.clone(), vs[i].value.clone()));
        i += 1;
    }
    proof {
        assert(out.deep_view() =~= spec_template_variable_pairs(vs.deep_view()));
    }
    out
}

/// Turns one client-shaped envelope into its wire shape.
fn convert_personalization(p: schema::MailPersonalization) -> (r:
    sendgrid_api::MailPersonalization)
    ensures
        r.deep_view() == spec_convert_personalization(p.deep_view()),
{
    sendgrid_api::MailPersonalization {
        from: p.from,
        to: p.to,
        cc: p.cc,
        bcc: p.bcc,
        subject: p.subject,
        headers: match p.headers {
            Some(hs) => Some(convert_headers(&hs)),
            None => None,
        },
        substitutions: match p.substitutions {
            Some(ss) => Some(convert_substitutions(&ss)),
            None => None,
        },
        dynamic_template_data: match p.dynamic_template_data {
            Some(vs) => Some(convert_template_variables(&vs)),
            None => None,
        },
        send_at: p.send_at,
    }
}

/// Turns a client-shaped send-mail request into its wire shape.
fn convert_send_mail_request(r: schema::SendMailRequest) -> (out: sendgrid_api::SendMailRequest)
    ensures
        out.deep_view() == spec_convert_send_mail_request(r.deep_view()),
{
    let ghost rv = r.deep_view();
    let mut rest = r.personalizations;
    let ghost all = rest.deep_view();
    let mut personalizations: Vec<sendgrid_api::MailPersonalization> = Vec::new();
    while rest.len() > 0
        invariant
            personalizations@.len() + rest@.len() == all.len(),
            rest.deep_view() =~= all.skip(personalizations@.len() as int),
            forall|k: int| 0 <= k < personalizations@.len()
                ==> #[trigger] personalizations@[k].deep_view()
                == spec_convert_personalization(all[k]),
        decreases rest@.len(),
    {
        let ghost done = personalizations@.len() as int;
        let ghost rest_before = rest@;
        let ghost dv_before = rest.deep_view();
        let p = rest.remove(0);
        proof {
            assert(p == rest_before[0]);
            assert(p.deep_view() == dv_before[0]);
            assert(dv_before[0] == all.skip(done)[0]);
            assert(all.skip(done)[0] == all[done]);
            assert forall|k: int| 0 <= k < rest@.len() implies rest@[k].deep_view()
                == all[done + 1 + k] by {
                assert(rest@[k] == rest_before[k + 1]);
                assert(dv_before[k + 1] == rest_before[k + 1].deep_view());
                assert(dv_before[k + 1] == all.skip(done)[k + 1]);
                assert(all.skip(done)[k + 1] == all[done + 1 + k]);
            }
            assert(rest.deep_view() =~= all.skip(done + 1));
        }
        personalizations.push(convert_personalization(p));
    }
    let out = sendgrid_api::SendMailRequest {
        personalizations,
        from: r.from,
        reply_to_list: r.reply_to_list,
        subject: r.subject,
        content: r.content,
        attachments: r.attachments,
        template_id: r.template_id,
        headers: match r.headers {
            Some(hs) => Some(convert_headers(&hs)),
            None => None,
        },
        send_at: r.send_at,
        batch_id: r.batch_id,
        unsubscription_settings: r.unsubscription_settings,
    };
    proof {
        assert(out.deep_view().personalizations =~= spec_convert_send_mail_request(
            rv,
        ).personalizations);
    }
    out
}

/// Whether a request names the send-mail procedure.
pub fn is_send_mail_procedure(name: &String) -> (r: bool)
    ensures
        r == (name@ == "send_mail"@),
{
    *name == String::from_str(crate::schema::SEND_MAIL)
}

/// The error reported for a procedure this connector does not have.
pub open spec fn spec_unknown_procedure_message(name: Seq<char>) -> Seq<char> {
    "Unknown procedure: "@ + name
}

/// Builds the refusal for a procedure this connector does not have: an
/// invalid-request error naming the procedure.
pub fn unknown_procedure_error(name: &String) -> (r: FieldsError)
    ensures
        r@ == FieldsErrorV::InvalidRequest(spec_unknown_procedure_message(name@)),
{
    FieldsError::InvalidRequest("Unknown procedure: ".to_owned().concat(name.as_str()))
}

/// The first argument, in decode order, that fails to decode. Meaningful
/// only when the whole request fails to decode; then it names the argument
/// at fault.
pub open spec fn spec_failing_send_mail_argument(args: Seq<(Seq<char>, ValueV)>) -> Seq<char> {
    if spec_decode_req_personalizations(lookup(args, "personalizations"@)) is None {
        "personalizations"@
    } else if spec_decode_req_address(lookup(args, "from"@)) is None {
        "from"@
    } else if spec_decode_req_addresses(lookup(args, "reply_to_list"@)) is None {
        "reply_to_list"@
    } else if spec_decode_req_string(lookup(args, "subject"@)) is None {
        "subject"@
    } else if spec_decode_req_contents(lookup(args, "content"@)) is None {
        "content"@
    } else if spec_decode_opt_attachments(lookup(args, "attachments"@)) is None {
        "attachments"@
    } else if spec_decode_opt_string(lookup(args, "template_id"@)) is None {
        "template_id"@
    } else if spec_decode_opt_headers(lookup(args, "headers"@)) is None {
        "headers"@
    } else if spec_decode_opt_u32(lookup(args, "send_at"@)) is None {
        "send_at"@
    } else if spec_decode_opt_string(lookup(args, "batch_id"@)) is None {
        "batch_id"@
    } else {
        "asm"@
    }
}

/// The error reported when the arguments of a send-mail request do not
/// decode: it names the first argument at fault.
pub open spec fn args_error(args: Seq<(Seq<char>, ValueV)>) -> FieldsErrorV {
    FieldsErrorV::InvalidRequest(
        "Unable to deserialize arguments: "@ + spec_failing_send_mail_argument(args),
    )
}

/// What the arguments of a send-mail request parse to: the wire-shaped
/// request exactly when they decode, the invalid-arguments error naming
/// the argument at fault otherwise.
pub open spec fn spec_parse_send_mail_args(args: Seq<(Seq<char>, ValueV)>) -> Result<
    sendgrid_api::SendMailRequestV,
    FieldsErrorV,
> {
    match spec_decode_send_mail_request(args) {
        Some(schema_req) => Ok(spec_convert_send_mail_request(schema_req)),
        None => Err(args_error(args)),
    }
}

/// Parses the arguments of a send-mail request into the wire-shaped
/// request the mail-delivery service takes.
pub fn parse_send_mail_args(in_args: &Vec<(String, Value)>) -> (r: Result<
    sendgrid_api::SendMailRequest,
    FieldsError,
>)
    ensures
        match r {
            Ok(req) => spec_parse_send_mail_args(row_view(in_args@)) == Ok::<
                sendgrid_api::SendMailRequestV,
                FieldsErrorV,
            >(req.deep_view()),
            Err(e) => spec_parse_send_mail_args(row_view(in_args@)) == Err::<
                sendgrid_api::SendMailRequestV,
                FieldsErrorV,
            >(e@),
        },
{
    match decode_send_mail_request(in_args) {
        Ok(schema_req) => Ok(convert_send_mail_request(schema_req)),
        Err(name) => Err(FieldsError::InvalidRequest(
            "Unable to deserialize arguments: ".to_owned().concat(name),
        )),
    }
}

/// The value a send-mail acknowledgment is rendered as: an object holding
/// the batch identifier, or null when none was requested.
pub open spec fn spec_send_mail_response_value(batch_id: Option<Seq<char>>) -> ValueV {
    ValueV::Object(seq![("batch_id"@, opt_string_value(batch_id))])
}

/// Renders the acknowledgment of a sent mail.
pub fn send_mail_response_value(batch_id: &Option<String>) -> (r: Value)
    ensures
        r@ == spec_send_mail_response_value(batch_id.deep_view()),
{
    let v = match batch_id {
        Some(s) => Value::String(s.clone()),
        None => Value::Null,
    };
    let entries: Vec<(String, Value)> = vec![("batch_id".to_owned(), v)];
    proof {
        lemma_row_view(entries@);
        assert(row_view(entries@)[0] == (entries@[0].0@, entries@[0].1@));
        assert(row_view(entries@) =~= seq![
            ("batch_id"@, opt_string_value(batch_id.deep_view())),
        ]);
    }
    Value::Object(entries)
}

/// What projecting a procedure's result through an optional nested
/// selection yields: no selection passes the result through verbatim.
pub open spec fn spec_project_procedure_result(
    result: ValueV,
    fields: Option<NestedFieldV>,
) -> Result<ValueV, FieldsErrorV> {
    match fields {
        None => Ok(result),
        Some(nf) => spec_eval_nested_field(result, nf),
    }
}

/// Projects a procedure's result through the request's nested selection,
/// when it has one.
pub fn project_procedure_result(result: Value, fields: &Option<NestedField>) -> (r: Result<
    Value,
    FieldsError,
>)
    ensures
        match r {
            Ok(v) => spec_project_procedure_result(
                result@,
                match fields {
                    Some(f) => Some(f@),
                    None => None,
                },
            ) == Ok::<ValueV, FieldsErrorV>(v@),
            Err(e) => spec_project_procedure_result(
                result@,
                match fields {
                    Some(f) => Some(f@),
                    None => None,
                },
            ) == Err::<ValueV, FieldsErrorV>(e@),
        },
{
    match fields {
        None => Ok(result),
        Some(f) => match eval_nested_field(&result, f) {
            Ok(v) => Ok(v.0),
            Err(e) => Err(e),
        },
    }
}

} // verus!
