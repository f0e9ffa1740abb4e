use vstd::prelude::*;

verus! {

/// An untyped JSON-like value: the representation of both the rows handed to
/// the projection engine and the projected output it produces.
///
/// `Object` entries keep their insertion order, and keys are unique in a
/// well-formed object. Numbers are restricted to signed 64-bit integers; the
/// engine never inspects a number, it only passes it through.
#[derive(Debug, PartialEq)]
pub enum Value {
    Null,
    Bool(bool),
    Number(i64),
    String(String),
    Array(Vec<Value>),
    Object(Vec<(String, Value)>),
}

/// The mathematical model of a `Value`: strings become sequences of
/// characters, vectors become sequences and numbers become unbounded
/// integers.
pub enum ValueV {
    Null,
    Bool(bool),
    Number(int),
    String(Seq<char>),
    Array(Seq<ValueV>),
    Object(Seq<(Seq<char>, ValueV)>),
}

impl View for Value {
    type V = ValueV;

    open spec fn view(&self) -> ValueV
        decreases self,
    {
        match self {
            Value::Null => ValueV::Null,
            Value::Bool(b) => ValueV::Bool(*b),
            Value::Number(n) => ValueV::Number(*n as int),
            Value::String(s) => ValueV::String(s@),
            Value::Array(items) => ValueV::Array(values_view(items@)),
            Value::Object(entries) => ValueV::Object(row_view(entries@)),
        }
    }
}

/// The model of a sequence of values, element by element.
pub open spec fn values_view(items: Seq<Value>) -> Seq<ValueV>
    decreases items,
{
    if items.len() == 0 {
        Seq::empty()
    } else {
        values_view(items.drop_last()).push(items.last()@)
    }
}

/// The model of a row (or of the entries of an object): named entries whose
/// names become character sequences and whose values are taken to their
/// models, in order.
pub open spec fn row_view(item: Seq<(String, Value)>) -> Seq<(Seq<char>, ValueV)>
    decreases item,
{
    if item.len() == 0 {
        Seq::empty()
    } else {
        row_view(item.drop_last()).push((item.last().0@, item.last().1@))
    }
}

/// `values_view` maps the sequence element by element.
pub proof fn lemma_values_view(items: Seq<Value>)
    ensures
        values_view(items).len() == items.len(),
        forall|i: int| 0 <= i < items.len() ==> values_view(items)[i] == #[trigger] items[i]@,
    decreases items.len(),
{
    if items.len() > 0 {
        lemma_values_view(items.drop_last());
        assert(values_view(items) == values_view(items.drop_last()).push(items.last()@));
        assert forall|i: int| 0 <= i < items.len() implies values_view(items)[i]
            == #[trigger] items[i]@ by {
            if i < items.len() - 1 {
                assert(items.drop_last()[i] == items[i]);
                assert(values_view(items.drop_last())[i] == items.drop_last()[i]@);
                assert(values_view(items)[i] == values_view(items.drop_last())[i]);
            } else {
                assert(items.last() == items[i]);
                assert(values_view(items)[i] == items.last()@);
            }
        }
    }
}

/// `row_view` maps the entries element by element.
pub proof fn lemma_row_view(item: Seq<(String, Value)>)
    ensures
        row_view(item).len() == item.len(),
        forall|i: int| 0 <= i < item.len()
            ==> row_view(item)[i] == (#[trigger] item[i].0@, item[i].1@),
    decreases item.len(),
{
    if item.len() > 0 {
        lemma_row_view(item.drop_last());
        assert(row_view(item) == row_view(item.drop_last()).push(
            (item.last().0@, item.last().1@),
        ));
        assert forall|i: int| 0 <= i < item.len() implies row_view(item)[i]
            == (#[trigger] item[i].0@, item[i].1@) by {
            if i < item.len() - 1 {
                assert(item.drop_last()[i] == item[i]);
                assert(row_view(item.drop_last())[i]
                    == (item.drop_last()[i].0@, item.drop_last()[i].1@));
                assert(row_view(item)[i] == row_view(item.drop_last())[i]);
            } else {
                assert(item.last() == item[i]);
                assert(row_view(item)[i] == (item.last().0@, item.last().1@));
            }
        }
    }
}

/// The value standing for absent-or-text: null when absent, the text
/// itself otherwise.
pub open spec fn opt_string_value(s: Option<Seq<char>>) -> ValueV {
    match s {
        None => ValueV::Null,
        Some(x) => ValueV::String(x),
    }
}

/// No two entries carry the same name.
pub open spec fn unique_keys<T>(entries: Seq<(Seq<char>, T)>) -> bool {
    forall|i: int, j: int| 0 <= i < j < entries.len() ==> entries[i].0 != entries[j].0
}

/// The value of the first entry named `name`, if any.
pub open spec fn lookup<T>(entries: Seq<(Seq<char>, T)>, name: Seq<char>) -> Option<T>
    decreases entries.len(),
{
    if entries.len() == 0 {
        None
    } else if entries[0].0 == name {
        Some(entries[0].1)
    } else {
        lookup(entries.drop_first(), name)
    }
}

/// A lookup skips every entry that does not carry the name.
pub proof fn lemma_lookup_skip<T>(entries: Seq<(Seq<char>, T)>, name: Seq<char>, i: int)
    requires
        0 <= i <= entries.len(),
        forall|j: int| 0 <= j < i ==> entries[j].0 != name,
    ensures
        lookup(entries, name) == lookup(entries.skip(i), name),
    decreases i,
{
    if i > 0 {
        lemma_lookup_skip(entries.drop_first(), name, i - 1);
        assert(entries.drop_first().skip(i - 1) =~= entries.skip(i));
    } else {
        assert(entries.skip(0) =~= entries);
    }
}

/// A found name yields the entry it was found at.
pub proof fn lemma_lookup_found<T>(entries: Seq<(Seq<char>, T)>, name: Seq<char>, i: int)
    requires
        0 <= i < entries.len(),
        forall|j: int| 0 <= j < i ==> entries[j].0 != name,
        entries[i].0 == name,
    ensures
        lookup(entries, name) == Some(entries[i].1),
{
    lemma_lookup_skip(entries, name, i);
    assert(entries.skip(i)[0] == entries[i]);
}

/// A name carried by no entry is not found.
pub proof fn lemma_lookup_none<T>(entries: Seq<(Seq<char>, T)>, name: Seq<char>)
    requires
        forall|j: int| 0 <= j < entries.len() ==> entries[j].0 != name,
    ensures
        lookup(entries, name) is None,
{
    lemma_lookup_skip(entries, name, entries.len() as int);
    assert(entries.skip(entries.len() as int) =~= Seq::<(Seq<char>, T)>::empty());
}

/// A successful lookup yields the name paired with one of the entries'
/// values: what it returns always stands in the list.
pub proof fn lemma_lookup_is_entry<T>(entries: Seq<(Seq<char>, T)>, name: Seq<char>)
    requires
        lookup(entries, name) is Some,
    ensures
        exists|j: int|
            0 <= j < entries.len() && #[trigger] entries[j] == (name, lookup(entries, name)->0),
    decreases entries.len(),
{
    if entries.len() > 0 {
        if entries[0].0 == name {
            assert(entries[0] == (name, lookup(entries, name)->0));
        } else {
            lemma_lookup_is_entry(entries.drop_first(), name);
            let j = choose|j: int|
                0 <= j < entries.drop_first().len() && #[trigger] entries.drop_first()[j] == (
                    name,
                    lookup(entries.drop_first(), name)->0,
                );
            assert(entries[j + 1] == entries.drop_first()[j]);
        }
    }
}

/// The first entry of the given name, if any.
pub fn find_entry<'a>(entries: &'a Vec<(String, Value)>, name: &String) -> (r: Option<&'a Value>)
    ensures
        match r {
            Some(v) => lookup(row_view(entries@), name@) == Some(v@),
            None => lookup(row_view(entries@), name@) is None,
        },
{
    let mut i: usize = 0;
    while i < entries.len()
        invariant
            i <= entries@.len(),
            forall|j: int| 0 <= j < i ==> #[trigger] entries@[j].0@ != name@,
        decreases entries@.len() - i,
    {
        if entries[i].0 == *name {
            proof {
                lemma_row_view(entries@);
                assert forall|j: int| 0 <= j < i implies #[trigger] row_view(entries@)[j].0
                    != name@ by {
                    assert(entries@[j].0@ != name@);
                    assert(row_view(entries@)[j] == (entries@[j].0@, entries@[j].1@));
                }
                assert(row_view(entries@)[i as int] == (
                    entries@[i as int].0@,
                    entries@[i as int].1@,
                ));
                lemma_lookup_found(row_view(entries@), name@, i as int);
            }
            return Some(&entries[i].1);
        }
        i += 1;
    }
    proof {
        lemma_row_view(entries@);
        assert forall|j: int| 0 <= j < entries@.len() implies #[trigger] row_view(entries@)[j].0
            != name@ by {
            assert(entries@[j].0@ != name@);
            assert(row_view(entries@)[j] == (entries@[j].0@, entries@[j].1@));
        }
        lemma_lookup_none(row_view(entries@), name@);
    }
    None
}

impl Value {
    /// A deep copy, with the same model as the value it copies.
    pub fn deep_clone(&self) -> (r: Value)
        ensures
            r@ == self@,
        decreases self,
    {
        match self {
            Value::Null => Value::Null,
            Value::Bool(b) => Value::Bool(*b),
            Value::Number(n) => Value::Number(*n),
            Value::String(s) => Value::String(s.clone()),
            Value::Array(items) => Value::Array(clone_values(items)),
            Value::Object(entries) => Value::Object(clone_entries(entries)),
        }
    }
}

/// A deep copy of a sequence of values, element by element.
fn clone_values(items: &Vec<Value>) -> (r: Vec<Value>)
    ensures
        values_view(r@) == values_view(items@),
    decreases items@,
{
    let mut out: Vec<Value> = Vec::new();
    let mut i: usize = 0;
    while i < items.len()
        invariant
            i <= items.len(),
            out@.len() == i as nat,
            forall|k: int| 0 <= k < i ==> out@[k]@ == #[trigger] items@[k]@,
        decreases items.len() - i,
    {
        out.push(items[i].deep_clone());
        i += 1;
    }
    proof {
        lemma_values_view(out@);
        lemma_values_view(items@);
        assert forall|k: int| 0 <= k < items@.len() implies values_view(out@)[k]
            == values_view(items@)[k] by {
            assert(out@[k]@ == items@[k]@);
        }
        assert(values_view(out@) =~= values_view(items@));
    }
    out
}

/// A deep copy of named entries, element by element.
fn clone_entries(entries: &Vec<(String, Value)>) -> (r: Vec<(String, Value)>)
    ensures
        row_view(r@) == row_view(entries@),
    decreases entries@,
{
    let mut out: Vec<(String, Value)> = Vec::new();
    let mut i: usize = 0;
    while i < entries.len()
        invariant
            i <= entries.len(),
            out@.len() == i as nat,
            forall|k: int| 0 <= k < i ==> out@[k].0@ == #[trigger] entries@[k].0@
                && out@[k].1@ == entries@[k].1@,
        decreases entries.len() - i,
    {
        let (name, value) = &entries[i];
        out.push((name.clone(), value.deep_clone()));
        i += 1;
    }
    proof {
        lemma_row_view(out@);
        lemma_row_view(entries@);
        assert forall|k: int| 0 <= k < entries@.len() implies row_view(out@)[k]
            == row_view(entries@)[k] by {
            assert(out@[k].0@ == entries@[k].0@ && out@[k].1@ == entries@[k].1@);
        }
        assert(row_view(out@) =~= row_view(entries@));
    }
    out
}

} // verus!
