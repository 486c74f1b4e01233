//! Flat records: a finite mapping from names to simple values.
//!
//! A record is what the application stores and reports: the persisted form
//! of the settings, the capability report and the display-server report are
//! all records. Its mathematical model is a `Map` from names to value views.
//! The representation is a list of named fields in which no name occurs
//! twice; inserting under a name that is present replaces its value.

use vstd::prelude::*;

verus! {

/// A value held under one name of a record.
#[derive(Debug, PartialEq, Eq)]
pub enum Value {
    /// A truth value.
    Bool(bool),
    /// A whole number that is not negative.
    Unsigned(u64),
    /// A piece of text.
    Text(String),
    /// Anything else: nothing, a negative or fractional number, a list, a
    /// nested record. The library carries it and never reads it.
    Other,
}

/// The mathematical model of a [`Value`].
pub enum ValueView {
    Bool(bool),
    Unsigned(nat),
    Text(Seq<char>),
    Other,
}

impl View for Value {
    type V = ValueView;

    open spec fn view(&self) -> ValueView {
        match self {
            Value::Bool(flag) => ValueView::Bool(*flag),
            Value::Unsigned(count) => ValueView::Unsigned(*count as nat),
            Value::Text(text) => ValueView::Text(text@),
            Value::Other => ValueView::Other,
        }
    }
}

impl Clone for Value {
    fn clone(&self) -> (copy: Self)
        ensures
            copy@ == self@,
    {
        match self {
            Value::Bool(flag) => Value::Bool(*flag),
            Value::Unsigned(count) => Value::Unsigned(*count),
            Value::Text(text) => Value::Text(text.clone()),
            Value::Other => Value::Other,
        }
    }
}

/// One entry of a record: a name and the value held under it.
#[derive(Debug, PartialEq, Eq)]
pub struct Field {
    pub name: String,
    pub value: Value,
}

/// Whether some field of `fields` is called `name`.
pub open spec fn has_name(fields: Seq<Field>, name: Seq<char>) -> bool {
    exists|i: int| 0 <= i < fields.len() && (#[trigger] fields[i]).name@ == name
}

/// The index of a field called `name`, where there is one.
pub open spec fn position(fields: Seq<Field>, name: Seq<char>) -> int {
    choose|i: int| 0 <= i < fields.len() && (#[trigger] fields[i]).name@ == name
}

/// Whether no name occurs twice in `fields`.
pub open spec fn distinct_names(fields: Seq<Field>) -> bool {
    forall|i: int, j: int|
        0 <= i < j < fields.len() ==> (#[trigger] fields[i]).name@ != (#[trigger] fields[j]).name@
}

/// The mapping that a list of fields stands for.
pub open spec fn fields_map(fields: Seq<Field>) -> Map<Seq<char>, ValueView> {
    Map::new(
        |name: Seq<char>| has_name(fields, name),
        |name: Seq<char>| fields[position(fields, name)].value@,
    )
}

/// In a list without repeated names, a field's name leads back to that field.
pub proof fn lemma_position_of_field(fields: Seq<Field>, i: int)
    requires
        distinct_names(fields),
        0 <= i < fields.len(),
    ensures
        has_name(fields, fields[i].name@),
        position(fields, fields[i].name@) == i,
        fields_map(fields).contains_key(fields[i].name@),
        fields_map(fields)[fields[i].name@] == fields[i].value@,
{
    let name = fields[i].name@;
    let found = position(fields, name);
    assert(0 <= found < fields.len() && fields[found].name@ == name);
    if found < i {
        assert(fields[found].name@ != fields[i].name@);
    } else if i < found {
        assert(fields[i].name@ != fields[found].name@);
    }
}

/// Replacing the value of the field at `i` is an insertion under its name.
proof fn lemma_replace_is_insert(fields: Seq<Field>, i: int, field: Field)
    requires
        distinct_names(fields),
        0 <= i < fields.len(),
        field.name@ == fields[i].name@,
    ensures
        distinct_names(fields.update(i, field)),
        fields_map(fields.update(i, field)) == fields_map(fields).insert(field.name@, field.value@),
{
    let after = fields.update(i, field);
    assert forall|a: int, b: int| 0 <= a < b < after.len() implies (#[trigger] after[a]).name@ != (
    #[trigger] after[b]).name@ by {
        assert(after[a].name@ == fields[a].name@);
        assert(after[b].name@ == fields[b].name@);
    }
    let expected = fields_map(fields).insert(field.name@, field.value@);
    assert forall|name: Seq<char>| fields_map(after).contains_key(name) <==> expected.contains_key(
        name,
    ) by {
        if has_name(after, name) {
            let k = position(after, name);
            assert(fields[k].name@ == after[k].name@);
        }
        if has_name(fields, name) {
            let k = position(fields, name);
            assert(after[k].name@ == fields[k].name@);
        }
        assert(after[i].name@ == field.name@);
    }
    assert forall|name: Seq<char>| fields_map(after).contains_key(name) implies fields_map(
        after,
    )[name] == expected[name] by {
        let k = position(after, name);
        lemma_position_of_field(after, k);
        if k != i {
            assert(after[k] == fields[k]);
            lemma_position_of_field(fields, k);
        }
    }
    assert(fields_map(after) =~= expected);
}

/// Appending a field under a name that is not present is an insertion.
proof fn lemma_append_is_insert(fields: Seq<Field>, field: Field)
    requires
        distinct_names(fields),
        !has_name(fields, field.name@),
    ensures
        distinct_names(fields.push(field)),
        fields_map(fields.push(field)) == fields_map(fields).insert(field.name@, field.value@),
{
    let after = fields.push(field);
    let last = fields.len() as int;
    assert forall|a: int, b: int| 0 <= a < b < after.len() implies (#[trigger] after[a]).name@ != (
    #[trigger] after[b]).name@ by {
        assert(after[a] == fields[a]);
        if b < last {
            assert(after[b] == fields[b]);
        }
    }
    let expected = fields_map(fields).insert(field.name@, field.value@);
    assert forall|name: Seq<char>| fields_map(after).contains_key(name) <==> expected.contains_key(
        name,
    ) by {
        if has_name(after, name) {
            let k = position(after, name);
            if k < last {
                assert(fields[k].name@ == name);
            }
        }
        if has_name(fields, name) {
            let k = position(fields, name);
            assert(after[k].name@ == name);
        }
        assert(after[last].name@ == field.name@);
    }
    assert forall|name: Seq<char>| fields_map(after).contains_key(name) implies fields_map(
        after,
    )[name] == expected[name] by {
        let k = position(after, name);
        lemma_position_of_field(after, k);
        if k < last {
            assert(after[k] == fields[k]);
            lemma_position_of_field(fields, k);
        }
    }
    assert(fields_map(after) =~= expected);
}

/// The text held under `name`, where the mapping holds text there.
pub open spec fn text_under(record: Map<Seq<char>, ValueView>, name: Seq<char>) -> Option<
    Seq<char>,
> {
    if record.contains_key(name) {
        match record[name] {
            ValueView::Text(text) => Some(text),
            _ => None,
        }
    } else {
        None
    }
}

/// The truth value held under `name`, where the mapping holds one there.
pub open spec fn bool_under(record: Map<Seq<char>, ValueView>, name: Seq<char>) -> Option<bool> {
    if record.contains_key(name) {
        match record[name] {
            ValueView::Bool(flag) => Some(flag),
            _ => None,
        }
    } else {
        None
    }
}

/// The whole number held under `name`, where the mapping holds one there.
pub open spec fn unsigned_under(record: Map<Seq<char>, ValueView>, name: Seq<char>) -> Option<
    nat,
> {
    if record.contains_key(name) {
        match record[name] {
            ValueView::Unsigned(count) => Some(count),
            _ => None,
        }
    } else {
        None
    }
}

/// A finite mapping from names to values.
#[derive(Debug)]
pub struct Record {
    fields: Vec<Field>,
}

impl View for Record {
    type V = Map<Seq<char>, ValueView>;

    closed spec fn view(&self) -> Map<Seq<char>, ValueView> {
        fields_map(self.fields@)
    }
}

impl Record {
    /// No name occurs twice among the fields.
    #[verifier::type_invariant]
    spec fn well_formed(&self) -> bool {
        distinct_names(self.fields@)
    }

    /// The fields as the record holds them.
    pub closed spec fn entries(&self) -> Seq<Field> {
        self.fields@
    }

    /// The record without any field.
    pub fn new() -> (record: Record)
        ensures
            record@ == Map::<Seq<char>, ValueView>::empty(),
            record.entries().len() == 0,
    {
        let record = Record { fields: Vec::new() };
        assert(record@ =~= Map::<Seq<char>, ValueView>::empty());
        record
    }

    /// The index of the field called `name`, if there is one.
    fn find(&self, name: &String) -> (found: Option<usize>)
        ensures
            match found {
                Some(i) => i < self.fields@.len() && self.fields@[i as int].name@ == name@,
                None => !has_name(self.fields@, name@),
            },
    {
        let mut i: usize = 0;
        while i < self.fields.len()
            invariant
                i <= self.fields@.len(),
                forall|j: int| 0 <= j < i ==> (#[trigger] self.fields@[j]).name@ != name@,
            decreases self.fields@.len() - i,
        {
            if self.fields[i].name == *name {
                return Some(i);
            }
            i += 1;
        }
        None
    }

    /// The value held under `name`, or `None` where the record has no such
    /// name.
    pub fn get(&self, name: &str) -> (value: Option<&Value>)
        ensures
            match value {
                Some(held) => self@.contains_key(name@) && held@ == self@[name@],
                None => !self@.contains_key(name@),
            },
    {
        proof {
            use_type_invariant(self);
        }
        let key = name.to_owned();
        match self.find(&key) {
            Some(i) => {
                proof {
                    lemma_position_of_field(self.fields@, i as int);
                }
                Some(&self.fields[i].value)
            },
            None => None,
        }
    }

    /// Puts `value` under `name`. A value already held under that name is
    /// replaced; every other name keeps its value.
    pub fn insert(&mut self, name: String, value: Value)
        ensures
            final(self)@ == old(self)@.insert(name@, value@),
    {
        proof {
            use_type_invariant(&*self);
        }
        let found = self.find(&name);
        let mut fields: Vec<Field> = Vec::new();
        std::mem::swap(&mut fields, &mut self.fields);
        let field = Field { name, value };
        match found {
            Some(i) => {
                proof {
                    lemma_replace_is_insert(fields@, i as int, field);
                }
                fields.set(i, field);
            },
            None => {
                proof {
                    lemma_append_is_insert(fields@, field);
                }
                fields.push(field);
            },
        }
        self.fields = fields;
    }

    /// A copy of the text held under `name`; `None` where the name is absent
    /// or holds something other than text.
    pub fn text(&self, name: &str) -> (text: Option<String>)
        ensures
            match text {
                Some(held) => text_under(self@, name@) == Some(held@),
                None => text_under(self@, name@) is None,
            },
    {
        match self.get(name) {
            Some(Value::Text(held)) => Some(held.clone()),
            _ => None,
        }
    }

    /// The truth value held under `name`; `None` where the name is absent or
    /// holds something other than a truth value.
    pub fn bool(&self, name: &str) -> (flag: Option<bool>)
        ensures
            flag == bool_under(self@, name@),
    {
        match self.get(name) {
            Some(Value::Bool(held)) => Some(*held),
            _ => None,
        }
    }

    /// The whole number held under `name`; `None` where the name is absent or
    /// holds something other than a whole number.
    pub fn unsigned(&self, name: &str) -> (count: Option<u64>)
        ensures
            match count {
                Some(held) => unsigned_under(self@, name@) == Some(held as nat),
                None => unsigned_under(self@, name@) is None,
            },
    {
        match self.get(name) {
            Some(Value::Unsigned(held)) => Some(*held),
            _ => None,
        }
    }

    /// The fields of the record, each name once.
    pub fn fields(&self) -> (fields: &Vec<Field>)
        ensures
            fields@ == self.entries(),
            distinct_names(fields@),
            self@ == fields_map(fields@),
    {
        proof {
            use_type_invariant(self);
        }
        &self.fields
    }
}

} // verus!
