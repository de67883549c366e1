//! The parameters of a call: a mapping from names to values.

use vstd::prelude::*;
use crate::text::same_text;

verus! {

/// A parameter value as callers send it. Of values that are not text only
/// the kind is kept: no tool reads more of them.
#[derive(Debug, Clone, PartialEq, Eq)]
pub enum ParamValue {
    Null,
    Boolean,
    Number,
    Text(String),
    Array,
    Object,
}

/// What a `ParamValue` stands for in contracts.
pub ghost enum ParamValueView {
    Null,
    Boolean,
    Number,
    Text(Seq<char>),
    Array,
    Object,
}

impl View for ParamValue {
    type V = ParamValueView;

    open spec fn view(&self) -> ParamValueView {
        match self {
            ParamValue::Null => ParamValueView::Null,
            ParamValue::Boolean => ParamValueView::Boolean,
            ParamValue::Number => ParamValueView::Number,
            ParamValue::Text(text) => ParamValueView::Text(text@),
            ParamValue::Array => ParamValueView::Array,
            ParamValue::Object => ParamValueView::Object,
        }
    }
}

/// The name of the kind of `value`, as error messages give it.
pub open spec fn kind_name(value: ParamValueView) -> Seq<char> {
    match value {
        ParamValueView::Null => "null"@,
        ParamValueView::Boolean => "boolean"@,
        ParamValueView::Number => "number"@,
        ParamValueView::Text(_) => "string"@,
        ParamValueView::Array => "array"@,
        ParamValueView::Object => "object"@,
    }
}

impl ParamValue {
    /// The name of the kind of this value, as error messages give it.
    pub fn kind_name(&self) -> (name: &'static str)
        ensures
            name@ == kind_name(self@),
    {
        match self {
            ParamValue::Null => "null",
            ParamValue::Boolean => "boolean",
            ParamValue::Number => "number",
            ParamValue::Text(_) => "string",
            ParamValue::Array => "array",
            ParamValue::Object => "object",
        }
    }
}

/// One named value.
#[derive(Debug, Clone)]
struct Param {
    name: String,
    value: ParamValue,
}

/// The mapping that a list of named values stands for: where a name occurs
/// more than once, its last value counts.
spec fn entries_map(entries: Seq<Param>) -> Map<Seq<char>, ParamValueView>
    decreases entries.len(),
{
    if entries.len() == 0 {
        Map::empty()
    } else {
        entries_map(entries.drop_last()).insert(entries.last().name@, entries.last().value@)
    }
}

/// The parameters of one call.
#[derive(Debug, Clone)]
pub struct Arguments {
    entries: Vec<Param>,
}

impl View for Arguments {
    type V = Map<Seq<char>, ParamValueView>;

    closed spec fn view(&self) -> Map<Seq<char>, ParamValueView> {
        entries_map(self.entries@)
    }
}

/// An entry after which the name does not occur again is the one that the
/// mapping holds for the name.
proof fn lemma_last_entry_counts(entries: Seq<Param>, at: int, name: Seq<char>)
    requires
        0 <= at < entries.len(),
        entries[at].name@ == name,
        forall|k: int| at < k < entries.len() ==> entries[k].name@ != name,
    ensures
        entries_map(entries).contains_key(name),
        entries_map(entries)[name] == entries[at].value@,
    decreases entries.len(),
{
    if at < entries.len() - 1 {
        lemma_last_entry_counts(entries.drop_last(), at, name);
    }
}

/// A name that no entry carries is not in the mapping.
proof fn lemma_absent_name(entries: Seq<Param>, name: Seq<char>)
    requires
        forall|k: int| 0 <= k < entries.len() ==> entries[k].name@ != name,
    ensures
        !entries_map(entries).contains_key(name),
    decreases entries.len(),
{
    if entries.len() > 0 {
        lemma_absent_name(entries.drop_last(), name);
    }
}

impl Arguments {
    /// No parameters at all.
    pub fn new() -> (arguments: Arguments)
        ensures
            arguments@ == Map::<Seq<char>, ParamValueView>::empty(),
    {
        Arguments { entries: Vec::new() }
    }

    /// Sets `name` to `value`, in place of any value it had.
    pub fn insert(&mut self, name: String, value: ParamValue)
        ensures
            final(self)@ == old(self)@.insert(name@, value@),
    {
        self.entries.push(Param { name, value });
        assert(self.entries@.drop_last() == old(self).entries@);
    }

    /// The value of `name`, if it has one.
    pub fn get(&self, name: &str) -> (value: Option<&ParamValue>)
        ensures
            match value {
                Some(found) => self@.contains_key(name@) && self@[name@] == found@,
                None => !self@.contains_key(name@),
            },
    {
        let mut i = self.entries.len();
        while i > 0
            invariant
                i <= self.entries.len(),
                forall|k: int| i <= k < self.entries.len() ==> self.entries[k].name@ != name@,
            decreases i,
        {
            i -= 1;
            if same_text(self.entries[i].name.as_str(), name) {
                proof {
                    lemma_last_entry_counts(self.entries@, i as int, name@);
                }
                return Some(&self.entries[i].value);
            }
        }
        proof {
            lemma_absent_name(self.entries@, name@);
        }
        None
    }
}

} // verus!
