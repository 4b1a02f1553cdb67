//! What crosses the bridge: values, and inputs made of named values.

use vstd::prelude::*;
use vstd::string::*;
use crate::directory::Directory;

verus! {

/// The kinds of value.
#[derive(Debug, Clone, Copy, PartialEq, Eq, Structural)]
pub enum ValueKind {
    Null,
    Bool,
    Number,
    Text,
}

/// A value that the presentation layer sends or receives.
#[derive(Debug, Clone, PartialEq, Eq)]
pub enum Value {
    Null,
    Bool(bool),
    Number(i64),
    Text(String),
}

/// A [`Value`] with its text as a character sequence.
pub enum ValueView {
    Null,
    Bool(bool),
    Number(i64),
    Text(Seq<char>),
}

impl View for Value {
    type V = ValueView;

    open spec fn view(&self) -> ValueView {
        match self {
            Value::Null => ValueView::Null,
            Value::Bool(flag) => ValueView::Bool(*flag),
            Value::Number(number) => ValueView::Number(*number),
            Value::Text(text) => ValueView::Text(text@),
        }
    }
}

/// The kind of `value`.
pub open spec fn kind_of(value: ValueView) -> ValueKind {
    match value {
        ValueView::Null => ValueKind::Null,
        ValueView::Bool(_) => ValueKind::Bool,
        ValueView::Number(_) => ValueKind::Number,
        ValueView::Text(_) => ValueKind::Text,
    }
}

impl Value {
    /// The text value that holds `text`.
    pub fn text(text: &str) -> (value: Value)
        ensures
            value@ == ValueView::Text(text@),
    {
        Value::Text(String::from_str(text))
    }

    /// The kind of this value.
    pub fn kind(&self) -> (kind: ValueKind)
        ensures
            kind == kind_of(self@),
    {
        match self {
            Value::Null => ValueKind::Null,
            Value::Bool(_) => ValueKind::Bool,
            Value::Number(_) => ValueKind::Number,
            Value::Text(_) => ValueKind::Text,
        }
    }
}

/// The input of an invocation: values by name.
#[derive(Debug, Clone, PartialEq, Eq)]
pub struct Payload {
    fields: Directory<Value>,
}

impl View for Payload {
    type V = Map<Seq<char>, ValueView>;

    closed spec fn view(&self) -> Map<Seq<char>, ValueView> {
        self.fields@.map_values(|value: Value| value@)
    }
}

impl Payload {
    /// The input without fields.
    pub fn new() -> (payload: Payload)
        ensures
            payload@ == Map::<Seq<char>, ValueView>::empty(),
    {
        let payload = Payload { fields: Directory::new() };
        assert(payload@ =~= Map::<Seq<char>, ValueView>::empty());
        payload
    }

    /// This input with the field `name` set to `value`, in place of what it
    /// held before.
    pub fn with(self, name: &str, value: Value) -> (payload: Payload)
        ensures
            payload@ == self@.insert(name@, value@),
    {
        let mut fields = self.fields;
        fields.put(name, value);
        let payload = Payload { fields };
        assert(payload@ =~= self@.insert(name@, value@));
        payload
    }

    /// The value of the field `name`, if the input has it.
    pub fn get(&self, name: &str) -> (value: Option<&Value>)
        ensures
            match value {
                Some(found) => self@.get(name@) == Some(found@),
                None => self@.get(name@) == None::<ValueView>,
            },
    {
        self.fields.get(name)
    }
}

} // verus!
