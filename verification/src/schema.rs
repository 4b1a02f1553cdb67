//! The input that a command declares, and the check of an input against it.

use vstd::prelude::*;
use vstd::string::*;
use crate::payload::{kind_of, Payload, ValueKind, ValueView};

verus! {

/// How a value of `kind` is called in a message.
pub open spec fn kind_phrase(kind: ValueKind) -> Seq<char> {
    match kind {
        ValueKind::Null => "null"@,
        ValueKind::Bool => "a boolean"@,
        ValueKind::Number => "a number"@,
        ValueKind::Text => "a string"@,
    }
}

/// The message for an input that lacks the field `name`.
pub open spec fn missing_message(name: Seq<char>) -> Seq<char> {
    "missing field `"@ + name + "`"@
}

/// The message for an input whose field `name` is not of `kind`.
pub open spec fn mismatch_message(name: Seq<char>, kind: ValueKind) -> Seq<char> {
    "field `"@ + name + "` must be "@ + kind_phrase(kind)
}

/// What is wrong in `input` with the declared field `field`, if anything:
/// it is missing, or it holds a value of another kind.
pub open spec fn field_fault(field: (Seq<char>, ValueKind), input: Map<Seq<char>, ValueView>)
    -> Option<Seq<char>> {
    match input.get(field.0) {
        None => Some(missing_message(field.0)),
        Some(value) => if kind_of(value) == field.1 {
            None
        } else {
            Some(mismatch_message(field.0, field.1))
        },
    }
}

/// The fault of the first declared field that `input` does not meet, if
/// there is one. Fields that are not declared are not looked at.
pub open spec fn first_fault(
    fields: Seq<(Seq<char>, ValueKind)>,
    input: Map<Seq<char>, ValueView>,
) -> Option<Seq<char>>
    decreases fields.len(),
{
    if fields.len() == 0 {
        None
    } else {
        match field_fault(fields.first(), input) {
            Some(message) => Some(message),
            None => first_fault(fields.drop_first(), input),
        }
    }
}

/// The input that a command declares: its fields by name, each with the
/// kind of value it takes, in the order of declaration.
#[derive(Debug, Clone, PartialEq, Eq)]
pub struct InputSchema {
    fields: Vec<(String, ValueKind)>,
}

impl View for InputSchema {
    type V = Seq<(Seq<char>, ValueKind)>;

    closed spec fn view(&self) -> Seq<(Seq<char>, ValueKind)> {
        self.fields@.map_values(|field: (String, ValueKind)| (field.0@, field.1))
    }
}

impl InputSchema {
    /// The schema that declares nothing.
    pub fn new() -> (schema: InputSchema)
        ensures
            schema@ == Seq::<(Seq<char>, ValueKind)>::empty(),
    {
        let schema = InputSchema { fields: Vec::new() };
        assert(schema@ =~= Seq::<(Seq<char>, ValueKind)>::empty());
        schema
    }

    /// This schema with one more field declared: `name`, of `kind`.
    pub fn field(self, name: &str, kind: ValueKind) -> (schema: InputSchema)
        ensures
            schema@ == self@.push((name@, kind)),
    {
        let mut fields = self.fields;
        fields.push((String::from_str(name), kind));
        let schema = InputSchema { fields };
        assert(schema@ =~= self@.push((name@, kind)));
        schema
    }

    /// Checks `input` against the declared fields, in their order: the
    /// message for the first that `input` does not meet.
    pub fn check(&self, input: &Payload) -> (verdict: Result<(), String>)
        ensures
            match first_fault(self@, input@) {
                Some(message) => verdict is Err && verdict->Err_0@ == message,
                None => verdict is Ok,
            },
    {
        let mut i: usize = 0;
        assert(self@.skip(0) =~= self@);
        while i < self.fields.len()
            invariant
                i <= self.fields.len(),
                self@.len() == self.fields.len(),
                first_fault(self@, input@) == first_fault(self@.skip(i as int), input@),
            decreases self.fields.len() - i,
        {
            let ghost rest = self@.skip(i as int);
            assert(rest.first() == self@[i as int]);
            assert(rest.drop_first() =~= self@.skip(i + 1));
            let name = self.fields[i].0.as_str();
            let kind = self.fields[i].1;
            assert(self@[i as int] == (name@, kind));
            match input.get(name) {
                None => {
                    let mut message = String::from_str("missing field `");
                    message.append(name);
                    message.append("`");
                    return Err(message);
                },
                Some(value) => {
                    if value.kind() != kind {
                        let mut message = String::from_str("field `");
                        message.append(name);
                        message.append("` must be ");
                        message.append(phrase(kind));
                        return Err(message);
                    }
                },
            }
            i += 1;
        }
        Ok(())
    }
}

/// How a value of `kind` is called in a message.
pub fn phrase(kind: ValueKind) -> (phrase: &'static str)
    ensures
        phrase@ == kind_phrase(kind),
{
    match kind {
        ValueKind::Null => "null",
        ValueKind::Bool => "a boolean",
        ValueKind::Number => "a number",
        ValueKind::Text => "a string",
    }
}

} // verus!
