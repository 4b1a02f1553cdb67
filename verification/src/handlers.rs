//! The host-side operations that the presentation layer can call.

use vstd::prelude::*;
use vstd::string::*;
use vstd::pervasive::unreached;
use crate::payload::{Payload, Value, ValueKind, ValueView};
use crate::schema::{first_fault, InputSchema};

verus! {

/// The greeting for `name`.
pub open spec fn greeting(name: Seq<char>) -> Seq<char> {
    "Hello, "@ + name + "! You've been greeted from Rust!"@
}

/// Greets `name`.
pub fn greet(name: &str) -> (text: String)
    ensures
        text@ == greeting(name@),
{
    let mut text = String::from_str("Hello, ");
    text.append(name);
    text.append("! You've been greeted from Rust!");
    text
}

/// An operation of the host. Each is a function of its input alone: it
/// keeps no state and waits for nothing.
#[derive(Debug, Clone, Copy, PartialEq, Eq, Structural)]
pub enum Handler {
    /// Greets the one named by the text field `name`.
    Greet,
}

/// Why a handler gave no answer.
#[derive(Debug, Clone, PartialEq, Eq)]
pub enum HandlerError {
    /// The input is not what the handler declares; the message says how.
    InvalidInput(String),
    /// The input was taken and the operation failed; the message says why.
    Failed(String),
}

/// A [`HandlerError`] with its message as a character sequence.
pub enum HandlerErrorView {
    InvalidInput(Seq<char>),
    Failed(Seq<char>),
}

impl View for HandlerError {
    type V = HandlerErrorView;

    open spec fn view(&self) -> HandlerErrorView {
        match self {
            HandlerError::InvalidInput(message) => HandlerErrorView::InvalidInput(message@),
            HandlerError::Failed(message) => HandlerErrorView::Failed(message@),
        }
    }
}

/// The input that `handler` declares.
pub open spec fn schema_of(handler: Handler) -> Seq<(Seq<char>, ValueKind)> {
    match handler {
        Handler::Greet => seq![("name"@, ValueKind::Text)],
    }
}

/// What `handler` makes of an input that meets its schema: the answer, or
/// the reason why the operation failed.
pub open spec fn answer_spec(handler: Handler, input: Map<Seq<char>, ValueView>) -> Result<
    ValueView,
    Seq<char>,
> {
    match handler {
        Handler::Greet => Ok(ValueView::Text(greeting(input["name"@]->Text_0))),
    }
}

/// What `handler` returns on `input`: `InvalidInput` with the first fault
/// of an input that does not meet its schema, else its answer, or `Failed`
/// with its reason.
pub open spec fn run_spec(handler: Handler, input: Map<Seq<char>, ValueView>) -> Result<
    ValueView,
    HandlerErrorView,
> {
    match first_fault(schema_of(handler), input) {
        Some(message) => Err(HandlerErrorView::InvalidInput(message)),
        None => match answer_spec(handler, input) {
            Ok(answer) => Ok(answer),
            Err(reason) => Err(HandlerErrorView::Failed(reason)),
        },
    }
}

/// What a handler returned, by its view.
pub open spec fn returned(result: Result<Value, HandlerError>) -> Result<
    ValueView,
    HandlerErrorView,
> {
    match result {
        Ok(answer) => Ok(answer@),
        Err(error) => Err(error@),
    }
}

impl Handler {
    /// The input that this handler declares.
    pub fn schema(&self) -> (schema: InputSchema)
        ensures
            schema@ == schema_of(*self),
    {
        match self {
            Handler::Greet => {
                let schema = InputSchema::new().field("name", ValueKind::Text);
                assert(schema@ =~= seq![("name"@, ValueKind::Text)]);
                schema
            },
        }
    }

    /// Runs this handler on `input`: checks the input against the schema,
    /// then computes the answer.
    pub fn run(&self, input: &Payload) -> (result: Result<Value, HandlerError>)
        ensures
            returned(result) == run_spec(*self, input@),
    {
        match self.schema().check(input) {
            Err(message) => Err(HandlerError::InvalidInput(message)),
            Ok(()) => match self {
                Handler::Greet => {
                    assert(schema_of(*self).first() == ("name"@, ValueKind::Text));
                    match input.get("name") {
                        Some(Value::Text(name)) => Ok(Value::Text(greet(name.as_str()))),
                        _ => unreached(),
                    }
                },
            },
        }
    }
}

} // verus!
