//! The command bridge: the operations of the host by name, and the call of
//! one of them.

use vstd::prelude::*;
use vstd::string::*;
use crate::directory::Directory;
use crate::handlers::{run_spec, schema_of, Handler, HandlerError, HandlerErrorView};
use crate::payload::{Payload, Value, ValueKind, ValueView};
use crate::schema::InputSchema;

verus! {

/// Why an invocation gave no answer. None of these stops the host.
#[derive(Debug, Clone, PartialEq, Eq)]
pub enum InvokeError {
    /// No command is registered under the name, which is given here.
    UnknownCommand(String),
    /// The input is not what the command declares; the message says how.
    InvalidInput(String),
    /// The command took the input and failed; the message says why.
    HandlerFailed(String),
}

/// An [`InvokeError`] with its text as a character sequence.
pub enum InvokeErrorView {
    UnknownCommand(Seq<char>),
    InvalidInput(Seq<char>),
    HandlerFailed(Seq<char>),
}

impl View for InvokeError {
    type V = InvokeErrorView;

    open spec fn view(&self) -> InvokeErrorView {
        match self {
            InvokeError::UnknownCommand(name) => InvokeErrorView::UnknownCommand(name@),
            InvokeError::InvalidInput(message) => InvokeErrorView::InvalidInput(message@),
            InvokeError::HandlerFailed(message) => InvokeErrorView::HandlerFailed(message@),
        }
    }
}

/// The error of an invocation whose handler returned `error`.
pub open spec fn from_handler_spec(error: HandlerErrorView) -> InvokeErrorView {
    match error {
        HandlerErrorView::InvalidInput(message) => InvokeErrorView::InvalidInput(message),
        HandlerErrorView::Failed(message) => InvokeErrorView::HandlerFailed(message),
    }
}

/// What the caller is told of `error`.
pub open spec fn message_spec(error: InvokeErrorView) -> Seq<char> {
    match error {
        InvokeErrorView::UnknownCommand(name) => "Unknown command: "@ + name,
        InvokeErrorView::InvalidInput(message) => "Invalid input: "@ + message,
        InvokeErrorView::HandlerFailed(message) => "Command failed: "@ + message,
    }
}

impl InvokeError {
    /// What the caller is told of this error.
    pub fn message(&self) -> (message: String)
        ensures
            message@ == message_spec(self@),
    {
        match self {
            InvokeError::UnknownCommand(name) => {
                String::from_str("Unknown command: ").concat(name.as_str())
            },
            InvokeError::InvalidInput(message) => {
                String::from_str("Invalid input: ").concat(message.as_str())
            },
            InvokeError::HandlerFailed(message) => {
                String::from_str("Command failed: ").concat(message.as_str())
            },
        }
    }

    /// The error of an invocation whose handler returned `error`.
    pub fn from_handler(error: HandlerError) -> (raised: InvokeError)
        ensures
            raised@ == from_handler_spec(error@),
    {
        match error {
            HandlerError::InvalidInput(message) => InvokeError::InvalidInput(message),
            HandlerError::Failed(message) => InvokeError::HandlerFailed(message),
        }
    }
}

/// A mistake in how the bridge is set up, found while the application
/// starts.
#[derive(Debug, Clone, PartialEq, Eq)]
pub enum ConfigError {
    /// A command is already registered under the name, which is given here.
    DuplicateCommand(String),
}

/// A [`ConfigError`] with its text as a character sequence.
pub enum ConfigErrorView {
    DuplicateCommand(Seq<char>),
}

impl View for ConfigError {
    type V = ConfigErrorView;

    open spec fn view(&self) -> ConfigErrorView {
        match self {
            ConfigError::DuplicateCommand(name) => ConfigErrorView::DuplicateCommand(name@),
        }
    }
}

/// A command of the bridge: its name, the input it declares, and the handler
/// that answers.
#[derive(Debug, Clone, PartialEq, Eq)]
pub struct BridgeCommand {
    name: String,
    schema: InputSchema,
    handler: Handler,
}

/// A [`BridgeCommand`] by the views of what it holds.
pub struct BridgeCommandView {
    pub name: Seq<char>,
    pub schema: Seq<(Seq<char>, ValueKind)>,
    pub handler: Handler,
}

impl View for BridgeCommand {
    type V = BridgeCommandView;

    closed spec fn view(&self) -> BridgeCommandView {
        BridgeCommandView { name: self.name@, schema: self.schema@, handler: self.handler }
    }
}

/// The command that answers to `name` with `handler`: it declares the input
/// that the handler declares.
pub open spec fn command_spec(name: Seq<char>, handler: Handler) -> BridgeCommandView {
    BridgeCommandView { name, schema: schema_of(handler), handler }
}

impl BridgeCommand {
    /// The command that answers to `name` with `handler`.
    pub fn new(name: &str, handler: Handler) -> (command: BridgeCommand)
        ensures
            command@ == command_spec(name@, handler),
    {
        BridgeCommand { name: String::from_str(name), schema: handler.schema(), handler }
    }

    /// The name the command is invoked by.
    pub fn name(&self) -> (name: &str)
        ensures
            name@ == self@.name,
    {
        self.name.as_str()
    }

    /// The input the command declares.
    pub fn schema(&self) -> (schema: &InputSchema)
        ensures
            schema@ == self@.schema,
    {
        &self.schema
    }

    /// The handler that answers.
    pub fn handler(&self) -> (handler: Handler)
        ensures
            handler == self@.handler,
    {
        self.handler
    }
}

/// What the invocation of `name` with `input` returns where `commands` are
/// registered: `UnknownCommand` with the name where none is registered
/// under it, else what the command's handler returns on the input.
pub open spec fn invoke_spec(
    commands: Map<Seq<char>, Handler>,
    name: Seq<char>,
    input: Map<Seq<char>, ValueView>,
) -> Result<ValueView, InvokeErrorView> {
    match commands.get(name) {
        None => Err(InvokeErrorView::UnknownCommand(name)),
        Some(handler) => match run_spec(handler, input) {
            Ok(answer) => Ok(answer),
            Err(error) => Err(from_handler_spec(error)),
        },
    }
}

/// What an invocation returned, by its view.
pub open spec fn replied(result: Result<Value, InvokeError>) -> Result<ValueView, InvokeErrorView> {
    match result {
        Ok(answer) => Ok(answer@),
        Err(error) => Err(error@),
    }
}

/// What a registration returned, by its view.
pub open spec fn registered(result: Result<(), ConfigError>) -> Result<(), ConfigErrorView> {
    match result {
        Ok(()) => Ok(()),
        Err(error) => Err(error@),
    }
}

/// The commands of the host by name. They are registered while the
/// application starts; afterwards the bridge is only read.
#[derive(Debug, Clone, PartialEq, Eq)]
pub struct CommandBridge {
    commands: Directory<Handler>,
}

impl View for CommandBridge {
    type V = Map<Seq<char>, Handler>;

    closed spec fn view(&self) -> Map<Seq<char>, Handler> {
        self.commands@
    }
}

impl CommandBridge {
    /// The bridge without commands.
    pub fn new() -> (bridge: CommandBridge)
        ensures
            bridge@ == Map::<Seq<char>, Handler>::empty(),
    {
        CommandBridge { commands: Directory::new() }
    }

    /// The bridge with the commands of the application: `greet`.
    pub fn standard() -> (bridge: CommandBridge)
        ensures
            bridge@ == Map::<Seq<char>, Handler>::empty().insert("greet"@, Handler::Greet),
    {
        let mut commands = Directory::new();
        commands.put("greet", Handler::Greet);
        CommandBridge { commands }
    }

    /// Registers `handler` under `name`, unless a command has that name
    /// already: then the bridge stays as it is and the name is reported.
    pub fn register(&mut self, name: &str, handler: Handler) -> (result: Result<(), ConfigError>)
        ensures
            old(self)@.contains_key(name@) ==> final(self)@ == old(self)@ && registered(result)
                == Err::<(), ConfigErrorView>(ConfigErrorView::DuplicateCommand(name@)),
            !old(self)@.contains_key(name@) ==> final(self)@ == old(self)@.insert(name@, handler)
                && result is Ok,
    {
        if self.commands.contains(name) {
            Err(ConfigError::DuplicateCommand(String::from_str(name)))
        } else {
            self.commands.put(name, handler);
            Ok(())
        }
    }

    /// The command registered under `name`, if there is one.
    pub fn command(&self, name: &str) -> (command: Option<BridgeCommand>)
        ensures
            match self@.get(name@) {
                Some(handler) => command is Some && command->Some_0@ == command_spec(
                    name@,
                    handler,
                ),
                None => command is None,
            },
    {
        match self.commands.get(name) {
            Some(handler) => Some(BridgeCommand::new(name, *handler)),
            None => None,
        }
    }

    /// Calls the command `name` with `input`. The bridge is only read: an
    /// invocation leaves nothing behind, whatever it returns.
    pub fn invoke(&self, name: &str, input: &Payload) -> (result: Result<Value, InvokeError>)
        ensures
            replied(result) == invoke_spec(self@, name@, input@),
    {
        match self.commands.get(name) {
            None => Err(InvokeError::UnknownCommand(String::from_str(name))),
            Some(handler) => match handler.run(input) {
                Ok(answer) => Ok(answer),
                Err(error) => Err(InvokeError::from_handler(error)),
            },
        }
    }
}

/// What an invocation returns depends on the command invoked and on its
/// input, and on nothing else that is registered: with another command
/// added, replaced or taken away, it returns the same.
pub proof fn lemma_invocations_are_independent(
    commands: Map<Seq<char>, Handler>,
    changed: Map<Seq<char>, Handler>,
    name: Seq<char>,
    input: Map<Seq<char>, ValueView>,
)
    requires
        commands.get(name) == changed.get(name),
    ensures
        invoke_spec(commands, name, input) == invoke_spec(changed, name, input),
{
}

/// Registering a command under a new name changes the answer of no
/// invocation of a command that was there before.
pub proof fn lemma_registration_keeps_answers(
    commands: Map<Seq<char>, Handler>,
    added: Seq<char>,
    handler: Handler,
    name: Seq<char>,
    input: Map<Seq<char>, ValueView>,
)
    requires
        !commands.contains_key(added),
        commands.contains_key(name),
    ensures
        invoke_spec(commands.insert(added, handler), name, input) == invoke_spec(
            commands,
            name,
            input,
        ),
{
}

/// An invocation of a name under which nothing is registered fails with
/// `UnknownCommand` and that name, whatever the input.
pub proof fn lemma_unknown_command_is_reported(
    commands: Map<Seq<char>, Handler>,
    name: Seq<char>,
    input: Map<Seq<char>, ValueView>,
)
    requires
        !commands.contains_key(name),
    ensures
        invoke_spec(commands, name, input) == Err::<ValueView, InvokeErrorView>(
            InvokeErrorView::UnknownCommand(name),
        ),
{
}

} // verus!
