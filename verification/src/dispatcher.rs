//! The command dispatcher: a registry of named commands, built once, and the
//! invocation of a command by name with raw arguments.

use crate::argument::{argument_views, Argument, ArgumentView};
use crate::channel::Channel;
use crate::command::{call_of, decode_call, Call, CallView, Operation};
use crate::download::{download, lemma_simulated_total, simulated_chunks};
use crate::event::{is_completed_session, views, DownloadEvent, DownloadEventView};
use crate::greeting::{greet, greeting_text};
use crate::lifecycle::{lemma_lifecycle_is_completed_session, lifecycle};
use crate::schema::{field_views, Field, FieldView, ValueKind};
use crate::session::SessionIds;
use vstd::prelude::*;
use vstd::string::*;

verus! {

/// A registered command: a name and the operation bound to it.
pub struct Command {
    pub name: String,
    pub operation: Operation,
}

/// The mathematical value of a [`Command`].
pub ghost struct CommandView {
    pub name: Seq<char>,
    pub operation: Operation,
}

impl View for Command {
    type V = CommandView;

    open spec fn view(&self) -> CommandView {
        CommandView { name: self.name@, operation: self.operation }
    }
}

/// Whether a command of that name is among `commands`.
pub open spec fn registered(commands: Seq<CommandView>, name: Seq<char>) -> bool {
    exists|i: int| 0 <= i < commands.len() && (#[trigger] commands[i]).name == name
}

/// Whether no two of `commands` share a name.
pub open spec fn names_unique(commands: Seq<CommandView>) -> bool {
    forall|i: int, j: int|
        0 <= i < j < commands.len() ==> (#[trigger] commands[i]).name != (
        #[trigger] commands[j]).name
}

/// The operation bound to `name`, if a command of that name is among
/// `commands`.
pub open spec fn resolve(commands: Seq<CommandView>, name: Seq<char>) -> Option<Operation> {
    if registered(commands, name) {
        let i = choose|i: int| 0 <= i < commands.len() && (#[trigger] commands[i]).name == name;
        Some(commands[i].operation)
    } else {
        None
    }
}

/// Where no two commands share a name, each name resolves to the operation
/// that was registered under it.
pub proof fn lemma_registered_name_resolves(commands: Seq<CommandView>, i: int)
    requires
        names_unique(commands),
        0 <= i < commands.len(),
    ensures
        resolve(commands, commands[i].name) == Some(commands[i].operation),
{
    let name = commands[i].name;
    assert(registered(commands, name));
    let k = choose|k: int| 0 <= k < commands.len() && (#[trigger] commands[k]).name == name;
    if k < i {
        assert(commands[k].name != commands[i].name);
    } else if i < k {
        assert(commands[i].name != commands[k].name);
    }
}

/// The failure to register a command: its name is taken.
#[derive(Debug, Clone, Copy, PartialEq, Eq)]
pub struct DuplicateCommand;

/// Why a handler failed.
#[derive(Debug, Clone, Copy, PartialEq, Eq, Structural)]
pub enum HandlerFailure {
    /// The subscriber was gone when the handler sent an event.
    ChannelClosed,
    /// No session identifier was left for the invocation.
    SessionIdsExhausted,
}

/// The failure of an invocation. Each is an ordinary result: none of them
/// takes the dispatcher down.
#[derive(Debug, Clone, Copy, PartialEq, Eq, Structural)]
pub enum DispatchError {
    /// No command of that name is registered.
    NotFound,
    /// The raw arguments do not decode against what the command declares: a
    /// parameter is missing or of another type, or a streaming command was
    /// invoked without a channel.
    ArgumentDecodeError,
    /// The handler ran and failed.
    InvocationError(HandlerFailure),
}

/// What a successful invocation returns.
#[derive(Debug, PartialEq, Eq)]
pub enum Reply {
    /// A text result.
    Text(String),
    /// Nothing: the result, if any, went over the channel.
    Unit,
}

/// The mathematical value of a [`Reply`].
pub ghost enum ReplyView {
    Text(Seq<char>),
    Unit,
}

impl View for Reply {
    type V = ReplyView;

    open spec fn view(&self) -> ReplyView {
        match self {
            Reply::Text(text) => ReplyView::Text(text@),
            Reply::Unit => ReplyView::Unit,
        }
    }
}

/// The registry of commands. It is filled before the first invocation and
/// only read afterwards; no two commands in it share a name.
pub struct Dispatcher {
    commands: Vec<Command>,
}

impl View for Dispatcher {
    type V = Seq<CommandView>;

    closed spec fn view(&self) -> Seq<CommandView> {
        self.commands@.map_values(|c: Command| c@)
    }
}

impl Dispatcher {
    #[verifier::type_invariant]
    spec fn inv(&self) -> bool {
        names_unique(self@)
    }

    /// A registry without commands.
    pub fn new() -> (dispatcher: Self)
        ensures
            dispatcher@ == Seq::<CommandView>::empty(),
    {
        let dispatcher = Dispatcher { commands: Vec::new() };
        proof {
            assert(dispatcher@ =~= Seq::<CommandView>::empty());
        }
        dispatcher
    }

    /// The number of registered commands.
    pub fn len(&self) -> (n: usize)
        ensures
            n == self@.len(),
            names_unique(self@),
    {
        proof {
            use_type_invariant(self);
        }
        self.commands.len()
    }

    /// The operation bound to `name`, if a command of that name is registered.
    pub fn lookup(&self, name: &str) -> (operation: Option<Operation>)
        ensures
            operation == resolve(self@, name@),
            names_unique(self@),
    {
        proof {
            use_type_invariant(self);
        }
        let wanted = String::from_str(name);
        let mut i: usize = 0;
        while i < self.commands.len()
            invariant
                0 <= i <= self.commands.len(),
                wanted@ == name@,
                names_unique(self@),
                forall|j: int| 0 <= j < i ==> (#[trigger] self@[j]).name != name@,
            decreases self.commands.len() - i,
        {
            if self.commands[i].name == wanted {
                proof {
                    assert(self@[i as int].name == name@);
                }
                return Some(self.commands[i].operation);
            }
            i += 1;
        }
        None
    }

    /// Binds `name` to `operation`. Fails with [`DuplicateCommand`], and
    /// leaves the registry as it was, exactly when the name is taken;
    /// otherwise the command becomes the last of the registry.
    pub fn register(&mut self, name: String, operation: Operation) -> (outcome: Result<
        (),
        DuplicateCommand,
    >)
        ensures
            names_unique(final(self)@),
            registered(old(self)@, name@) ==> outcome is Err && final(self)@ == old(self)@,
            !registered(old(self)@, name@) ==> outcome is Ok && final(self)@ == old(self)@.push(
                CommandView { name: name@, operation },
            ),
    {
        match self.lookup(name.as_str()) {
            Some(_) => Err(DuplicateCommand),
            None => {
                let ghost added = CommandView { name: name@, operation };
                // The list is taken out, extended and put back, so that the
                // registry holds a list of unique names at every moment.
                let mut commands: Vec<Command> = Vec::new();
                proof {
                    assert(commands@.map_values(|c: Command| c@) =~= Seq::<CommandView>::empty());
                }
                core::mem::swap(&mut self.commands, &mut commands);
                commands.push(Command { name, operation });
                proof {
                    assert(commands@.map_values(|c: Command| c@) =~= old(self)@.push(added));
                }
                core::mem::swap(&mut self.commands, &mut commands);
                Ok(())
            },
        }
    }
}

/// What the dispatcher decides for an invocation before any handler runs:
/// `NotFound` for a name that is not registered, `ArgumentDecodeError` for
/// arguments that do not decode against the command's parameters, else the
/// typed call.
pub open spec fn planned(
    commands: Seq<CommandView>,
    name: Seq<char>,
    arguments: Seq<ArgumentView>,
) -> Result<CallView, DispatchError> {
    match resolve(commands, name) {
        None => Err(DispatchError::NotFound),
        Some(operation) => match call_of(operation, arguments) {
            None => Err(DispatchError::ArgumentDecodeError),
            Some(call) => Ok(call),
        },
    }
}

impl Dispatcher {
    /// The registry of the built-in commands: `greet` and `download`.
    pub fn standard() -> (dispatcher: Self)
        ensures
            dispatcher@ == seq![
                CommandView { name: "greet"@, operation: Operation::Greet },
                CommandView { name: "download"@, operation: Operation::Download },
            ],
    {
        let mut dispatcher = Dispatcher::new();
        let _ = dispatcher.register(String::from_str("greet"), Operation::Greet);
        proof {
            reveal_strlit("greet");
            reveal_strlit("download");
            assert("greet"@.len() != "download"@.len());
        }
        let _ = dispatcher.register(String::from_str("download"), Operation::Download);
        proof {
            assert(dispatcher@ =~= seq![
                CommandView { name: "greet"@, operation: Operation::Greet },
                CommandView { name: "download"@, operation: Operation::Download },
            ]);
        }
        dispatcher
    }

    /// Decides what an invocation calls, without running anything: looks the
    /// name up and decodes the raw arguments against the parameters that the
    /// command declares.
    pub fn plan(&self, name: &str, raw_arguments: &Vec<Argument>) -> (outcome: Result<
        Call,
        DispatchError,
    >)
        ensures
            match outcome {
                Ok(call) => planned(self@, name@, argument_views(raw_arguments@)) == Ok::<
                    CallView,
                    DispatchError,
                >(call@),
                Err(error) => planned(self@, name@, argument_views(raw_arguments@)) == Err::<
                    CallView,
                    DispatchError,
                >(error),
            },
    {
        match self.lookup(name) {
            None => Err(DispatchError::NotFound),
            Some(operation) => match decode_call(operation, raw_arguments) {
                Ok(call) => Ok(call),
                Err(_) => Err(DispatchError::ArgumentDecodeError),
            },
        }
    }
}

/// What an invocation does, as far as anyone outside can tell: what it
/// returns, which events it appends to the channel, and how many session
/// identifiers it takes.
pub ghost struct Effect {
    pub outcome: Result<ReplyView, DispatchError>,
    pub appended: Seq<DownloadEventView>,
    pub ids_taken: nat,
}

/// An invocation that fails before it touches anything.
pub open spec fn rejected(error: DispatchError) -> Effect {
    Effect { outcome: Err(error), appended: Seq::empty(), ids_taken: 0 }
}

/// What the handler of `call` does. `channel` is `None` when the invocation
/// came without a channel, else whether the channel is closed; `next_id` is
/// the session identifier that is next in line, and `exhausted` whether none
/// is left.
///
/// A greeting is answered with its text; it sends no event and takes no
/// identifier. A download without a channel is rejected as undecodable. With
/// a channel it takes the next identifier and appends its whole lifecycle; if
/// no identifier is left, or the channel is closed, it appends nothing and
/// fails with `InvocationError`.
pub open spec fn effect_of(
    call: CallView,
    channel: Option<bool>,
    next_id: u64,
    exhausted: bool,
) -> Effect {
    match call {
        CallView::Greet { name } => Effect {
            outcome: Ok(ReplyView::Text(greeting_text(name))),
            appended: Seq::empty(),
            ids_taken: 0,
        },
        CallView::Download { url } => match channel {
            None => rejected(DispatchError::ArgumentDecodeError),
            Some(closed) => if exhausted {
                rejected(DispatchError::InvocationError(HandlerFailure::SessionIdsExhausted))
            } else if closed {
                Effect {
                    outcome: Err(DispatchError::InvocationError(HandlerFailure::ChannelClosed)),
                    appended: Seq::empty(),
                    ids_taken: 1,
                }
            } else {
                Effect {
                    outcome: Ok(ReplyView::Unit),
                    appended: lifecycle(url, next_id, simulated_chunks()),
                    ids_taken: 1,
                }
            },
        },
    }
}

/// What an invocation by name does: nothing but the error where the
/// dispatcher rejects it, else what the handler of the decoded call does.
pub open spec fn invocation_effect(
    commands: Seq<CommandView>,
    name: Seq<char>,
    arguments: Seq<ArgumentView>,
    channel: Option<bool>,
    next_id: u64,
    exhausted: bool,
) -> Effect {
    match planned(commands, name, arguments) {
        Err(error) => rejected(error),
        Ok(call) => effect_of(call, channel, next_id, exhausted),
    }
}

/// Invoking a name that is not registered does nothing but fail with
/// `NotFound`: no event is appended and no session identifier is taken,
/// whatever the arguments, the channel and the identifiers are.
pub proof fn lemma_unregistered_name_is_not_found(
    commands: Seq<CommandView>,
    name: Seq<char>,
    arguments: Seq<ArgumentView>,
    channel: Option<bool>,
    next_id: u64,
    exhausted: bool,
)
    requires
        !registered(commands, name),
    ensures
        invocation_effect(commands, name, arguments, channel, next_id, exhausted) == rejected(
            DispatchError::NotFound,
        ),
{
}

/// An invocation appends either nothing or the stream of one completed
/// session under the identifier that was next in line; it appends nothing
/// whenever it fails, and it takes an identifier whenever it appends.
pub proof fn lemma_invocation_appends_a_completed_session_or_nothing(
    commands: Seq<CommandView>,
    name: Seq<char>,
    arguments: Seq<ArgumentView>,
    channel: Option<bool>,
    next_id: u64,
    exhausted: bool,
)
    ensures
        ({
            let effect = invocation_effect(commands, name, arguments, channel, next_id, exhausted);
            &&& effect.ids_taken <= 1
            &&& effect.outcome is Err ==> effect.appended.len() == 0
            &&& effect.appended.len() > 0 ==> {
                &&& effect.ids_taken == 1
                &&& is_completed_session(effect.appended)
                &&& effect.appended[0].session_id() == next_id
            }
        }),
{
    let effect = invocation_effect(commands, name, arguments, channel, next_id, exhausted);
    if effect.appended.len() > 0 {
        let url = planned(commands, name, arguments)->Ok_0->url;
        lemma_simulated_total();
        lemma_lifecycle_is_completed_session(url, next_id, simulated_chunks());
    }
}

/// The mathematical value of the result of an invocation.
pub open spec fn outcome_view(outcome: Result<Reply, DispatchError>) -> Result<
    ReplyView,
    DispatchError,
> {
    match outcome {
        Ok(reply) => Ok(reply@),
        Err(error) => Err(error),
    }
}

/// Runs the handler of a decoded call; [`effect_of`] says what it does.
///
/// The channel, if there is one, keeps what was sent before, gains exactly
/// the events of the effect, and is neither closed nor read. A failure of the
/// handler comes back as a value.
pub fn perform(call: Call, channel: Option<&mut Channel<DownloadEvent>>, ids: &mut SessionIds) -> (outcome:
    Result<Reply, DispatchError>)
    ensures
        ({
            let effect = effect_of(
                call@,
                match channel {
                    Some(c) => Some(c.closed()),
                    None => None,
                },
                old(ids).next_id(),
                old(ids).exhausted(),
            );
            &&& outcome_view(outcome) == effect.outcome
            &&& final(ids).first_id() == old(ids).first_id()
            &&& final(ids).next_id() == old(ids).next_id() + effect.ids_taken
            &&& match channel {
                Some(c) => {
                    &&& views(final(c).sent()) == views(c.sent()) + effect.appended
                    &&& final(c).received() == c.received()
                    &&& final(c).closed() == c.closed()
                },
                None => true,
            }
        }),
{
    match call {
        Call::Greet { name } => {
            proof {
                if let Some(c) = channel {
                    assert(views(c.sent()) + Seq::<DownloadEventView>::empty() =~= views(c.sent()));
                }
            }
            Ok(Reply::Text(greet(name.as_str())))
        },
        Call::Download { url } => match channel {
            None => Err(DispatchError::ArgumentDecodeError),
            Some(on_event) => {
                proof {
                    assert(views(on_event.sent()) + Seq::<DownloadEventView>::empty() =~= views(
                        on_event.sent(),
                    ));
                }
                match ids.allocate() {
                    None => Err(
                        DispatchError::InvocationError(HandlerFailure::SessionIdsExhausted),
                    ),
                    Some(session_id) => match download(url, session_id, on_event) {
                        Ok(()) => Ok(Reply::Unit),
                        Err(_) => Err(
                            DispatchError::InvocationError(HandlerFailure::ChannelClosed),
                        ),
                    },
                }
            },
        },
    }
}

impl Dispatcher {
    /// Invokes the command registered under `name` with the raw arguments and,
    /// for a command that streams, the invocation's channel;
    /// [`invocation_effect`] says what that does.
    ///
    /// A name that is not registered gives `NotFound`, arguments that do not
    /// decode give `ArgumentDecodeError`; in both cases no handler runs, no
    /// event is sent and no session identifier is taken. Otherwise the handler
    /// runs, and what it reports as a failure comes back as `InvocationError`.
    /// The registry itself is only read.
    pub fn invoke(
        &self,
        name: &str,
        raw_arguments: &Vec<Argument>,
        channel: Option<&mut Channel<DownloadEvent>>,
        ids: &mut SessionIds,
    ) -> (outcome: Result<Reply, DispatchError>)
        ensures
            ({
                let effect = invocation_effect(
                    self@,
                    name@,
                    argument_views(raw_arguments@),
                    match channel {
                        Some(c) => Some(c.closed()),
                        None => None,
                    },
                    old(ids).next_id(),
                    old(ids).exhausted(),
                );
                &&& outcome_view(outcome) == effect.outcome
                &&& final(ids).first_id() == old(ids).first_id()
                &&& final(ids).next_id() == old(ids).next_id() + effect.ids_taken
                &&& match channel {
                    Some(c) => {
                        &&& views(final(c).sent()) == views(c.sent()) + effect.appended
                        &&& final(c).received() == c.received()
                        &&& final(c).closed() == c.closed()
                    },
                    None => true,
                }
            }),
    {
        match self.plan(name, raw_arguments) {
            Err(error) => {
                proof {
                    if let Some(c) = channel {
                        assert(views(c.sent()) + Seq::<DownloadEventView>::empty() =~= views(
                            c.sent(),
                        ));
                    }
                }
                Err(error)
            },
            Ok(call) => perform(call, channel, ids),
        }
    }
}

/// What a registered command declares to its callers: its name, its
/// parameters, whether its result comes over a channel, and the type of the
/// value it returns, if it returns one.
#[derive(Debug, PartialEq, Eq)]
pub struct CommandSchema {
    pub name: String,
    pub parameters: Vec<Field>,
    pub streams: bool,
    pub result: Option<ValueKind>,
}

/// The mathematical value of a [`CommandSchema`].
pub ghost struct CommandSchemaView {
    pub name: Seq<char>,
    pub parameters: Seq<FieldView>,
    pub streams: bool,
    pub result: Option<ValueKind>,
}

impl View for CommandSchema {
    type V = CommandSchemaView;

    open spec fn view(&self) -> CommandSchemaView {
        CommandSchemaView {
            name: self.name@,
            parameters: field_views(self.parameters@),
            streams: self.streams,
            result: self.result,
        }
    }
}

/// What a command declares: its own name and what its operation declares.
pub open spec fn schema_of(command: CommandView) -> CommandSchemaView {
    CommandSchemaView {
        name: command.name,
        parameters: command.operation.parameter_schema(),
        streams: command.operation.streams(),
        result: command.operation.result_kind(),
    }
}

impl Dispatcher {
    /// What the registered commands declare, in the order of registration.
    /// It is read off the registry alone: no handler runs.
    pub fn schema(&self) -> (schema: Vec<CommandSchema>)
        ensures
            schema@.len() == self@.len(),
            forall|i: int| 0 <= i < self@.len() ==> (#[trigger] schema@[i])@ == schema_of(self@[i]),
    {
        let mut schema: Vec<CommandSchema> = Vec::new();
        let mut i: usize = 0;
        while i < self.commands.len()
            invariant
                0 <= i <= self.commands.len(),
                schema@.len() == i,
                forall|j: int| 0 <= j < i ==> (#[trigger] schema@[j])@ == schema_of(self@[j]),
            decreases self.commands.len() - i,
        {
            let command = &self.commands[i];
            assert(self@[i as int] == command@);
            schema.push(
                CommandSchema {
                    name: command.name.clone(),
                    parameters: command.operation.parameters(),
                    streams: command.operation.is_streaming(),
                    result: command.operation.result(),
                },
            );
            i += 1;
        }
        schema
    }
}

} // verus!
