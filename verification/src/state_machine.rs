//! The state machine that supervises the HTTP server.
//!
//! The machine decides; its driver acts. The driver asks [`StateMachine::command`]
//! what to do, does it (takes the next event from the stream, calls a factory,
//! stops the server), and reports what came of it to [`StateMachine::step`],
//! which gives the next machine and, where there is one, the [`State`] to
//! broadcast. An input that the machine did not ask for is dropped and changes
//! nothing.

use crate::configuration::{Configuration, ListenAddr, Schema};
use crate::error::FederatedServerError;
use crate::event::{Event, State};
use vstd::prelude::*;

verus! {

/// What the driver is to do next.
#[derive(Clone, Copy, Debug, PartialEq, Eq, Structural)]
pub enum Command {
    /// Take the next event from the event stream.
    AwaitEvent,
    /// Ask the router factory for a pipeline for the machine's
    /// [`candidate`](StateMachine::candidate). With `reload`, a server is
    /// running and its pipeline is at hand.
    CreatePipeline { reload: bool },
    /// Ask the server factory for a server that listens on `listen` and
    /// serves the pipeline just created.
    StartServer { listen: ListenAddr },
    /// Put the pipeline just created into the running server.
    SwapPipeline,
    /// Stop the running server gracefully.
    StopServer,
    /// Nothing more: the lifecycle has ended.
    Exit,
}

/// What the driver reports to the machine.
#[derive(Debug, PartialEq, Eq)]
pub enum Input {
    /// The next event of the stream.
    Event(Event),
    /// The router factory is done: it made the pipeline, or failed with the
    /// given text.
    PipelineCreated(Result<(), String>),
    /// The server factory is done: a server is bound to the given address, or
    /// it failed with the given text.
    ServerStarted(Result<ListenAddr, String>),
    /// The running server has taken the new pipeline.
    PipelineSwapped,
    /// The server was asked to stop; `clean` says whether it did.
    ServerStopped { clean: bool },
}

/// What a running server serves, and where.
#[derive(Debug, PartialEq, Eq)]
pub struct Serving {
    pub configuration: Configuration,
    pub schema: Schema,
    /// The address the server is bound to.
    pub address: ListenAddr,
}

/// The update that a reload is about.
#[derive(Debug, PartialEq, Eq)]
pub enum Change {
    Configuration(Configuration),
    Schema(Schema),
}

/// Where the lifecycle stands.
#[derive(Debug, PartialEq, Eq)]
pub enum Stage {
    /// Waiting for the first configuration and the first schema.
    Startup { configuration: Option<Configuration>, schema: Option<Schema> },
    /// Both have arrived and the first pipeline is being created.
    CreatingPipeline { configuration: Configuration, schema: Schema },
    /// The first pipeline is there and the server is being started.
    StartingServer { configuration: Configuration, schema: Schema },
    /// The server is running.
    Running(Serving),
    /// An update arrived and a new pipeline is being created; the server
    /// keeps serving the old one.
    ReloadingPipeline { serving: Serving, change: Change },
    /// The new pipeline is being put into the running server.
    SwappingPipeline { serving: Serving, change: Change },
    /// The listen address changed: the old server is being stopped.
    Rebinding { serving: Serving, configuration: Configuration },
    /// The old server is gone and one for the new address is being started.
    Restarting { configuration: Configuration, schema: Schema },
    /// Shutdown was asked for and the server is being stopped.
    Stopping(Serving),
    /// The server has stopped.
    Stopped,
    /// The server has errored.
    Errored(FederatedServerError),
}

/// The state machine: its stage, and which of the two update streams have
/// ended.
#[derive(Debug, PartialEq, Eq)]
pub struct StateMachine {
    pub stage: Stage,
    /// Whether `NoMoreConfiguration` was seen.
    pub configuration_ended: bool,
    /// Whether `NoMoreSchema` was seen.
    pub schema_ended: bool,
}

impl Serving {
    /// The state that is published of it.
    pub open spec fn state(self) -> State {
        State::Running { address: self.address, schema_hash: self.schema.hash }
    }

    /// What is served once `change` is applied, on `address`.
    pub open spec fn with(self, change: Change, address: ListenAddr) -> Serving {
        match change {
            Change::Configuration(configuration) => Serving {
                configuration,
                schema: self.schema,
                address,
            },
            Change::Schema(schema) => Serving { configuration: self.configuration, schema, address },
        }
    }
}

impl Change {
    /// Where the server listens once the change is applied to `serving`.
    pub open spec fn listen(self, serving: Serving) -> ListenAddr {
        match self {
            Change::Configuration(configuration) => configuration.listen,
            Change::Schema(_) => serving.configuration.listen,
        }
    }
}

impl Stage {
    /// The command that the stage waits on.
    pub open spec fn command(self) -> Command {
        match self {
            Stage::Startup { .. } => Command::AwaitEvent,
            Stage::CreatingPipeline { .. } => Command::CreatePipeline { reload: false },
            Stage::StartingServer { configuration, .. } => Command::StartServer {
                listen: configuration.listen,
            },
            Stage::Running(_) => Command::AwaitEvent,
            Stage::ReloadingPipeline { .. } => Command::CreatePipeline { reload: true },
            Stage::SwappingPipeline { .. } => Command::SwapPipeline,
            Stage::Rebinding { .. } => Command::StopServer,
            Stage::Restarting { configuration, .. } => Command::StartServer {
                listen: configuration.listen,
            },
            Stage::Stopping(_) => Command::StopServer,
            Stage::Stopped => Command::Exit,
            Stage::Errored(_) => Command::Exit,
        }
    }

    /// The address of the server that the machine holds, if it holds one.
    pub open spec fn server(self) -> Option<ListenAddr> {
        match self {
            Stage::Running(serving) => Some(serving.address),
            Stage::ReloadingPipeline { serving, .. } => Some(serving.address),
            Stage::SwappingPipeline { serving, .. } => Some(serving.address),
            Stage::Rebinding { serving, .. } => Some(serving.address),
            Stage::Stopping(serving) => Some(serving.address),
            _ => None,
        }
    }

    /// Whether the lifecycle has ended.
    pub open spec fn is_terminal(self) -> bool {
        self is Stopped || self is Errored
    }

    /// The stage after `input`, and the state to broadcast if there is one.
    ///
    /// While starting up, updates are remembered, and the first pipeline is
    /// asked for once a configuration and a schema are there; a stream that
    /// ends before it gave anything is an error, and shutdown stops at once.
    /// Any failure to start is an error. While running, an update asks for a
    /// new pipeline that replaces the old one only if it can be made: by a
    /// swap where the listen address stays, else by stopping the server and
    /// starting one on the new address. Shutdown stops the server. Nothing
    /// happens after the lifecycle has ended, and an input that the stage
    /// does not wait on is dropped.
    pub open spec fn next(self, input: Input) -> (Stage, Option<State>) {
        match (self, input) {
            (Stage::Startup { configuration: _, schema }, Input::Event(Event::UpdateConfiguration(update))) => {
                match schema {
                    Some(schema) => (Stage::CreatingPipeline { configuration: update, schema }, None),
                    None => (Stage::Startup { configuration: Some(update), schema: None }, None),
                }
            },
            (Stage::Startup { configuration, schema: _ }, Input::Event(Event::UpdateSchema(update))) => {
                match configuration {
                    Some(configuration) => (Stage::CreatingPipeline { configuration, schema: update }, None),
                    None => (Stage::Startup { configuration: None, schema: Some(update) }, None),
                }
            },
            (Stage::Startup { configuration: None, .. }, Input::Event(Event::NoMoreConfiguration)) => (
                Stage::Errored(FederatedServerError::NoConfiguration),
                Some(State::Errored),
            ),
            (Stage::Startup { schema: None, .. }, Input::Event(Event::NoMoreSchema)) => (
                Stage::Errored(FederatedServerError::NoSchema),
                Some(State::Errored),
            ),
            (Stage::Startup { .. }, Input::Event(Event::Shutdown)) => (Stage::Stopped, Some(State::Stopped)),
            (Stage::CreatingPipeline { configuration, schema }, Input::PipelineCreated(outcome)) => {
                match outcome {
                    Ok(_) => (Stage::StartingServer { configuration, schema }, None),
                    Err(detail) => (
                        Stage::Errored(FederatedServerError::ServiceCreationError(detail)),
                        Some(State::Errored),
                    ),
                }
            },
            (Stage::StartingServer { configuration, schema }, Input::ServerStarted(outcome)) => {
                match outcome {
                    Ok(address) => {
                        let serving = Serving { configuration, schema, address };
                        (Stage::Running(serving), Some(serving.state()))
                    },
                    Err(detail) => (
                        Stage::Errored(FederatedServerError::ServerCreationError(detail)),
                        Some(State::Errored),
                    ),
                }
            },
            (Stage::Running(serving), Input::Event(Event::UpdateConfiguration(update))) => (
                Stage::ReloadingPipeline { serving, change: Change::Configuration(update) },
                None,
            ),
            (Stage::Running(serving), Input::Event(Event::UpdateSchema(update))) => (
                Stage::ReloadingPipeline { serving, change: Change::Schema(update) },
                None,
            ),
            (Stage::Running(serving), Input::Event(Event::Shutdown)) => (Stage::Stopping(serving), None),
            (Stage::ReloadingPipeline { serving, change }, Input::PipelineCreated(outcome)) => {
                match outcome {
                    Ok(_) => match change {
                        Change::Configuration(configuration) => if configuration.listen
                            == serving.configuration.listen {
                            (Stage::SwappingPipeline { serving, change }, None)
                        } else {
                            (Stage::Rebinding { serving, configuration }, None)
                        },
                        Change::Schema(_) => (Stage::SwappingPipeline { serving, change }, None),
                    },
                    Err(_) => (Stage::Running(serving), None),
                }
            },
            (Stage::SwappingPipeline { serving, change }, Input::PipelineSwapped) => {
                let swapped = serving.with(change, serving.address);
                (Stage::Running(swapped), Some(swapped.state()))
            },
            (Stage::Rebinding { serving, configuration }, Input::ServerStopped { clean }) => {
                if clean {
                    (Stage::Restarting { configuration, schema: serving.schema }, None)
                } else {
                    (
                        Stage::Errored(FederatedServerError::HttpServerLifecycleError),
                        Some(State::Errored),
                    )
                }
            },
            (Stage::Restarting { configuration, schema }, Input::ServerStarted(outcome)) => {
                match outcome {
                    Ok(address) => {
                        let serving = Serving { configuration, schema, address };
                        (Stage::Running(serving), Some(serving.state()))
                    },
                    Err(detail) => (
                        Stage::Errored(FederatedServerError::ServerCreationError(detail)),
                        Some(State::Errored),
                    ),
                }
            },
            (Stage::Stopping(_), Input::ServerStopped { clean }) => {
                if clean {
                    (Stage::Stopped, Some(State::Stopped))
                } else {
                    (
                        Stage::Errored(FederatedServerError::HttpServerLifecycleError),
                        Some(State::Errored),
                    )
                }
            },
            (stage, _) => (stage, None),
        }
    }
}

impl Serving {
    /// The state that is published of it.
    pub fn to_state(&self) -> (state: State)
        ensures
            state == self.state(),
    {
        State::Running { address: self.address, schema_hash: self.schema.hash.clone() }
    }

    /// Applies `change` and binds to `address`.
    pub fn apply(self, change: Change, address: ListenAddr) -> (serving: Serving)
        ensures
            serving == self.with(change, address),
    {
        match change {
            Change::Configuration(configuration) => Serving {
                configuration,
                schema: self.schema,
                address,
            },
            Change::Schema(schema) => Serving { configuration: self.configuration, schema, address },
        }
    }
}

impl Stage {
    /// The command that the stage waits on.
    pub fn to_command(&self) -> (command: Command)
        ensures
            command == self.command(),
    {
        match self {
            Stage::Startup { .. } => Command::AwaitEvent,
            Stage::CreatingPipeline { .. } => Command::CreatePipeline { reload: false },
            Stage::StartingServer { configuration, .. } => Command::StartServer {
                listen: configuration.listen,
            },
            Stage::Running(_) => Command::AwaitEvent,
            Stage::ReloadingPipeline { .. } => Command::CreatePipeline { reload: true },
            Stage::SwappingPipeline { .. } => Command::SwapPipeline,
            Stage::Rebinding { .. } => Command::StopServer,
            Stage::Restarting { configuration, .. } => Command::StartServer {
                listen: configuration.listen,
            },
            Stage::Stopping(_) => Command::StopServer,
            Stage::Stopped => Command::Exit,
            Stage::Errored(_) => Command::Exit,
        }
    }

    /// Takes `input` and gives the stage that follows, with the state to
    /// broadcast if there is one.
    pub fn advance(self, input: Input) -> (after: (Stage, Option<State>))
        ensures
            after == self.next(input),
    {
        match (self, input) {
            (Stage::Startup { configuration: _, schema }, Input::Event(Event::UpdateConfiguration(update))) => {
                match schema {
                    Some(schema) => (Stage::CreatingPipeline { configuration: update, schema }, None),
                    None => (Stage::Startup { configuration: Some(update), schema: None }, None),
                }
            },
            (Stage::Startup { configuration, schema: _ }, Input::Event(Event::UpdateSchema(update))) => {
                match configuration {
                    Some(configuration) => (Stage::CreatingPipeline { configuration, schema: update }, None),
                    None => (Stage::Startup { configuration: None, schema: Some(update) }, None),
                }
            },
            (Stage::Startup { configuration: None, .. }, Input::Event(Event::NoMoreConfiguration)) => (
                Stage::Errored(FederatedServerError::NoConfiguration),
                Some(State::Errored),
            ),
            (Stage::Startup { schema: None, .. }, Input::Event(Event::NoMoreSchema)) => (
                Stage::Errored(FederatedServerError::NoSchema),
                Some(State::Errored),
            ),
            (Stage::Startup { .. }, Input::Event(Event::Shutdown)) => (Stage::Stopped, Some(State::Stopped)),
            (Stage::CreatingPipeline { configuration, schema }, Input::PipelineCreated(outcome)) => {
                match outcome {
                    Ok(_) => (Stage::StartingServer { configuration, schema }, None),
                    Err(detail) => (
                        Stage::Errored(FederatedServerError::ServiceCreationError(detail)),
                        Some(State::Errored),
                    ),
                }
            },
            (Stage::StartingServer { configuration, schema }, Input::ServerStarted(outcome)) => {
                match outcome {
                    Ok(address) => {
                        let serving = Serving { configuration, schema, address };
                        let state = serving.to_state();
                        (Stage::Running(serving), Some(state))
                    },
                    Err(detail) => (
                        Stage::Errored(FederatedServerError::ServerCreationError(detail)),
                        Some(State::Errored),
                    ),
                }
            },
            (Stage::Running(serving), Input::Event(Event::UpdateConfiguration(update))) => (
                Stage::ReloadingPipeline { serving, change: Change::Configuration(update) },
                None,
            ),
            (Stage::Running(serving), Input::Event(Event::UpdateSchema(update))) => (
                Stage::ReloadingPipeline { serving, change: Change::Schema(update) },
                None,
            ),
            (Stage::Running(serving), Input::Event(Event::Shutdown)) => (Stage::Stopping(serving), None),
            (Stage::ReloadingPipeline { serving, change }, Input::PipelineCreated(outcome)) => {
                match outcome {
                    Ok(_) => match change {
                        Change::Configuration(configuration) => if configuration.listen
                            == serving.configuration.listen {
                            (
                                Stage::SwappingPipeline {
                                    serving,
                                    change: Change::Configuration(configuration),
                                },
                                None,
                            )
                        } else {
                            (Stage::Rebinding { serving, configuration }, None)
                        },
                        Change::Schema(schema) => (
                            Stage::SwappingPipeline { serving, change: Change::Schema(schema) },
                            None,
                        ),
                    },
                    Err(_) => (Stage::Running(serving), None),
                }
            },
            (Stage::SwappingPipeline { serving, change }, Input::PipelineSwapped) => {
                let address = serving.address;
                let swapped = serving.apply(change, address);
                let state = swapped.to_state();
                (Stage::Running(swapped), Some(state))
            },
            (Stage::Rebinding { serving, configuration }, Input::ServerStopped { clean }) => {
                if clean {
                    (Stage::Restarting { configuration, schema: serving.schema }, None)
                } else {
                    (
                        Stage::Errored(FederatedServerError::HttpServerLifecycleError),
                        Some(State::Errored),
                    )
                }
            },
            (Stage::Restarting { configuration, schema }, Input::ServerStarted(outcome)) => {
                match outcome {
                    Ok(address) => {
                        let serving = Serving { configuration, schema, address };
                        let state = serving.to_state();
                        (Stage::Running(serving), Some(state))
                    },
                    Err(detail) => (
                        Stage::Errored(FederatedServerError::ServerCreationError(detail)),
                        Some(State::Errored),
                    ),
                }
            },
            (Stage::Stopping(_), Input::ServerStopped { clean }) => {
                if clean {
                    (Stage::Stopped, Some(State::Stopped))
                } else {
                    (
                        Stage::Errored(FederatedServerError::HttpServerLifecycleError),
                        Some(State::Errored),
                    )
                }
            },
            (stage, _) => (stage, None),
        }
    }
}

impl Stage {
    /// The configuration and the schema that the stage is about to serve:
    /// those a pipeline is being created or a server started for.
    pub open spec fn candidate(self) -> Option<(Configuration, Schema)> {
        match self {
            Stage::CreatingPipeline { configuration, schema } => Some((configuration, schema)),
            Stage::StartingServer { configuration, schema } => Some((configuration, schema)),
            Stage::ReloadingPipeline { serving, change } => Some(
                (serving.with(change, serving.address).configuration, serving.with(change, serving.address).schema),
            ),
            Stage::SwappingPipeline { serving, change } => Some(
                (serving.with(change, serving.address).configuration, serving.with(change, serving.address).schema),
            ),
            Stage::Rebinding { serving, configuration } => Some((configuration, serving.schema)),
            Stage::Restarting { configuration, schema } => Some((configuration, schema)),
            _ => None,
        }
    }
}

impl StateMachine {
    /// The machine after `input`, and the state to broadcast if there is one.
    /// The stage moves as [`Stage::next`] says. The end of an update stream is
    /// recorded where the machine was waiting for an event.
    pub open spec fn spec_step(self, input: Input) -> (StateMachine, Option<State>) {
        let taken = self.stage.command() is AwaitEvent;
        (
            StateMachine {
                stage: self.stage.next(input).0,
                configuration_ended: self.configuration_ended || (taken && input == Input::Event(
                    Event::NoMoreConfiguration,
                )),
                schema_ended: self.schema_ended || (taken && input == Input::Event(Event::NoMoreSchema)),
            },
            self.stage.next(input).1,
        )
    }

    /// The machine after all of `inputs`, and the states broadcast on the way,
    /// in order.
    pub open spec fn spec_run(self, inputs: Seq<Input>) -> (StateMachine, Seq<State>)
        decreases inputs.len(),
    {
        if inputs.len() == 0 {
            (self, Seq::empty())
        } else {
            let (before, states) = self.spec_run(inputs.drop_last());
            let (after, state) = before.spec_step(inputs.last());
            (
                after,
                match state {
                    Some(state) => states.push(state),
                    None => states,
                },
            )
        }
    }

    /// The result of a lifecycle that has ended: `Ok` where the server
    /// stopped, the error where it errored.
    pub open spec fn spec_outcome(self) -> Option<Result<(), FederatedServerError>> {
        match self.stage {
            Stage::Stopped => Some(Ok(())),
            Stage::Errored(error) => Some(Err(error)),
            _ => None,
        }
    }

    /// A machine at the start of a lifecycle, and the state to broadcast
    /// first: `Startup`.
    pub fn new() -> (start: (StateMachine, State))
        ensures
            start.0.stage == (Stage::Startup { configuration: None, schema: None }),
            !start.0.configuration_ended,
            !start.0.schema_ended,
            start.1 == State::Startup,
    {
        (
            StateMachine {
                stage: Stage::Startup { configuration: None, schema: None },
                configuration_ended: false,
                schema_ended: false,
            },
            State::Startup,
        )
    }

    /// What the driver is to do next.
    pub fn command(&self) -> (command: Command)
        ensures
            command == self.stage.command(),
    {
        self.stage.to_command()
    }

    /// Whether the lifecycle has ended.
    pub fn is_terminal(&self) -> (terminal: bool)
        ensures
            terminal == self.stage.is_terminal(),
    {
        match &self.stage {
            Stage::Stopped => true,
            Stage::Errored(_) => true,
            _ => false,
        }
    }

    /// The address of the server that the machine holds, if it holds one.
    pub fn server(&self) -> (server: Option<ListenAddr>)
        ensures
            server == self.stage.server(),
    {
        match &self.stage {
            Stage::Running(serving) => Some(serving.address),
            Stage::ReloadingPipeline { serving, .. } => Some(serving.address),
            Stage::SwappingPipeline { serving, .. } => Some(serving.address),
            Stage::Rebinding { serving, .. } => Some(serving.address),
            Stage::Stopping(serving) => Some(serving.address),
            _ => None,
        }
    }

    /// The configuration and the schema that the machine is about to serve,
    /// for the factory that the driver is to call.
    pub fn candidate(&self) -> (candidate: Option<(&Configuration, &Schema)>)
        ensures
            match candidate {
                Some((configuration, schema)) => self.stage.candidate() == Some((*configuration, *schema)),
                None => self.stage.candidate() is None,
            },
    {
        match &self.stage {
            Stage::CreatingPipeline { configuration, schema } => Some((configuration, schema)),
            Stage::StartingServer { configuration, schema } => Some((configuration, schema)),
            Stage::ReloadingPipeline { serving, change } => match change {
                Change::Configuration(configuration) => Some((configuration, &serving.schema)),
                Change::Schema(schema) => Some((&serving.configuration, schema)),
            },
            Stage::SwappingPipeline { serving, change } => match change {
                Change::Configuration(configuration) => Some((configuration, &serving.schema)),
                Change::Schema(schema) => Some((&serving.configuration, schema)),
            },
            Stage::Rebinding { serving, configuration } => Some((configuration, &serving.schema)),
            Stage::Restarting { configuration, schema } => Some((configuration, schema)),
            _ => None,
        }
    }

    /// Takes `input` and gives the machine that follows, with the state to
    /// broadcast if there is one.
    pub fn step(self, input: Input) -> (after: (StateMachine, Option<State>))
        ensures
            after == self.spec_step(input),
    {
        let taken = match self.stage.to_command() {
            Command::AwaitEvent => true,
            _ => false,
        };
        let configuration_ended = self.configuration_ended || (taken && match &input {
            Input::Event(Event::NoMoreConfiguration) => true,
            _ => false,
        });
        let schema_ended = self.schema_ended || (taken && match &input {
            Input::Event(Event::NoMoreSchema) => true,
            _ => false,
        });
        let (stage, state) = self.stage.advance(input);
        (StateMachine { stage, configuration_ended, schema_ended }, state)
    }

    /// Takes `inputs` one after the other and gives the machine that follows,
    /// with the states broadcast on the way.
    pub fn run(self, inputs: Vec<Input>) -> (after: (StateMachine, Vec<State>))
        ensures
            after.0 == self.spec_run(inputs@).0,
            after.1@ == self.spec_run(inputs@).1,
    {
        let mut machine = self;
        let mut states: Vec<State> = Vec::new();
        let ghost all = inputs@;
        for input in it: inputs
            invariant
                it.seq() == all,
                machine == self.spec_run(all.take(it.index())).0,
                states@ == self.spec_run(all.take(it.index())).1,
        {
            proof {
                let next = all.take(it.index() + 1);
                assert(next.drop_last() == all.take(it.index()));
                assert(next.last() == input);
            }
            let (after, state) = machine.step(input);
            machine = after;
            match state {
                Some(state) => {
                    states.push(state);
                },
                None => {},
            }
        }
        proof {
            assert(all.take(all.len() as int) == all);
        }
        (machine, states)
    }

    /// The result of the lifecycle: `None` while it has not ended.
    pub fn outcome(self) -> (outcome: Option<Result<(), FederatedServerError>>)
        ensures
            outcome == self.spec_outcome(),
    {
        match self.stage {
            Stage::Stopped => Some(Ok(())),
            Stage::Errored(error) => Some(Err(error)),
            _ => None,
        }
    }
}

/// One step and the end of the lifecycle: a machine past its end stays as it
/// is and broadcasts nothing; a step that broadcasts `Stopped` or `Errored`
/// ends the lifecycle and no other step does; `Startup` is never broadcast by
/// a step.
pub proof fn lemma_step_and_end(machine: StateMachine, input: Input)
    ensures
        machine.stage.is_terminal() ==> machine.spec_step(input) == (machine, None::<State>),
        !machine.stage.is_terminal() ==> (machine.spec_step(input).0.stage.is_terminal() <==> (
            machine.spec_step(input).1 matches Some(state) && state.spec_is_terminal())),
        !(machine.spec_step(input).1 matches Some(state) && state is Startup),
{
}

/// After `Stopped` or `Errored` no further state is delivered: among the
/// states that any run broadcasts, only the last can be one of the two, and
/// none is `Startup`, so that all before the last are `Running`. The
/// lifecycle has ended exactly if the last state broadcast says so, and a
/// machine past its end broadcasts nothing and stays as it is.
pub proof fn lemma_terminal_state_is_last(machine: StateMachine, inputs: Seq<Input>)
    ensures
        forall|i: int|
            0 <= i < machine.spec_run(inputs).1.len() && (#[trigger] machine.spec_run(
                inputs,
            ).1[i]).spec_is_terminal() ==> i == machine.spec_run(inputs).1.len() - 1,
        forall|i: int|
            0 <= i < machine.spec_run(inputs).1.len() ==> !(#[trigger] machine.spec_run(inputs).1[i] is Startup),
        forall|i: int|
            0 <= i < machine.spec_run(inputs).1.len() - 1 ==> #[trigger] machine.spec_run(inputs).1[i] is Running,
        machine.stage.is_terminal() ==> machine.spec_run(inputs) == (machine, Seq::<State>::empty()),
        !machine.stage.is_terminal() ==> (machine.spec_run(inputs).0.stage.is_terminal() <==> (
            machine.spec_run(inputs).1.len() > 0 && machine.spec_run(inputs).1.last().spec_is_terminal())),
    decreases inputs.len(),
{
    if inputs.len() > 0 {
        lemma_terminal_state_is_last(machine, inputs.drop_last());
        let before = machine.spec_run(inputs.drop_last()).0;
        lemma_step_and_end(before, inputs.last());
    }
}

/// The machine never holds two servers. It holds at most one by its shape; it
/// asks for a server only while it holds none; it takes one on only as the
/// answer to that; and it lets one go only when the server was asked to stop
/// and the answer came.
pub proof fn lemma_one_server_at_a_time(stage: Stage, input: Input)
    ensures
        stage.command() is StartServer ==> stage.server() is None,
        stage.server() is None && stage.next(input).0.server() is Some ==> stage.command() is StartServer
            && input is ServerStarted,
        stage.server() is Some && stage.next(input).0.server() != stage.server() ==> stage.command() is StopServer
            && input is ServerStopped && stage.next(input).0.server() is None,
{
}

/// Shutdown dominates: whatever updates the machine has seen, once it takes
/// `Shutdown` the lifecycle ends, at once where no server runs, and else with
/// the answer to the one request to stop the server.
pub proof fn lemma_shutdown_dominates(machine: StateMachine, clean: bool)
    requires
        machine.stage.command() is AwaitEvent,
    ensures
        ({
            let shut = machine.spec_step(Input::Event(Event::Shutdown)).0;
            if machine.stage.server() is None {
                shut.stage is Stopped
            } else {
                &&& shut.stage.command() is StopServer
                &&& shut.spec_step(Input::ServerStopped { clean }).0.stage.is_terminal()
                &&& clean ==> shut.spec_step(Input::ServerStopped { clean }).0.stage is Stopped
            }
        }),
{
}

/// Reload continuity: a reload whose pipeline cannot be made changes nothing.
/// The machine is running again with what it served before, on the same
/// address, and broadcasts nothing. A reload that keeps the listen address
/// keeps the bound address too.
pub proof fn lemma_reload_continuity(serving: Serving, change: Change, detail: String)
    ensures
        (Stage::ReloadingPipeline { serving, change }).next(Input::PipelineCreated(Err(detail))) == (
            Stage::Running(serving),
            None::<State>,
        ),
        (Stage::SwappingPipeline { serving, change }).next(Input::PipelineSwapped).0.server() == Some(
            serving.address,
        ),
        change.listen(serving) == serving.configuration.listen ==> (Stage::ReloadingPipeline {
            serving,
            change,
        }).next(Input::PipelineCreated(Ok(()))).0 == (Stage::SwappingPipeline { serving, change }),
{
}

/// A source that ends before it gave anything ends the lifecycle: a machine
/// that is starting up and has no configuration errors with `NoConfiguration`
/// at `NoMoreConfiguration`, and one that has no schema errors with `NoSchema`
/// at `NoMoreSchema`.
pub proof fn lemma_empty_source_errors(configuration: Option<Configuration>, schema: Option<Schema>)
    ensures
        (Stage::Startup { configuration: None, schema }).next(Input::Event(Event::NoMoreConfiguration)) == (
            Stage::Errored(FederatedServerError::NoConfiguration),
            Some(State::Errored),
        ),
        (Stage::Startup { configuration, schema: None }).next(Input::Event(Event::NoMoreSchema)) == (
            Stage::Errored(FederatedServerError::NoSchema),
            Some(State::Errored),
        ),
{
}

impl Command {
    /// Whether `input` is what the driver reports after it did what the
    /// command says.
    pub open spec fn is_answered_by(self, input: Input) -> bool {
        match self {
            Command::AwaitEvent => input is Event,
            Command::CreatePipeline { .. } => input is PipelineCreated,
            Command::StartServer { .. } => input is ServerStarted,
            Command::SwapPipeline => input is PipelineSwapped,
            Command::StopServer => input is ServerStopped,
            Command::Exit => false,
        }
    }
}

/// Whether `inputs` are the reports of a driver that does what the machine
/// commands: each of them answers the command that the machine gave when it
/// came, until the lifecycle has ended.
pub open spec fn follows_commands(machine: StateMachine, inputs: Seq<Input>) -> bool
    decreases inputs.len(),
{
    if inputs.len() == 0 {
        true
    } else {
        let before = machine.spec_run(inputs.drop_last()).0;
        follows_commands(machine, inputs.drop_last()) && (before.stage.is_terminal()
            || before.stage.command().is_answered_by(inputs.last()))
    }
}

/// A lifecycle that is told to shut down ends. Where the driver does what the
/// machine commands, and `Shutdown` is among the events it reports, the
/// lifecycle has ended by the report after it: at `Shutdown` itself where no
/// server ran, and else with the answer to the request to stop the server.
pub proof fn lemma_lifecycle_ends(machine: StateMachine, inputs: Seq<Input>, at: int)
    requires
        follows_commands(machine, inputs),
        0 <= at < inputs.len() - 1,
        inputs[at] == Input::Event(Event::Shutdown),
    ensures
        machine.spec_run(inputs).0.stage.is_terminal(),
        machine.spec_run(inputs).0.spec_outcome() is Some,
    decreases inputs.len(),
{
    let shorter = inputs.drop_last();
    let before = machine.spec_run(shorter).0;
    if at < shorter.len() - 1 {
        assert(shorter[at] == inputs[at]);
        lemma_lifecycle_ends(machine, shorter, at);
        lemma_step_and_end(before, inputs.last());
    } else {
        // `Shutdown` is the last report but one.
        let earlier = shorter.drop_last();
        let start = machine.spec_run(earlier).0;
        assert(shorter.last() == inputs[at]);
        assert(follows_commands(machine, shorter));
        assert(start.stage.is_terminal() || start.stage.command().is_answered_by(shorter.last()));
        lemma_step_and_end(start, shorter.last());
        lemma_step_and_end(before, inputs.last());
    }
}

/// Every command finds what the driver needs to carry it out. A pipeline is
/// created, a server started and a pipeline swapped for a candidate; a server
/// is started on the candidate's listen address; a reload, a swap and a stop
/// find the server that runs. While the machine waits for an event, or after
/// the end, there is no candidate.
pub proof fn lemma_command_is_prepared(stage: Stage)
    ensures
        match stage.command() {
            Command::AwaitEvent => stage.candidate() is None && !stage.is_terminal(),
            Command::CreatePipeline { reload } => stage.candidate() is Some && (reload <==> stage.server() is Some),
            Command::StartServer { listen } => stage.server() is None && (stage.candidate() matches Some(
                candidate,
            ) && candidate.0.listen == listen),
            Command::SwapPipeline => stage.candidate() is Some && stage.server() is Some,
            Command::StopServer => stage.server() is Some,
            Command::Exit => stage.candidate() is None && stage.server() is None && stage.is_terminal(),
        },
{
}

} // verus!
