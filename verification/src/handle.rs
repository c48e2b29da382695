//! The handle through which a client follows and ends a running server.
//!
//! The handle owns three things that the caller's runtime provides: the
//! future that completes with the lifecycle's result, the sender of the
//! shutdown signal, and the receiver of state changes. The receiver can be
//! taken once. The functions here decide who gets what; the caller awaits.

use crate::configuration::ListenAddr;
use crate::error::FederatedServerError;
use crate::event::State;
use vstd::prelude::*;

verus! {

/// The state receiver was asked for after it had been taken.
#[derive(Clone, Copy, Debug, PartialEq, Eq, Structural)]
pub struct ReceiverTaken {}

impl ReceiverTaken {
    /// The text the error is reported with.
    pub open spec fn message_text() -> Seq<char> {
        "State listener has already been taken. 'ready' or 'state' may be called once only."@
    }

    /// The text the error is reported with.
    pub fn message(&self) -> (text: String)
        ensures
            text@ == Self::message_text(),
    {
        "State listener has already been taken. 'ready' or 'state' may be called once only.".to_owned()
    }
}

/// A handle on a running server: `F` is the future of the lifecycle's result,
/// `T` the sender of the shutdown signal, `R` the receiver of states.
pub struct FederatedServerHandle<F, T, R> {
    result: F,
    shutdown_sender: T,
    state_receiver: Option<R>,
}

/// What is left to do to shut a server down, in this order.
pub struct ShutdownSteps<F, T, R> {
    /// The state receiver that nobody took. It is closed first, so that the
    /// state machine is not held up by a state that nobody reads.
    pub state_receiver: Option<R>,
    /// The sender on which the shutdown signal is then sent.
    pub shutdown_sender: T,
    /// The future that is awaited last, for the lifecycle's result.
    pub result: F,
}

impl<F, T, R> FederatedServerHandle<F, T, R> {
    /// The future of the lifecycle's result.
    pub closed spec fn result(&self) -> F {
        self.result
    }

    /// The sender of the shutdown signal.
    pub closed spec fn shutdown_sender(&self) -> T {
        self.shutdown_sender
    }

    /// The receiver of states, while nobody has taken it.
    pub closed spec fn receiver(&self) -> Option<R> {
        self.state_receiver
    }

    /// A handle that still holds its state receiver.
    pub fn new(result: F, shutdown_sender: T, state_receiver: R) -> (handle: Self)
        ensures
            handle.result() == result,
            handle.shutdown_sender() == shutdown_sender,
            handle.receiver() == Some(state_receiver),
    {
        FederatedServerHandle { result, shutdown_sender, state_receiver: Some(state_receiver) }
    }

    /// Hands out the receiver of lifecycle states. It is handed out once:
    /// every later call, and every call after the receiver was closed, is
    /// refused.
    pub fn state_receiver(&mut self) -> (taken: Result<R, ReceiverTaken>)
        ensures
            match taken {
                Ok(receiver) => old(self).receiver() == Some(receiver),
                Err(_) => old(self).receiver() is None,
            },
            final(self).receiver() is None,
            final(self).result() == old(self).result(),
            final(self).shutdown_sender() == old(self).shutdown_sender(),
    {
        match self.state_receiver.take() {
            Some(receiver) => Ok(receiver),
            None => Err(ReceiverTaken {  }),
        }
    }

    /// Hands out the receiver to a client that waits for the server to be
    /// ready. This takes the receiver as [`state_receiver`](Self::state_receiver)
    /// does, so that it can be called once and not after the receiver was
    /// taken. What the client learns from the states it then receives is
    /// [`ready_address`].
    pub fn ready(&mut self) -> (taken: Result<R, ReceiverTaken>)
        ensures
            match taken {
                Ok(receiver) => old(self).receiver() == Some(receiver),
                Err(_) => old(self).receiver() is None,
            },
            final(self).receiver() is None,
            final(self).result() == old(self).result(),
            final(self).shutdown_sender() == old(self).shutdown_sender(),
    {
        self.state_receiver()
    }

    /// Hands out the receiver to the default state receiver, which logs the
    /// basic lifecycle events: for each state it receives the line that
    /// [`default_state_line`] gives. This takes the receiver as
    /// [`state_receiver`](Self::state_receiver) does.
    pub fn with_default_state_receiver(&mut self) -> (taken: Result<R, ReceiverTaken>)
        ensures
            match taken {
                Ok(receiver) => old(self).receiver() == Some(receiver),
                Err(_) => old(self).receiver() is None,
            },
            final(self).receiver() is None,
            final(self).result() == old(self).result(),
            final(self).shutdown_sender() == old(self).shutdown_sender(),
    {
        self.state_receiver()
    }

    /// Gives the receiver of states to the caller to close it, where nobody
    /// took it: left open and unread, it would keep the state machine from
    /// going on.
    pub fn maybe_close_state_receiver(&mut self) -> (unread: Option<R>)
        ensures
            unread == old(self).receiver(),
            final(self).receiver() is None,
            final(self).result() == old(self).result(),
            final(self).shutdown_sender() == old(self).shutdown_sender(),
    {
        self.state_receiver.take()
    }

    /// The future of the lifecycle's result, for the caller to poll it.
    pub fn result_mut(&mut self) -> (result: &mut F)
        ensures
            *result == old(self).result(),
            final(self).result() == *final(result),
            final(self).receiver() == old(self).receiver(),
            final(self).shutdown_sender() == old(self).shutdown_sender(),
    {
        &mut self.result
    }

    /// Ends the handle and says what shutting down takes: to close the state
    /// receiver if nobody took it, then to send the shutdown signal, then to
    /// await the result.
    pub fn shutdown(self) -> (steps: ShutdownSteps<F, T, R>)
        ensures
            steps.state_receiver == self.receiver(),
            steps.shutdown_sender == self.shutdown_sender(),
            steps.result == self.result(),
    {
        ShutdownSteps {
            state_receiver: self.state_receiver,
            shutdown_sender: self.shutdown_sender,
            result: self.result,
        }
    }
}

/// The address that `state` announces: that of a running server.
pub open spec fn announced(state: State) -> Option<ListenAddr> {
    match state {
        State::Running { address, .. } => Some(address),
        _ => None,
    }
}

/// The address that `state` announces: that of a running server.
pub fn running_address(state: &State) -> (address: Option<ListenAddr>)
    ensures
        address == announced(*state),
{
    match state {
        State::Running { address, .. } => Some(*address),
        _ => None,
    }
}

/// What a client that waits for the server to be ready learns from the states
/// it receives: the address of the first `Running` among them, which is the
/// address that was bound; `None` where the states end without one.
pub fn ready_address(states: &Vec<State>) -> (address: Option<ListenAddr>)
    ensures
        match address {
            Some(bound) => exists|i: int|
                0 <= i < states.len() && announced(#[trigger] states[i]) == Some(bound) && forall|j: int|
                    0 <= j < i ==> !(#[trigger] states[j] is Running),
            None => forall|i: int| 0 <= i < states.len() ==> !(#[trigger] states[i] is Running),
        },
{
    let mut index: usize = 0;
    while index < states.len()
        invariant
            index <= states.len(),
            forall|j: int| 0 <= j < index ==> !(#[trigger] states[j] is Running),
        decreases states.len() - index,
    {
        match running_address(&states[index]) {
            Some(bound) => {
                return Some(bound);
            },
            None => {},
        }
        index += 1;
    }
    None
}

/// The line that the default state receiver logs for `state`, if it logs one.
pub open spec fn default_log_text(state: State) -> Option<Seq<char>> {
    match state {
        State::Startup => Some("starting Apollo Router"@),
        State::Running { .. } => None,
        State::Stopped => Some("stopped"@),
        State::Errored => Some("stopped with error"@),
    }
}

/// What the default state receiver does with one state: the line it logs, and
/// nothing for a running server.
pub fn default_state_line(state: &State) -> (line: Option<String>)
    ensures
        match line {
            Some(text) => default_log_text(*state) == Some(text@),
            None => default_log_text(*state) is None,
        },
{
    match state {
        State::Startup => Some("starting Apollo Router".to_owned()),
        State::Running { .. } => None,
        State::Stopped => Some("stopped".to_owned()),
        State::Errored => Some("stopped with error".to_owned()),
    }
}

/// The result of the lifecycle, from what joining its task gave: the task's
/// own result, or `StartupError` where the task did not run to its end.
pub fn completion(joined: Option<Result<(), FederatedServerError>>) -> (result: Result<
    (),
    FederatedServerError,
>)
    ensures
        result == match joined {
            Some(Ok(done)) => Ok::<(), FederatedServerError>(done),
            Some(Err(error)) => Err(error),
            None => Err(FederatedServerError::StartupError),
        },
{
    match joined {
        Some(Ok(done)) => Ok(done),
        Some(Err(error)) => Err(error),
        None => Err(FederatedServerError::StartupError),
    }
}

} // verus!
