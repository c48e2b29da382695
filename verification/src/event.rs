//! The events that drive the lifecycle and the states it publishes.

use crate::configuration::{Configuration, ListenAddr, Schema};
use vstd::prelude::*;

verus! {

/// A message on the unified event stream.
#[derive(Clone, Debug, PartialEq, Eq)]
pub enum Event {
    /// The configuration was updated.
    UpdateConfiguration(Configuration),
    /// There are no more updates to the configuration.
    NoMoreConfiguration,
    /// The schema was updated.
    UpdateSchema(Schema),
    /// There are no more updates to the schema.
    NoMoreSchema,
    /// The server should gracefully shut down.
    Shutdown,
}

/// The lifecycle state that clients are notified of.
#[derive(Clone, Debug, PartialEq, Eq)]
pub enum State {
    /// The server is starting up.
    Startup,
    /// The server is running on `address` and serves the schema with hash
    /// `schema_hash`.
    Running { address: ListenAddr, schema_hash: String },
    /// The server has stopped.
    Stopped,
    /// The server has errored.
    Errored,
}

impl State {
    /// Whether no state follows this one.
    pub open spec fn spec_is_terminal(&self) -> bool {
        *self is Stopped || *self is Errored
    }

    /// Whether no state follows this one.
    #[verifier::when_used_as_spec(spec_is_terminal)]
    pub fn is_terminal(&self) -> (terminal: bool)
        ensures
            terminal == self.spec_is_terminal(),
    {
        match self {
            State::Stopped | State::Errored => true,
            _ => false,
        }
    }

    /// The lower-case word that names the state.
    pub open spec fn label_text(&self) -> Seq<char> {
        match self {
            State::Startup => "startup"@,
            State::Running { .. } => "running"@,
            State::Stopped => "stopped"@,
            State::Errored => "errored"@,
        }
    }

    /// The lower-case word that names the state, as the state is displayed.
    pub fn label(&self) -> (label: String)
        ensures
            label@ == self.label_text(),
    {
        match self {
            State::Startup => "startup".to_owned(),
            State::Running { .. } => "running".to_owned(),
            State::Stopped => "stopped".to_owned(),
            State::Errored => "errored".to_owned(),
        }
    }
}

} // verus!
