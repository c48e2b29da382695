//! The channel on which the state machine broadcasts its states.
//!
//! The channel holds one state. A state that is sent while the last one is
//! still unread takes its place: a slow receiver may miss states in between,
//! but what it reads next is always the latest. The caller wakes the receiver
//! and shares the channel between the two sides.

use crate::event::State;
use vstd::prelude::*;

verus! {

/// The channel: the state that waits to be read, and whether the receiver has
/// closed its side.
#[derive(Debug, PartialEq, Eq)]
pub struct StateChannel {
    /// The state that was sent last, until it is read.
    pub buffered: Option<State>,
    /// Whether the receiver has closed the channel.
    pub closed: bool,
}

impl StateChannel {
    /// The channel after `state` was sent: it holds `state`, unless it is
    /// closed.
    pub open spec fn sent(self, state: State) -> StateChannel {
        if self.closed {
            self
        } else {
            StateChannel { buffered: Some(state), closed: false }
        }
    }

    /// The channel after all of `states` were sent, in order.
    pub open spec fn sent_all(self, states: Seq<State>) -> StateChannel
        decreases states.len(),
    {
        if states.len() == 0 {
            self
        } else {
            self.sent_all(states.drop_last()).sent(states.last())
        }
    }

    /// An open channel that holds nothing.
    pub fn new() -> (channel: Self)
        ensures
            channel.buffered is None,
            !channel.closed,
    {
        StateChannel { buffered: None, closed: false }
    }

    /// Sends `state`. On an open channel it replaces the state that waits to
    /// be read, and that state is given back as missed. A closed channel takes
    /// nothing and gives `state` itself back.
    pub fn send(&mut self, state: State) -> (missed: Option<State>)
        ensures
            *final(self) == old(self).sent(state),
            missed == (if old(self).closed {
                Some(state)
            } else {
                old(self).buffered
            }),
    {
        if self.closed {
            return Some(state);
        }
        let missed = self.buffered.take();
        self.buffered = Some(state);
        missed
    }

    /// Reads the state that waits, if one does, and leaves the channel empty.
    pub fn receive(&mut self) -> (state: Option<State>)
        ensures
            state == old(self).buffered,
            final(self).buffered is None,
            final(self).closed == old(self).closed,
    {
        self.buffered.take()
    }

    /// Closes the receiver's side: the state that waits is dropped and no
    /// further state is taken.
    pub fn close(&mut self)
        ensures
            final(self).closed,
            final(self).buffered is None,
    {
        self.buffered = None;
        self.closed = true;
    }
}

/// The receiver reads the latest state: after any states were sent on an open
/// channel, what waits to be read is the last of them, whatever waited
/// before. So the state that ends a lifecycle, which is the last one sent, is
/// delivered to a receiver that reads, however slow it is.
pub proof fn lemma_latest_state_is_delivered(channel: StateChannel, states: Seq<State>)
    requires
        !channel.closed,
        states.len() > 0,
    ensures
        channel.sent_all(states) == (StateChannel { buffered: Some(states.last()), closed: false }),
    decreases states.len(),
{
    if states.len() > 1 {
        lemma_latest_state_is_delivered(channel, states.drop_last());
    } else {
        reveal_with_fuel(StateChannel::sent_all, 2);
    }
}

/// A closed channel stays as it is, whatever is sent.
pub proof fn lemma_closed_channel_takes_nothing(channel: StateChannel, states: Seq<State>)
    requires
        channel.closed,
    ensures
        channel.sent_all(states) == channel,
    decreases states.len(),
{
    if states.len() > 0 {
        lemma_closed_channel_takes_nothing(channel, states.drop_last());
    }
}

} // verus!
