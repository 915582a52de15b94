//! A simulated actuator: it takes every command and reports the new state,
//! at once or after a fixed delay.
use std::time::Duration;

use vstd::prelude::*;

use crate::actuator::{ActuatorChangeListener, ActuatorToggleState};
use crate::ToggleState;

verus! {

/// A simulated switch.
pub struct PhoneyBaloneyActuator {
    id: String,
    toggle_state: ToggleState,
    state_change_tx: tokio::sync::broadcast::Sender<ActuatorToggleState>,
    state_change_delay: Duration,
}

impl PhoneyBaloneyActuator {
    /// The identifier, as a sequence of characters.
    pub closed spec fn id_view(&self) -> Seq<char> {
        self.id@
    }

    /// The state the switch is in.
    pub closed spec fn state_view(&self) -> ToggleState {
        self.toggle_state
    }

    /// A simulated switch in `init_state`, whose changes are announced after
    /// `state_change_delay` on a channel that keeps `state_change_buffer`
    /// changes (the channel refuses a buffer of zero or above `usize::MAX / 2`).
    pub fn new(
        id: String,
        init_state: ToggleState,
        state_change_delay: Duration,
        state_change_buffer: usize,
    ) -> (actuator: Self)
        requires
            0 < state_change_buffer <= usize::MAX / 2,
        ensures
            actuator.id_view() == id@,
            actuator.state_view() == init_state,
            actuator.delay() == state_change_delay,
    {
        let (state_change_tx, _) = crate::outside::broadcast_channel(state_change_buffer);
        PhoneyBaloneyActuator {
            id,
            toggle_state: init_state,
            state_change_tx,
            state_change_delay,
        }
    }

    /// The delay before a change is announced.
    pub closed spec fn delay(&self) -> Duration {
        self.state_change_delay
    }

    /// The channel on which changes are announced.
    pub closed spec fn change_channel(&self) -> tokio::sync::broadcast::Sender<ActuatorToggleState> {
        self.state_change_tx
    }

    /// Commands the switch into `state`. It returns whether the state changed,
    /// that is whether a change is to be announced.
    pub fn set(&mut self, state: ToggleState) -> (changed: bool)
        ensures
            final(self).state_view() == state,
            final(self).id_view() == old(self).id_view(),
            final(self).delay() == old(self).delay(),
            final(self).change_channel() == old(self).change_channel(),
            changed == (old(self).state_view() != state),
    {
        if self.toggle_state != state {
            self.toggle_state = state;
            true
        } else {
            false
        }
    }

    /// A listener for the changes of this switch.
    pub fn subscribe_to_changes(&self) -> (listener: ActuatorChangeListener)
        ensures
            listener.id@ == self.id_view(),
            listener.peer@ == self.change_channel(),
    {
        let mut listener = ActuatorChangeListener::new(
            self.id.clone(),
            crate::outside::broadcast_subscribe(&self.state_change_tx),
        );
        listener.peer = Ghost(self.state_change_tx);
        listener
    }

    /// The identifier of the switch.
    pub fn id(&self) -> (id: &str)
        ensures
            id@ == self.id_view(),
    {
        self.id.as_str()
    }

    /// The channel on which changes are announced.
    pub fn state_change_tx(&self) -> (tx: &tokio::sync::broadcast::Sender<ActuatorToggleState>)
        ensures
            *tx == self.change_channel(),
    {
        &self.state_change_tx
    }

    /// The delay before a change is announced.
    pub fn state_change_delay(&self) -> (delay: Duration)
        ensures
            delay == self.delay(),
    {
        self.state_change_delay
    }
}

} // verus!
