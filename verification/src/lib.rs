//! A small home-automation service that keeps track of switches ("toggles"),
//! commands them through actuators and reports their state over an HTTP API.
//!
//! The verified library holds the decisions: parsing and printing toggle
//! states, the per-toggle state cache, the request routing of the API and the
//! broker, and the bookkeeping of the MQTT switch connection. Channels,
//! sockets and timers are driven by the application around it.
use vstd::prelude::*;

use std::sync::Arc;

pub mod actuator;
pub mod actuators;
pub mod api;
pub mod broker;
pub mod daemon;
pub mod engine;
pub mod id_map;
pub mod outside;
pub mod rrch;
pub mod server;

verus! {

/// The two positions of a switch.
#[derive(Debug, Clone, Copy, PartialEq, Eq, Structural)]
pub enum ToggleState {
    Off,
    On,
}

/// The state a switch is commanded into.
pub type SwitchToggleState = ToggleState;

/// What is known of a switch's operation.
#[derive(Debug, Clone)]
pub enum SwitchOperationalStatus {
    /// Nothing has been reported yet.
    Unknown,
    /// The switch was commanded into this state and has not confirmed it.
    Transitioning(SwitchToggleState),
    /// The switch reported this state.
    Confirmed(SwitchToggleState),
    /// The switch failed, for this reason.
    Failure(Arc<anyhow::Error>),
}

/// The error returned when a text names no toggle state.
#[derive(Debug, Clone, Copy, PartialEq, Eq, Structural)]
pub enum ParseError {
    VariantNotFound,
}

/// The name under which a toggle state is printed and parsed.
pub open spec fn toggle_state_name(state: ToggleState) -> Seq<char> {
    match state {
        ToggleState::Off => seq!['O', 'f', 'f'],
        ToggleState::On => seq!['O', 'n'],
    }
}

/// What parsing a text as a toggle state gives: the state whose name the text
/// is, letter for letter, or `VariantNotFound`.
pub open spec fn parse_toggle_state(text: Seq<char>) -> Result<ToggleState, ParseError> {
    if text == toggle_state_name(ToggleState::Off) {
        Ok(ToggleState::Off)
    } else if text == toggle_state_name(ToggleState::On) {
        Ok(ToggleState::On)
    } else {
        Err(ParseError::VariantNotFound)
    }
}

impl ToggleState {
    /// The state's name: `Off` or `On`.
    pub fn to_string(&self) -> (name: String)
        ensures
            name@ == toggle_state_name(*self),
    {
        match self {
            ToggleState::Off => {
                let name = String::from_str("Off");
                proof {
                    reveal_strlit("Off");
                    assert(name@ =~= toggle_state_name(ToggleState::Off));
                }
                name
            },
            ToggleState::On => {
                let name = String::from_str("On");
                proof {
                    reveal_strlit("On");
                    assert(name@ =~= toggle_state_name(ToggleState::On));
                }
                name
            },
        }
    }

    /// Parses a state from its exact name; any other text, other letter case
    /// included, is `VariantNotFound`.
    pub fn parse(text: &str) -> (res: Result<ToggleState, ParseError>)
        ensures
            res == parse_toggle_state(text@),
    {
        let owned = text.to_owned();
        let off = String::from_str("Off");
        let on = String::from_str("On");
        proof {
            reveal_strlit("Off");
            reveal_strlit("On");
            assert(off@ =~= toggle_state_name(ToggleState::Off));
            assert(on@ =~= toggle_state_name(ToggleState::On));
        }
        if owned == off {
            Ok(ToggleState::Off)
        } else if owned == on {
            Ok(ToggleState::On)
        } else {
            Err(ParseError::VariantNotFound)
        }
    }
}

/// Parsing the printed name of a state gives that state back.
pub proof fn lemma_toggle_state_round_trip(state: ToggleState)
    ensures
        parse_toggle_state(toggle_state_name(state)) == Ok::<ToggleState, ParseError>(state),
{
    assert(toggle_state_name(ToggleState::Off) != toggle_state_name(ToggleState::On)) by {
        assert(toggle_state_name(ToggleState::Off).len() != toggle_state_name(ToggleState::On).len());
    }
}

} // verus!
