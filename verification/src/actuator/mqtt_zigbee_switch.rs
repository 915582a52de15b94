//! Zigbee switches reached through an MQTT broker: the actuator handle, the
//! reading of the broker's messages and the bookkeeping of each switch's last
//! reported state.
use vstd::prelude::*;

use std::time::Duration;

use crate::actuator::{ActuatorChangeListener, ActuatorToggleState};
use crate::id_map::IdMap;
use crate::{parse_toggle_state, ToggleState};

verus! {

/// A switch commanded over MQTT.
pub struct MqttZigbeeSwitchActuator {
    id: String,
    set_tx: tokio::sync::mpsc::Sender<(String, ToggleState)>,
    state_change_listener: ActuatorChangeListener,
}

impl MqttZigbeeSwitchActuator {
    /// The identifier, as a sequence of characters.
    pub closed spec fn id_view(&self) -> Seq<char> {
        self.id@
    }

    /// The channel on which the switch's commands are sent.
    pub closed spec fn command_channel(&self) -> tokio::sync::mpsc::Sender<(String, ToggleState)> {
        self.set_tx
    }

    /// The identifier of the actuator whose changes the switch listens to.
    pub closed spec fn listener_id_view(&self) -> Seq<char> {
        self.state_change_listener.id@
    }

    /// The sender recorded with the switch's change listener.
    pub closed spec fn listener_peer(&self) -> tokio::sync::broadcast::Sender<ActuatorToggleState> {
        self.state_change_listener.peer@
    }

    /// A switch that sends its commands on `set_tx` and whose changes arrive
    /// through `state_change_listener`.
    pub fn new(
        id: String,
        set_tx: tokio::sync::mpsc::Sender<(String, ToggleState)>,
        state_change_listener: ActuatorChangeListener,
    ) -> (actuator: Self)
        ensures
            actuator.id_view() == id@,
            actuator.listener_id_view() == state_change_listener.id@,
            actuator.command_channel() == set_tx,
            actuator.listener_peer() == state_change_listener.peer@,
    {
        MqttZigbeeSwitchActuator { id, set_tx, state_change_listener }
    }

    /// The identifier of the switch.
    pub fn id(&self) -> (id: &str)
        ensures
            id@ == self.id_view(),
    {
        self.id.as_str()
    }

    /// A listener for the changes of this switch.
    pub fn subscribe_to_changes(&self) -> (listener: ActuatorChangeListener)
        ensures
            listener.id@ == self.listener_id_view(),
            listener.peer@ == self.listener_peer(),
    {
        self.state_change_listener.resubscribe()
    }

    /// The channel on which the switch's commands are sent.
    pub fn set_tx(&self) -> (tx: &tokio::sync::mpsc::Sender<(String, ToggleState)>)
        ensures
            *tx == self.command_channel(),
    {
        &self.set_tx
    }
}

/// The connection to one MQTT broker: its options, the change channel of each
/// switch reached through it, the channel of commands to it, and its settings.
pub struct MqttBrokerConnection {
    pub options: rumqttc::MqttOptions,
    pub state_change_tx_map: IdMap<tokio::sync::broadcast::Sender<ActuatorToggleState>>,
    pub set_tx: tokio::sync::mpsc::Sender<(String, ToggleState)>,
    pub set_rx: tokio::sync::mpsc::Receiver<(String, ToggleState)>,
    pub base_topic: String,
    pub mqtt_client_capacity: usize,
    pub switch_timeout: Duration,
}

impl MqttBrokerConnection {
    /// A connection to the broker at `host:port` as client `mqtt_client_id`,
    /// for the switches under `base_topic`, with no switch yet. Up to
    /// `set_buffer_capacity` commands wait to be sent; the queue cannot be
    /// empty nor hold more than `usize::MAX / 8`.
    pub fn new(
        mqtt_client_id: String,
        host: String,
        port: u16,
        base_topic: String,
        set_buffer_capacity: usize,
        mqtt_client_capacity: usize,
        switch_timeout: Duration,
    ) -> (conn: Self)
        requires
            0 < set_buffer_capacity <= usize::MAX / 8,
        ensures
            conn.state_change_tx_map@ == Map::<
                Seq<char>,
                tokio::sync::broadcast::Sender<ActuatorToggleState>,
            >::empty(),
            conn.options == crate::outside::mqtt_options_of(mqtt_client_id@, host@, port),
            conn.base_topic == base_topic,
            conn.mqtt_client_capacity == mqtt_client_capacity,
            conn.switch_timeout == switch_timeout,
    {
        let (set_tx, set_rx) = crate::outside::mpsc_channel(set_buffer_capacity);
        MqttBrokerConnection {
            options: crate::outside::mqtt_options_new(mqtt_client_id, host, port),
            state_change_tx_map: IdMap::new(),
            set_tx,
            set_rx,
            base_topic,
            mqtt_client_capacity,
            switch_timeout,
        }
    }

    /// A switch `id` reached through this broker. Its changes go on a new
    /// channel of `change_listener_capacity` changes (at least one, at most
    /// `usize::MAX / 2`), which the connection registers under `id`, replacing
    /// any earlier one.
    pub fn new_actuator(&mut self, id: String, change_listener_capacity: usize) -> (actuator: MqttZigbeeSwitchActuator)
        requires
            0 < change_listener_capacity <= usize::MAX / 2,
        ensures
            final(self).state_change_tx_map@.dom() == old(self).state_change_tx_map@.dom().insert(id@),
            forall|k: Seq<char>|
                k != id@ && #[trigger] old(self).state_change_tx_map@.contains_key(k)
                    ==> final(self).state_change_tx_map@[k] == old(self).state_change_tx_map@[k],
            final(self).options == old(self).options,
            final(self).set_tx == old(self).set_tx,
            final(self).set_rx == old(self).set_rx,
            final(self).base_topic == old(self).base_topic,
            final(self).mqtt_client_capacity == old(self).mqtt_client_capacity,
            final(self).switch_timeout == old(self).switch_timeout,
            actuator.id_view() == id@,
            actuator.command_channel() == old(self).set_tx,
            final(self).state_change_tx_map@[id@] == actuator.listener_peer(),
            actuator.listener_id_view() == id@,
    {
        let (tx, rx) = crate::outside::broadcast_channel(change_listener_capacity);
        let ghost paired = tx;
        let _ = self.state_change_tx_map.insert(id.clone(), tx);
        let mut listener = ActuatorChangeListener::new(id.clone(), rx);
        listener.peer = Ghost(paired);
        proof {
            assert(self.state_change_tx_map@.dom() =~= old(self).state_change_tx_map@.dom().insert(id@));
        }
        MqttZigbeeSwitchActuator::new(id, self.set_tx.clone(), listener)
    }

    /// Sets the keep-alive interval of the connection; it must be zero or at
    /// least a second (MQTT counts it in seconds).
    pub fn set_keepalive(&mut self, keepalive: Duration)
        requires
            keep_alive_allowed(keepalive),
        ensures
            final(self).options == crate::outside::keep_alive_set(old(self).options, keepalive),
            final(self).state_change_tx_map@ == old(self).state_change_tx_map@,
            final(self).set_tx == old(self).set_tx,
            final(self).set_rx == old(self).set_rx,
            final(self).base_topic == old(self).base_topic,
            final(self).mqtt_client_capacity == old(self).mqtt_client_capacity,
            final(self).switch_timeout == old(self).switch_timeout,
    {
        crate::outside::mqtt_options_set_keep_alive(&mut self.options, keepalive);
    }

    /// Sets the keep-alive interval when it is allowed (zero or at least a
    /// second) and tells whether it did; otherwise nothing changes.
    pub fn try_set_keepalive(&mut self, keepalive: Duration) -> (applied: bool)
        ensures
            applied == keep_alive_allowed(keepalive),
            applied ==> final(self).options == crate::outside::keep_alive_set(old(self).options, keepalive),
            !applied ==> final(self).options == old(self).options,
            final(self).state_change_tx_map@ == old(self).state_change_tx_map@,
            final(self).set_tx == old(self).set_tx,
            final(self).set_rx == old(self).set_rx,
            final(self).base_topic == old(self).base_topic,
            final(self).mqtt_client_capacity == old(self).mqtt_client_capacity,
            final(self).switch_timeout == old(self).switch_timeout,
    {
        let nanos = crate::outside::duration_as_nanos(keepalive);
        if nanos == 0 || nanos >= 1_000_000_000 {
            self.set_keepalive(keepalive);
            true
        } else {
            false
        }
    }
}

/// Whether a keep-alive interval can be given to MQTT: zero, or at least a second.
pub open spec fn keep_alive_allowed(keepalive: Duration) -> bool {
    crate::outside::duration_nanos(keepalive) == 0 || crate::outside::duration_nanos(keepalive)
        >= 1_000_000_000
}

/// The position of the first `/` at or after `from`, or the length of the
/// text when there is none.
pub open spec fn slash_from(text: Seq<char>, from: nat) -> nat
    decreases text.len() - from,
{
    if from >= text.len() {
        text.len()
    } else if text[from as int] == '/' {
        from
    } else {
        slash_from(text, from + 1)
    }
}

/// The slash search ends at a slash or at the end of the text, never before
/// where it started.
pub proof fn lemma_slash_from_bounds(text: Seq<char>, from: nat)
    requires
        from <= text.len(),
    ensures
        from <= slash_from(text, from) <= text.len(),
    decreases text.len() - from,
{
    if from < text.len() && text[from as int] != '/' {
        lemma_slash_from_bounds(text, from + 1);
    }
}

/// The first segment of an MQTT topic: the text before the first `/`.
pub open spec fn topic_base(topic: Seq<char>) -> Seq<char> {
    topic.subrange(0, slash_from(topic, 0) as int)
}

/// Whether the topic has a second segment, that is a `/` at all.
pub open spec fn topic_has_id(topic: Seq<char>) -> bool {
    slash_from(topic, 0) < topic.len()
}

/// The second segment of an MQTT topic: the text between the first and the
/// second `/` (or the end).
pub open spec fn topic_id(topic: Seq<char>) -> Seq<char> {
    let start = slash_from(topic, 0) + 1;
    topic.subrange(start as int, slash_from(topic, start) as int)
}

/// Why a message from the broker could not be read as a switch state.
#[derive(Debug, Clone, PartialEq, Eq)]
pub enum MsgError {
    /// The first segment of the topic is not the expected one; it is kept.
    UnexpectedBaseTopic(String),
    /// The topic has no second segment, which would name the switch.
    MissingId,
    /// The payload is not a JSON object with a text field `state`.
    MalformedPayload,
    /// The `state` field names no toggle state.
    UnknownState,
}

/// The text that describes each reason a message could not be read.
pub open spec fn msg_error_message(err: MsgError) -> Seq<char> {
    match err {
        MsgError::UnexpectedBaseTopic(base) => "unexpected base topic: "@ + base@,
        MsgError::MissingId => "could not parse ID"@,
        MsgError::MalformedPayload => "failed to parse payload"@,
        MsgError::UnknownState => "failed to parse state"@,
    }
}

impl MsgError {
    /// The text that describes the error; the unexpected base topic is named.
    pub fn message(&self) -> (text: String)
        ensures
            text@ == msg_error_message(*self),
    {
        match self {
            MsgError::UnexpectedBaseTopic(base) => {
                let mut text = String::from_str("unexpected base topic: ");
                text.append(base.as_str());
                text
            },
            MsgError::MissingId => String::from_str("could not parse ID"),
            MsgError::MalformedPayload => String::from_str("failed to parse payload"),
            MsgError::UnknownState => String::from_str("failed to parse state"),
        }
    }
}

/// Finds the first `/` of `text` at or after `from`.
fn find_slash(text: &str, len: usize, from: usize) -> (pos: usize)
    requires
        len == text@.len(),
        from <= len,
    ensures
        pos == slash_from(text@, from as nat),
{
    let mut i = from;
    while i < len
        invariant
            len == text@.len(),
            from <= i <= len,
            slash_from(text@, i as nat) == slash_from(text@, from as nat),
        decreases len - i,
    {
        if text.get_char(i) == '/' {
            return i;
        }
        i = i + 1;
    }
    i
}

/// Reads a message from the broker. The topic must be `<base>/<id>[/...]`
/// with `<base>` equal to `expected_base_topic`; `payload_state` is the
/// `state` field of the JSON payload, `None` when the payload has no such
/// text field. The result is the switch identifier and its state. Errors are
/// checked in that order: base topic, identifier, payload, state.
pub fn process_msg(
    topic: &str,
    payload_state: Option<String>,
    expected_base_topic: &str,
) -> (res: Result<(String, ToggleState), MsgError>)
    ensures
        topic_base(topic@) != expected_base_topic@ ==> (res matches Err(
            MsgError::UnexpectedBaseTopic(base),
        ) && base@ == topic_base(topic@)),
        topic_base(topic@) == expected_base_topic@ && !topic_has_id(topic@) ==> res == Err::<
            (String, ToggleState),
            MsgError,
        >(MsgError::MissingId),
        topic_base(topic@) == expected_base_topic@ && topic_has_id(topic@) ==> match payload_state {
            None => res == Err::<(String, ToggleState), MsgError>(MsgError::MalformedPayload),
            Some(text) => match parse_toggle_state(text@) {
                Ok(state) => res matches Ok((id, s)) && id@ == topic_id(topic@) && s == state,
                Err(_) => res == Err::<(String, ToggleState), MsgError>(MsgError::UnknownState),
            },
        },
{
    let len = topic.unicode_len();
    let base_end = find_slash(topic, len, 0);
    proof {
        lemma_slash_from_bounds(topic@, 0);
    }
    let base = topic.substring_char(0, base_end).to_owned();
    let expected = expected_base_topic.to_owned();
    if !(base == expected) {
        return Err(MsgError::UnexpectedBaseTopic(base));
    }
    if base_end == len {
        return Err(MsgError::MissingId);
    }
    let id_end = find_slash(topic, len, base_end + 1);
    proof {
        lemma_slash_from_bounds(topic@, (base_end + 1) as nat);
    }
    let id = topic.substring_char(base_end + 1, id_end).to_owned();
    match payload_state {
        None => Err(MsgError::MalformedPayload),
        Some(text) => match ToggleState::parse(text.as_str()) {
            Ok(state) => Ok((id, state)),
            Err(_) => Err(MsgError::UnknownState),
        },
    }
}

/// The topic filter that receives the messages of every switch under
/// `base_topic`: `<base_topic>/+`.
pub fn subscription_topic(base_topic: &str) -> (topic: String)
    ensures
        topic@ == base_topic@ + "/+"@,
{
    let mut topic = base_topic.to_owned();
    topic.append("/+");
    topic
}

/// The topic on which switch `id` under `base_topic` takes commands:
/// `<base_topic>/<id>/set`.
pub fn set_topic(base_topic: &str, id: &str) -> (topic: String)
    ensures
        topic@ == base_topic@ + "/"@ + id@ + "/set"@,
{
    let mut topic = base_topic.to_owned();
    topic.append("/");
    topic.append(id);
    topic.append("/set");
    topic
}

/// Whether more than `timeout` has passed from `since` to `now`; a `now`
/// before `since` counts as no time passed.
pub open spec fn elapsed_exceeds(now: u128, since: u128, timeout: u128) -> bool {
    if now <= since {
        0 > timeout
    } else {
        now - since > timeout
    }
}

/// Whether more than `timeout` has passed from `since` to `now` (times in
/// nanoseconds of a monotonic clock).
pub fn timeout_elapsed(now: u128, since: u128, timeout: u128) -> (elapsed: bool)
    ensures
        elapsed == elapsed_exceeds(now, since, timeout),
{
    if now <= since {
        false
    } else {
        now - since > timeout
    }
}

/// What the connection remembers of one switch: the state it last reported
/// and when it last changed.
#[derive(Debug, Clone, Copy, PartialEq, Eq)]
pub struct StateWidget {
    pub last_state: Option<ToggleState>,
    pub last_state_ts: u128,
}

/// The widget after a state is reported at `now`, and whether that is a change:
/// a state other than the last one (or a first one) is remembered with its
/// time; a repeated one changes nothing.
pub open spec fn observe_spec(widget: StateWidget, state: ToggleState, now: u128) -> (StateWidget, bool) {
    if widget.last_state != Some(state) {
        (StateWidget { last_state: Some(state), last_state_ts: now }, true)
    } else {
        (widget, false)
    }
}

/// The widget after a timeout check at `now`, and whether the switch timed out:
/// silent for more than `timeout` since its last change, it forgets its state.
pub open spec fn check_timeout_spec(widget: StateWidget, now: u128, timeout: u128) -> (StateWidget, bool) {
    if elapsed_exceeds(now, widget.last_state_ts, timeout) {
        (StateWidget { last_state: None, ..widget }, true)
    } else {
        (widget, false)
    }
}

impl StateWidget {
    /// A switch that has reported nothing yet, watched from `now`.
    pub fn new(now: u128) -> (widget: Self)
        ensures
            widget.last_state.is_none(),
            widget.last_state_ts == now,
    {
        StateWidget { last_state: None, last_state_ts: now }
    }

    /// Records a state reported by the switch at `now`. A state that differs
    /// from the last one (or a first state) is a change: it is remembered with
    /// its time and the result is `true`. A repeated state changes nothing.
    pub fn observe(&mut self, state: ToggleState, now: u128) -> (changed: bool)
        ensures
            (*final(self), changed) == observe_spec(*old(self), state, now),
            old(self).last_state != Some(state) ==> changed && final(self).last_state == Some(state)
                && final(self).last_state_ts == now,
            old(self).last_state == Some(state) ==> !changed && *final(self) == *old(self),
    {
        let changed = match self.last_state {
            None => true,
            Some(last) => last != state,
        };
        if changed {
            self.last_state_ts = now;
            self.last_state = Some(state);
        }
        changed
    }

    /// Checks at `now` whether the switch has been silent for more than
    /// `timeout` since its last change; if so it forgets the last state and
    /// returns `true` (the time of the last change stays).
    pub fn check_timeout(&mut self, now: u128, timeout: u128) -> (timed_out: bool)
        ensures
            (*final(self), timed_out) == check_timeout_spec(*old(self), now, timeout),
    {
        if timeout_elapsed(now, self.last_state_ts, timeout) {
            self.last_state = None;
            true
        } else {
            false
        }
    }
}

/// Records a state reported at `now` for switch `id`: `None` when no switch has
/// that identifier, and then nothing changes; otherwise the switch's widget is
/// updated as `StateWidget::observe` does, and the result tells whether that was
/// a change.
pub fn observe_switch(widgets: &mut IdMap<StateWidget>, id: &str, state: ToggleState, now: u128) -> (changed: Option<bool>)
    ensures
        !old(widgets)@.contains_key(id@) ==> changed is None && final(widgets)@ == old(widgets)@,
        old(widgets)@.contains_key(id@) ==> changed == Some(observe_spec(old(widgets)@[id@], state, now).1)
            && final(widgets)@ == old(widgets)@.insert(id@, observe_spec(old(widgets)@[id@], state, now).0),
{
    match widgets.get(id) {
        None => None,
        Some(widget) => {
            let mut widget = *widget;
            let changed = widget.observe(state, now);
            let _ = widgets.insert(id.to_owned(), widget);
            Some(changed)
        },
    }
}

/// Checks every switch for a timeout at `now` (see `StateWidget::check_timeout`):
/// each widget becomes what its check leaves, and the result holds, each once,
/// the identifiers of the switches that timed out.
pub fn check_timeouts(widgets: &mut IdMap<StateWidget>, now: u128, timeout: u128) -> (timed_out: Vec<String>)
    ensures
        final(widgets)@.dom() == old(widgets)@.dom(),
        forall|k: Seq<char>|
            #[trigger] old(widgets)@.contains_key(k) ==> final(widgets)@[k] == check_timeout_spec(
                old(widgets)@[k],
                now,
                timeout,
            ).0,
        forall|k: Seq<char>|
            (old(widgets)@.contains_key(k) && check_timeout_spec(old(widgets)@[k], now, timeout).1)
                <==> exists|o: int| 0 <= o < timed_out@.len() && #[trigger] timed_out@[o]@ == k,
        forall|a: int, b: int|
            0 <= a < timed_out@.len() && 0 <= b < timed_out@.len() && a != b ==> #[trigger] timed_out@[a]@
                != #[trigger] timed_out@[b]@,
{
    let ids = widgets.keys();
    let ghost start = widgets@;
    let mut timed_out: Vec<String> = Vec::new();
    let mut i: usize = 0;
    while i < ids.len()
        invariant
            i <= ids@.len(),
            start == old(widgets)@,
            forall|a: int, b: int|
                0 <= a < ids@.len() && 0 <= b < ids@.len() && a != b ==> #[trigger] ids@[a]@
                    != #[trigger] ids@[b]@,
            forall|k: Seq<char>|
                start.contains_key(k) <==> exists|a: int| 0 <= a < ids@.len() && #[trigger] ids@[a]@ == k,
            widgets@.dom() == start.dom(),
            forall|a: int|
                0 <= a < i ==> widgets@[#[trigger] ids@[a]@] == check_timeout_spec(
                    start[ids@[a]@],
                    now,
                    timeout,
                ).0,
            forall|a: int| i <= a < ids@.len() ==> widgets@[#[trigger] ids@[a]@] == start[ids@[a]@],
            forall|k: Seq<char>| #![trigger start[k]]
                (exists|a: int| 0 <= a < i && #[trigger] ids@[a]@ == k && check_timeout_spec(start[k], now, timeout).1)
                    <==> exists|o: int| 0 <= o < timed_out@.len() && #[trigger] timed_out@[o]@ == k,
            forall|a: int, b: int|
                0 <= a < timed_out@.len() && 0 <= b < timed_out@.len() && a != b ==> #[trigger] timed_out@[a]@
                    != #[trigger] timed_out@[b]@,
        decreases ids@.len() - i,
    {
        let id = &ids[i];
        proof {
            assert(start.contains_key(ids@[i as int]@));
        }
        let mut widget = match widgets.get(id.as_str()) {
            Some(widget) => *widget,
            None => {
                proof {
                    assert(false);
                }
                StateWidget::new(now)
            },
        };
        let expired = widget.check_timeout(now, timeout);
        let ghost before = widgets@;
        let ghost pre_out = timed_out@;
        let _ = widgets.insert(id.clone(), widget);
        if expired {
            timed_out.push(id.clone());
        }
        proof {
            assert(widgets@.dom() =~= start.dom());
            assert forall|a: int| 0 <= a < i + 1 implies widgets@[#[trigger] ids@[a]@] == check_timeout_spec(
                start[ids@[a]@],
                now,
                timeout,
            ).0 by {
                if a < i {
                    assert(ids@[a]@ != ids@[i as int]@);
                }
            }
            assert forall|a: int| i + 1 <= a < ids@.len() implies widgets@[#[trigger] ids@[a]@] == start[ids@[a]@] by {
                assert(ids@[a]@ != ids@[i as int]@);
            }
            assert forall|k: Seq<char>| #![trigger start[k]]
                (exists|a: int| 0 <= a < i + 1 && #[trigger] ids@[a]@ == k && check_timeout_spec(start[k], now, timeout).1)
                    <==> exists|o: int| 0 <= o < timed_out@.len() && #[trigger] timed_out@[o]@ == k by {
                if exists|a: int| 0 <= a < i + 1 && #[trigger] ids@[a]@ == k && check_timeout_spec(start[k], now, timeout).1 {
                    let a = choose|a: int| 0 <= a < i + 1 && #[trigger] ids@[a]@ == k && check_timeout_spec(start[k], now, timeout).1;
                    if a == i {
                        assert(timed_out@[timed_out@.len() - 1]@ == k);
                    } else {
                        let o = choose|o: int| 0 <= o < pre_out.len() && #[trigger] pre_out[o]@ == k;
                        assert(timed_out@[o] == pre_out[o]);
                    }
                }
                if exists|o: int| 0 <= o < timed_out@.len() && #[trigger] timed_out@[o]@ == k {
                    let o = choose|o: int| 0 <= o < timed_out@.len() && #[trigger] timed_out@[o]@ == k;
                    if o < pre_out.len() {
                        assert(pre_out[o] == timed_out@[o]);
                        assert(pre_out[o]@ == k);
                    } else {
                        assert(ids@[i as int]@ == k);
                    }
                }
            }
            assert forall|a: int, b: int|
                0 <= a < timed_out@.len() && 0 <= b < timed_out@.len() && a != b implies #[trigger] timed_out@[a]@
                    != #[trigger] timed_out@[b]@ by {
                if expired {
                    let last = timed_out@.len() - 1;
                    if a == last && b < last {
                        assert(timed_out@[b] == pre_out[b]);
                        if pre_out[b]@ == ids@[i as int]@ {
                            let k = ids@[i as int]@;
                            assert(exists|o: int| 0 <= o < pre_out.len() && #[trigger] pre_out[o]@ == k);
                            let c = choose|c: int| 0 <= c < i && #[trigger] ids@[c]@ == k && check_timeout_spec(start[k], now, timeout).1;
                            assert(ids@[c]@ != ids@[i as int]@);
                        }
                    } else if b == last && a < last {
                        assert(timed_out@[a] == pre_out[a]);
                        if pre_out[a]@ == ids@[i as int]@ {
                            let k = ids@[i as int]@;
                            assert(exists|o: int| 0 <= o < pre_out.len() && #[trigger] pre_out[o]@ == k);
                            let c = choose|c: int| 0 <= c < i && #[trigger] ids@[c]@ == k && check_timeout_spec(start[k], now, timeout).1;
                            assert(ids@[c]@ != ids@[i as int]@);
                        }
                    } else {
                        assert(timed_out@[a] == pre_out[a] && timed_out@[b] == pre_out[b]);
                    }
                }
            }
        }
        i = i + 1;
    }
    proof {
        assert forall|k: Seq<char>| #[trigger] old(widgets)@.contains_key(k) implies widgets@[k] == check_timeout_spec(
            old(widgets)@[k],
            now,
            timeout,
        ).0 by {
            let a = choose|a: int| 0 <= a < ids@.len() && #[trigger] ids@[a]@ == k;
            assert(widgets@[ids@[a]@] == check_timeout_spec(start[ids@[a]@], now, timeout).0);
        }
        assert forall|k: Seq<char>|
            (old(widgets)@.contains_key(k) && check_timeout_spec(old(widgets)@[k], now, timeout).1)
                <==> exists|o: int| 0 <= o < timed_out@.len() && #[trigger] timed_out@[o]@ == k by {
            if old(widgets)@.contains_key(k) && check_timeout_spec(old(widgets)@[k], now, timeout).1 {
                let a = choose|a: int| 0 <= a < ids@.len() && #[trigger] ids@[a]@ == k;
                assert(ids@[a]@ == k && check_timeout_spec(start[k], now, timeout).1);
            }
            if exists|o: int| 0 <= o < timed_out@.len() && #[trigger] timed_out@[o]@ == k {
                let a = choose|a: int| 0 <= a < ids@.len() && #[trigger] ids@[a]@ == k && check_timeout_spec(start[k], now, timeout).1;
                assert(start.contains_key(k));
            }
        }
    }
    timed_out
}

/// A reported state that differs from the remembered one, or a first report,
/// is a change: the widget then remembers that state with its time. The same
/// state again is no change and leaves the widget as it was.
pub proof fn lemma_observe_detects_changes(widget: StateWidget, state: ToggleState, now: u128)
    ensures
        widget.last_state matches Some(last) && last != state ==> observe_spec(widget, state, now).1
            && observe_spec(widget, state, now).0.last_state == Some(state) && observe_spec(
            widget,
            state,
            now,
        ).0.last_state_ts == now,
        widget.last_state is None ==> observe_spec(widget, state, now).1 && observe_spec(
            widget,
            state,
            now,
        ).0.last_state == Some(state) && observe_spec(widget, state, now).0.last_state_ts == now,
        widget.last_state == Some(state) ==> !observe_spec(widget, state, now).1 && observe_spec(
            widget,
            state,
            now,
        ).0 == widget,
{
}

/// Reporting the same state twice in a row is one change: the second report
/// changes nothing.
pub proof fn lemma_repeated_state_is_no_change(widget: StateWidget, state: ToggleState, first: u128, second: u128)
    ensures
        observe_spec(observe_spec(widget, state, first).0, state, second).1 == false,
        observe_spec(observe_spec(widget, state, first).0, state, second).0 == observe_spec(
            widget,
            state,
            first,
        ).0,
{
}

/// After a switch timed out, the next state it reports is a change, whatever
/// it was before.
pub proof fn lemma_state_after_timeout_is_change(
    widget: StateWidget,
    now: u128,
    timeout: u128,
    state: ToggleState,
    later: u128,
)
    requires
        check_timeout_spec(widget, now, timeout).1,
    ensures
        observe_spec(check_timeout_spec(widget, now, timeout).0, state, later).1,
{
}

} // verus!
