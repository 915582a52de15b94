//! The engine: what the service knows of each toggle, and how a command on a
//! toggle becomes the status reported back.
use std::sync::Arc;

use vstd::prelude::*;

use crate::actuator::error::OperationError;
use crate::api::TimestampNs;
use crate::id_map::IdMap;
use crate::ToggleState;

pub mod error;

verus! {

/// A state together with the time it was recorded.
#[derive(Debug, Clone, Copy, PartialEq, Eq, Structural)]
pub struct ToggleStateSnapshot {
    pub timestamp: TimestampNs,
    pub state: ToggleState,
}

impl ToggleStateSnapshot {
    /// The snapshot of `state` at `timestamp`.
    pub fn new(timestamp: TimestampNs, state: ToggleState) -> (snapshot: Self)
        ensures
            snapshot == (ToggleStateSnapshot { timestamp, state }),
    {
        ToggleStateSnapshot { timestamp, state }
    }
}

/// The last snapshot recorded for each registered toggle (`None` before the
/// first one).
pub type SnapshotMap = IdMap<Option<ToggleStateSnapshot>>;

/// The snapshot recorded for `id`: `None` when the toggle is not registered or
/// nothing was recorded yet.
pub open spec fn recorded(map: Map<Seq<char>, Option<ToggleStateSnapshot>>, id: Seq<char>) -> Option<
    ToggleStateSnapshot,
> {
    if map.contains_key(id) {
        map[id]
    } else {
        None
    }
}

/// The last time a toggle is known to have worked: the earlier of the times of
/// its commanded and observed snapshots, or the time of the one that exists.
pub open spec fn last_operable(
    commanded: Option<ToggleStateSnapshot>,
    observed: Option<ToggleStateSnapshot>,
) -> Option<TimestampNs> {
    match (commanded, observed) {
        (Some(c), Some(o)) => Some(
            if c.timestamp <= o.timestamp {
                c.timestamp
            } else {
                o.timestamp
            },
        ),
        (Some(c), None) => Some(c.timestamp),
        (None, Some(o)) => Some(o.timestamp),
        (None, None) => None,
    }
}

/// The error for a toggle that is not registered in the cache.
#[derive(Debug, Clone)]
pub struct UnregisteredId {
    pub id: String,
}

impl UnregisteredId {
    /// The text that describes the error: `<id> not registered in cache`.
    pub fn message(&self) -> (text: String)
        ensures
            text@ == self.id@ + " not registered in cache"@,
    {
        let mut text = self.id.clone();
        text.append(" not registered in cache");
        text
    }
}

/// Records `state` at `now` as the snapshot of `id`, which must be registered;
/// otherwise nothing changes and the error names `id`.
pub fn set_and_timestamp(cache: &mut SnapshotMap, id: &str, state: ToggleState, now: TimestampNs) -> (res:
    Result<(), UnregisteredId>)
    ensures
        old(cache)@.contains_key(id@) ==> res is Ok && final(cache)@ == old(cache)@.insert(
            id@,
            Some(ToggleStateSnapshot { timestamp: now, state }),
        ),
        !old(cache)@.contains_key(id@) ==> (res matches Err(e) && e.id@ == id@ && final(cache)@
            == old(cache)@),
{
    if !cache.contains_key(id) {
        return Err(UnregisteredId { id: id.to_owned() });
    }
    let snapshot = ToggleStateSnapshot::new(now, state);
    let _ = cache.insert(id.to_owned(), Some(snapshot));
    Ok(())
}

/// The commanded and the observed state of each registered toggle.
pub struct StateCache {
    commanded: SnapshotMap,
    observed: SnapshotMap,
}

impl StateCache {
    /// The commanded snapshots by toggle.
    pub closed spec fn commanded_view(&self) -> Map<Seq<char>, Option<ToggleStateSnapshot>> {
        self.commanded@
    }

    /// The observed snapshots by toggle.
    pub closed spec fn observed_view(&self) -> Map<Seq<char>, Option<ToggleStateSnapshot>> {
        self.observed@
    }

    /// The commanded snapshot of `id`, if any.
    pub open spec fn commanded_of(&self, id: Seq<char>) -> Option<ToggleStateSnapshot> {
        recorded(self.commanded_view(), id)
    }

    /// The observed snapshot of `id`, if any.
    pub open spec fn observed_of(&self, id: Seq<char>) -> Option<ToggleStateSnapshot> {
        recorded(self.observed_view(), id)
    }

    /// Whether a state can be recorded for `id`.
    pub open spec fn is_registered(&self, id: Seq<char>) -> bool {
        self.commanded_view().contains_key(id)
    }

    /// A cache in which each of `ids` is registered with nothing recorded.
    pub fn new(ids: &Vec<String>) -> (cache: Self)
        ensures
            forall|k: Seq<char>|
                cache.commanded_view().contains_key(k) <==> exists|i: int|
                    0 <= i < ids@.len() && #[trigger] ids@[i]@ == k,
            forall|k: Seq<char>|
                cache.observed_view().contains_key(k) <==> exists|i: int|
                    0 <= i < ids@.len() && #[trigger] ids@[i]@ == k,
            forall|k: Seq<char>| #[trigger]
                cache.commanded_view().contains_key(k) ==> cache.commanded_view()[k].is_none(),
            forall|k: Seq<char>| #[trigger]
                cache.observed_view().contains_key(k) ==> cache.observed_view()[k].is_none(),
    {
        let mut commanded: SnapshotMap = IdMap::new();
        let mut observed: SnapshotMap = IdMap::new();
        let mut i: usize = 0;
        while i < ids.len()
            invariant
                i <= ids@.len(),
                forall|k: Seq<char>|
                    commanded@.contains_key(k) <==> exists|j: int| 0 <= j < i && #[trigger] ids@[j]@ == k,
                forall|k: Seq<char>|
                    observed@.contains_key(k) <==> exists|j: int| 0 <= j < i && #[trigger] ids@[j]@ == k,
                forall|k: Seq<char>| #[trigger] commanded@.contains_key(k) ==> commanded@[k].is_none(),
                forall|k: Seq<char>| #[trigger] observed@.contains_key(k) ==> observed@[k].is_none(),
            decreases ids@.len() - i,
        {
            let _ = commanded.insert(ids[i].clone(), None);
            let _ = observed.insert(ids[i].clone(), None);
            proof {
                assert forall|k: Seq<char>|
                    commanded@.contains_key(k) <==> exists|j: int| 0 <= j < i + 1 && #[trigger] ids@[j]@ == k by {
                    if k == ids@[i as int]@ {
                        assert(ids@[i as int]@ == k);
                    }
                }
                assert forall|k: Seq<char>|
                    observed@.contains_key(k) <==> exists|j: int| 0 <= j < i + 1 && #[trigger] ids@[j]@ == k by {
                    if k == ids@[i as int]@ {
                        assert(ids@[i as int]@ == k);
                    }
                }
            }
            i = i + 1;
        }
        StateCache { commanded, observed }
    }

    /// Whether a state can be recorded for the toggle.
    pub fn registered(&self, id: &str) -> (found: bool)
        ensures
            found == self.is_registered(id@),
    {
        self.commanded.contains_key(id)
    }

    /// The last time the toggle is known to have worked, if ever.
    pub fn get_last_operable(&self, id: &str) -> (time: Option<TimestampNs>)
        ensures
            time == last_operable(self.commanded_of(id@), self.observed_of(id@)),
    {
        match (self.get_commanded(id), self.get_observed(id)) {
            (Some(commanded), Some(observed)) => Some(
                if commanded.timestamp <= observed.timestamp {
                    commanded.timestamp
                } else {
                    observed.timestamp
                },
            ),
            (Some(commanded), None) => Some(commanded.timestamp),
            (None, Some(observed)) => Some(observed.timestamp),
            (None, None) => None,
        }
    }

    /// The state last commanded for the toggle, if any.
    pub fn get_commanded(&self, id: &str) -> (snapshot: Option<ToggleStateSnapshot>)
        ensures
            snapshot == self.commanded_of(id@),
    {
        match self.commanded.get(id) {
            Some(snapshot) => *snapshot,
            None => None,
        }
    }

    /// Records `state` at `now` as the commanded state of `id`; an unregistered
    /// `id` is an error and changes nothing.
    pub fn set_commanded(&mut self, id: &str, state: ToggleState, now: TimestampNs) -> (res: Result<(), UnregisteredId>)
        ensures
            old(self).is_registered(id@) ==> res is Ok && final(self).commanded_view()
                == old(self).commanded_view().insert(
                id@,
                Some(ToggleStateSnapshot { timestamp: now, state }),
            ),
            !old(self).is_registered(id@) ==> (res matches Err(e) && e.id@ == id@
                && final(self).commanded_view() == old(self).commanded_view()),
            final(self).observed_view() == old(self).observed_view(),
    {
        set_and_timestamp(&mut self.commanded, id, state, now)
    }

    /// The state last observed for the toggle, if any.
    pub fn get_observed(&self, id: &str) -> (snapshot: Option<ToggleStateSnapshot>)
        ensures
            snapshot == self.observed_of(id@),
    {
        match self.observed.get(id) {
            Some(snapshot) => *snapshot,
            None => None,
        }
    }

    /// Records an observed `state` at `now` for `id`. The snapshot goes into the
    /// commanded states, as `set_commanded` does; the observed states are not
    /// touched. An unregistered `id` is an error and changes nothing.
    pub fn set_observed(&mut self, id: &str, state: ToggleState, now: TimestampNs) -> (res: Result<(), UnregisteredId>)
        ensures
            old(self).is_registered(id@) ==> res is Ok && final(self).commanded_view()
                == old(self).commanded_view().insert(
                id@,
                Some(ToggleStateSnapshot { timestamp: now, state }),
            ),
            !old(self).is_registered(id@) ==> (res matches Err(e) && e.id@ == id@
                && final(self).commanded_view() == old(self).commanded_view()),
            final(self).observed_view() == old(self).observed_view(),
    {
        set_and_timestamp(&mut self.commanded, id, state, now)
    }
}

/// The status of a toggle: up with its states, or down.
#[derive(Debug, Clone)]
pub enum ToggleStatus {
    Up(ToggleUpStatus),
    Down(ToggleDownStatus),
}

/// A toggle that works: what was last observed and last commanded.
#[derive(Debug, Clone)]
pub struct ToggleUpStatus {
    pub id: String,
    pub observed: ToggleStateSnapshot,
    pub commanded: ToggleStateSnapshot,
    pub extra_context: serde_json::Value,
}

impl ToggleUpStatus {
    /// The status of a working toggle, with JSON `null` as extra context.
    pub fn new(id: String, observed: ToggleStateSnapshot, commanded: ToggleStateSnapshot) -> (status: Self)
        ensures
            status.id == id,
            status.observed == observed,
            status.commanded == commanded,
    {
        ToggleUpStatus { id, observed, commanded, extra_context: crate::outside::json_null() }
    }

    /// Replaces the extra context; the rest stays.
    pub fn add_extra_context(&mut self, extra_context: serde_json::Value)
        ensures
            final(self).id == old(self).id,
            final(self).observed == old(self).observed,
            final(self).commanded == old(self).commanded,
            final(self).extra_context == extra_context,
    {
        self.extra_context = extra_context;
    }
}

/// A toggle that does not work: when it last did, and the error if one is known.
#[derive(Debug, Clone)]
pub struct ToggleDownStatus {
    pub id: String,
    pub last_operable: TimestampNs,
    pub error: Option<Arc<OperationError>>,
}

impl ToggleDownStatus {
    /// The status of a toggle that does not work.
    pub fn new(id: String, last_operable: TimestampNs, error: Option<Arc<OperationError>>) -> (status: Self)
        ensures
            status == (ToggleDownStatus { id, last_operable, error }),
    {
        ToggleDownStatus { id, last_operable, error }
    }
}

/// How the command to a toggle's actuator went.
pub enum SetOutcome {
    /// No state was to be set, or no actuator is known for the toggle.
    NotRequested,
    /// The actuator took the state.
    Applied(ToggleState),
    /// The actuator failed.
    Failed(OperationError),
}

/// The state to command the actuator of toggle `id` into: the state asked for,
/// when one was asked for and the toggle has an actuator; otherwise none, and
/// the command is not carried out.
pub fn command_to_carry_out<V>(set_state: Option<ToggleState>, actuator_map: &IdMap<V>, id: &str) -> (state: Option<ToggleState>)
    ensures
        state == (if actuator_map@.contains_key(id@) {
            set_state
        } else {
            None
        }),
{
    match set_state {
        Some(state) => if actuator_map.contains_key(id) {
            Some(state)
        } else {
            None
        },
        None => None,
    }
}

/// `Some(t)` gives `t`, `None` gives the epoch.
pub open spec fn or_epoch(time: Option<TimestampNs>) -> TimestampNs {
    match time {
        Some(t) => t,
        None => 0,
    }
}

/// The status reported for toggle `id` once its commands are recorded: up when
/// both a commanded and an observed state are known, else down since its last
/// operable time (the epoch if none), with no error.
pub open spec fn reported_status_is(cache: &StateCache, id: Seq<char>, status: ToggleStatus) -> bool {
    match (cache.commanded_of(id), cache.observed_of(id)) {
        (Some(c), Some(o)) => status matches ToggleStatus::Up(up) && up.id@ == id && up.observed == o
            && up.commanded == c,
        _ => status matches ToggleStatus::Down(down) && down.id@ == id && down.last_operable
            == or_epoch(last_operable(cache.commanded_of(id), cache.observed_of(id)))
            && down.error.is_none(),
    }
}

/// Handles a command on toggle `id` once its actuator was asked (or not).
/// A state the actuator took is recorded as commanded at `now`; `id` must then
/// be registered. A failed actuator makes the toggle down since its last
/// operable time, with the error. Otherwise the toggle's recorded states decide
/// the status.
pub fn toggle(id: String, outcome: SetOutcome, state_cache: &mut StateCache, now: TimestampNs) -> (status: ToggleStatus)
    requires
        outcome is Applied ==> old(state_cache).is_registered(id@),
    ensures
        final(state_cache).observed_view() == old(state_cache).observed_view(),
        match outcome {
            SetOutcome::Applied(state) => final(state_cache).commanded_view() == old(
                state_cache,
            ).commanded_view().insert(id@, Some(ToggleStateSnapshot { timestamp: now, state })),
            _ => final(state_cache).commanded_view() == old(state_cache).commanded_view(),
        },
        match outcome {
            SetOutcome::Failed(err) => status matches ToggleStatus::Down(down) && down.id@ == id@
                && down.last_operable == or_epoch(
                last_operable(old(state_cache).commanded_of(id@), old(state_cache).observed_of(id@)),
            ) && down.error is Some && *down.error->Some_0 == err,
            _ => reported_status_is(&*final(state_cache), id@, status),
        },
{
    match outcome {
        SetOutcome::Failed(err) => {
            let last = match state_cache.get_last_operable(id.as_str()) {
                Some(t) => t,
                None => 0,
            };
            return ToggleStatus::Down(ToggleDownStatus::new(id, last, Some(Arc::new(err))));
        },
        SetOutcome::Applied(state) => {
            let _ = state_cache.set_commanded(id.as_str(), state, now);
        },
        SetOutcome::NotRequested => {},
    }
    match (state_cache.get_commanded(id.as_str()), state_cache.get_observed(id.as_str())) {
        (Some(commanded), Some(observed)) => ToggleStatus::Up(ToggleUpStatus::new(id, observed, commanded)),
        _ => {
            let last = match state_cache.get_last_operable(id.as_str()) {
                Some(t) => t,
                None => 0,
            };
            ToggleStatus::Down(ToggleDownStatus::new(id, last, None))
        },
    }
}

/// The last operable time of a toggle is known exactly when one of its
/// snapshots is, and it is the earliest of their times.
pub proof fn lemma_last_operable_is_earliest(
    commanded: Option<ToggleStateSnapshot>,
    observed: Option<ToggleStateSnapshot>,
)
    ensures
        last_operable(commanded, observed) is Some <==> (commanded is Some || observed is Some),
        commanded matches Some(c) ==> last_operable(commanded, observed)->Some_0 <= c.timestamp,
        observed matches Some(o) ==> last_operable(commanded, observed)->Some_0 <= o.timestamp,
        last_operable(commanded, observed) matches Some(t) ==> ((commanded matches Some(c)
            && c.timestamp == t) || (observed matches Some(o) && o.timestamp == t)),
{
}

/// Once a command on a toggle whose state has been observed is carried out,
/// the toggle is reported up, with the commanded state and time of that
/// command and the observed state it had.
pub proof fn lemma_applied_command_is_reported(
    before: &StateCache,
    after: &StateCache,
    id: Seq<char>,
    state: ToggleState,
    now: TimestampNs,
    status: ToggleStatus,
)
    requires
        before.is_registered(id),
        before.observed_of(id) is Some,
        after.commanded_view() == before.commanded_view().insert(
            id,
            Some(ToggleStateSnapshot { timestamp: now, state }),
        ),
        after.observed_view() == before.observed_view(),
        reported_status_is(after, id, status),
    ensures
        status matches ToggleStatus::Up(up) && up.id@ == id && up.commanded == (ToggleStateSnapshot {
            timestamp: now,
            state,
        }) && up.observed == before.observed_of(id)->Some_0,
{
}

/// A toggle with no recorded state at all is reported down since the epoch.
pub proof fn lemma_unrecorded_toggle_is_down(cache: &StateCache, id: Seq<char>, status: ToggleStatus)
    requires
        cache.commanded_of(id) is None,
        cache.observed_of(id) is None,
        reported_status_is(cache, id, status),
    ensures
        status matches ToggleStatus::Down(down) && down.last_operable == 0 && down.error is None,
{
}

/// What is recorded as commanded for a toggle is what a later read gives back;
/// the other toggles keep what they had.
pub proof fn lemma_commanded_read_after_write(
    before: &StateCache,
    after: &StateCache,
    id: Seq<char>,
    state: ToggleState,
    now: TimestampNs,
    other: Seq<char>,
)
    requires
        after.commanded_view() == before.commanded_view().insert(
            id,
            Some(ToggleStateSnapshot { timestamp: now, state }),
        ),
        other != id,
    ensures
        after.commanded_of(id) == Some(ToggleStateSnapshot { timestamp: now, state }),
        after.commanded_of(other) == before.commanded_of(other),
{
}

} // verus!
