//! The debounce gate: one timestamp deciding which change notifications are
//! accepted. An event inside the debounce window is discarded without looking
//! at its paths; an event that survives the time check moves the timestamp
//! unconditionally, before any relevance filtering — so an irrelevant event
//! still consumes the debounce slot.

use vstd::prelude::*;
use crate::config::EffectiveConfig;
use crate::globs::{globset_is_match, globset_match, globset_patterns};
use crate::relevance::{is_relevant_path, is_relevant_spec};

verus! {

/// The debounce gate. `last_trigger` is the time of the last accepted event;
/// `None` until the first event, so the very first event is always accepted.
pub struct EventGate {
    pub debounce_ms: u64,
    pub last_trigger: Option<u64>,
}

/// Milliseconds elapsed from `last` to `now`; zero when the clock ran
/// backwards.
pub open spec fn elapsed_ms(last: u64, now: u64) -> int {
    if now >= last {
        now - last
    } else {
        0
    }
}

/// Whether an event at `now_ms` passes the time check.
pub open spec fn gate_accepts(g: EventGate, now_ms: u64) -> bool {
    match g.last_trigger {
        None => true,
        Some(last) => elapsed_ms(last, now_ms) >= g.debounce_ms,
    }
}

/// Whether one changed path triggers a rebuild: not ignored, and relevant.
pub open spec fn path_triggers(ignore_pats: Seq<Seq<char>>, include_ext: Seq<Seq<char>>,
    exclude_ext: Seq<Seq<char>>, path: Seq<char>) -> bool {
    !globset_match(ignore_pats, path) && is_relevant_spec(path, include_ext, exclude_ext)
}

/// Whether some path of an event triggers a rebuild under the policy.
pub open spec fn event_triggers(eff: EffectiveConfig, paths: Seq<Seq<char>>) -> bool {
    exists|i: int|
        0 <= i < paths.len() && path_triggers(
            globset_patterns(eff.ignore_set),
            eff.include_ext.deep_view(),
            eff.exclude_ext.deep_view(),
            paths[i],
        )
}

/// Debounce law: a notification inside the window opened by an accepted one
/// is discarded whole, whatever its paths hold. With `process_event`'s
/// contract: the second event never fires, its paths are never consulted, and
/// the timestamp stays at the first event's time.
pub proof fn lemma_second_event_in_window_dropped(g: EventGate, t1: u64, t2: u64)
    requires
        gate_accepts(g, t1),
        elapsed_ms(t1, t2) < g.debounce_ms,
    ensures
        !gate_accepts(
            (EventGate { debounce_ms: g.debounce_ms, last_trigger: Some(t1) }),
            t2,
        ),
{
}

impl EventGate {
    /// A fresh gate: the first event is always acceptable.
    pub fn new(debounce_ms: u64) -> (g: EventGate)
        ensures
            g.debounce_ms == debounce_ms,
            g.last_trigger is None,
    {
        EventGate { debounce_ms, last_trigger: None }
    }

    /// The time check alone: accepts the event and takes the debounce slot,
    /// or drops it and changes nothing.
    pub fn accept(&mut self, now_ms: u64) -> (accepted: bool)
        ensures
            accepted == gate_accepts(*old(self), now_ms),
            accepted ==> *final(self) == (EventGate {
                debounce_ms: old(self).debounce_ms,
                last_trigger: Some(now_ms),
            }),
            !accepted ==> *final(self) == *old(self),
    {
        let accepted = match self.last_trigger {
            None => true,
            Some(last) => {
                let elapsed: u64 = if now_ms >= last {
                    now_ms - last
                } else {
                    0
                };
                elapsed >= self.debounce_ms
            },
        };
        if accepted {
            self.last_trigger = Some(now_ms);
        }
        accepted
    }

    /// One full gate step for one change notification: the time check first —
    /// an event inside the window is discarded without reading its paths —
    /// then, for an accepted event, the ignore patterns and the relevance
    /// filter over its paths. The timestamp moves on every accepted event,
    /// relevant or not.
    pub fn process_event(&mut self, eff: &EffectiveConfig, now_ms: u64, paths: &Vec<String>) -> (fired: bool)
        ensures
            fired == (gate_accepts(*old(self), now_ms) && event_triggers(*eff, paths.deep_view())),
            gate_accepts(*old(self), now_ms) ==> *final(self) == (EventGate {
                debounce_ms: old(self).debounce_ms,
                last_trigger: Some(now_ms),
            }),
            !gate_accepts(*old(self), now_ms) ==> *final(self) == *old(self),
    {
        if !self.accept(now_ms) {
            return false;
        }
        event_is_relevant(eff, paths)
    }
}

/// Whether some path of an event survives the ignore patterns and the
/// relevance filter, so the event triggers a pipeline run.
pub fn event_is_relevant(eff: &EffectiveConfig, paths: &Vec<String>) -> (relevant: bool)
    ensures
        relevant == event_triggers(*eff, paths.deep_view()),
{
    let ghost pats = globset_patterns(eff.ignore_set);
    let ghost inc = eff.include_ext.deep_view();
    let ghost exc = eff.exclude_ext.deep_view();
    let mut i: usize = 0;
    while i < paths.len()
        invariant
            i <= paths@.len(),
            pats == globset_patterns(eff.ignore_set),
            inc == eff.include_ext.deep_view(),
            exc == eff.exclude_ext.deep_view(),
            forall|j: int| 0 <= j < i ==> !path_triggers(
                pats,
                inc,
                exc,
                #[trigger] paths.deep_view()[j],
            ),
        decreases paths@.len() - i,
    {
        let p = &paths[i];
        if !globset_is_match(&eff.ignore_set, p.as_str()) && is_relevant_path(
            p.as_str(),
            &eff.include_ext,
            &eff.exclude_ext,
        ) {
            proof {
                assert(paths.deep_view()[i as int] == paths@[i as int]@);
                assert(path_triggers(pats, inc, exc, paths.deep_view()[i as int]));
            }
            return true;
        }
        proof {
            assert(paths.deep_view()[i as int] == paths@[i as int]@);
        }
        i = i + 1;
    }
    false
}

} // verus!
