//! System-wide laws of the dashboard's state machine and driver, proved
//! once for every event sequence.

use vstd::prelude::*;
use crate::app::{StateV, apply_event, event_fatal, run_v};
use crate::event::Event;
use crate::input::is_quit_press;

verus! {

/// Whether an event is a press of the quit key.
pub open spec fn is_quit_event(ev: Event) -> bool {
    ev matches Event::Input(sig) && is_quit_press(sig)
}

/// Whether any event of the sequence is a press of the quit key.
pub open spec fn has_quit_press(evs: Seq<Event>) -> bool {
    exists|k: int| 0 <= k < evs.len() && is_quit_event(#[trigger] evs[k])
}

/// Law: over any event sequence that contains no quit-key press, the exit
/// flag stays false — whether or not the run stops early on a fault.
pub proof fn lemma_no_quit_no_exit(s: StateV, evs: Seq<Event>)
    requires
        !s.exit,
        !has_quit_press(evs),
    ensures
        !run_v(s, evs).0.exit,
    decreases evs.len(),
{
    if evs.len() == 0 || event_fatal(s, evs[0]) {
    } else {
        let s1 = apply_event(s, evs[0]);
        assert(!is_quit_event(evs[0]));
        assert(!s1.exit);
        let rest = evs.drop_first();
        assert(!has_quit_press(rest)) by {
            if has_quit_press(rest) {
                let k = choose|k: int| 0 <= k < rest.len() && is_quit_event(#[trigger] rest[k]);
                assert(evs[k + 1] == rest[k]);
                assert(has_quit_press(evs));
            }
        }
        lemma_no_quit_no_exit(s1, rest);
    }
}

/// Law: a consumed quit-key press alone reaches the terminal state — the
/// transition sets the exit flag with no further event needed.
pub proof fn lemma_quit_press_exits(s: StateV, ev: Event)
    requires
        is_quit_event(ev),
    ensures
        apply_event(s, ev).exit,
{
}

/// Law: the terminal state is absorbing — once the exit flag is set, a
/// run consumes no further event, renders nothing, and cannot fault.
pub proof fn lemma_exit_is_terminal(s: StateV, evs: Seq<Event>)
    requires
        s.exit,
    ensures
        run_v(s, evs) == (s, 0nat, false),
{
}

/// Law: once a snapshot has established the session's core count, the
/// metric vector's length never changes again — a mismatched snapshot is
/// rejected as a fault, never applied.
pub proof fn lemma_established_length_stable(s: StateV, evs: Seq<Event>)
    requires
        s.established,
    ensures
        run_v(s, evs).0.established,
        run_v(s, evs).0.metrics.len() == s.metrics.len(),
    decreases evs.len(),
{
    if s.exit || evs.len() == 0 || event_fatal(s, evs[0]) {
    } else {
        let s1 = apply_event(s, evs[0]);
        assert(s1.established && s1.metrics.len() == s.metrics.len());
        lemma_established_length_stable(s1, evs.drop_first());
    }
}

/// Law: one render per consumed event, never batched, never skipped — a
/// faultless run over a sequence without a quit press renders exactly as
/// many times as it has events.
pub proof fn lemma_render_per_event(s: StateV, evs: Seq<Event>)
    requires
        !s.exit,
        !has_quit_press(evs),
        !run_v(s, evs).2,
    ensures
        run_v(s, evs).1 == evs.len(),
    decreases evs.len(),
{
    if evs.len() == 0 {
    } else {
        assert(!event_fatal(s, evs[0]));
        let s1 = apply_event(s, evs[0]);
        assert(!is_quit_event(evs[0]));
        assert(!s1.exit);
        let rest = evs.drop_first();
        assert(!has_quit_press(rest)) by {
            if has_quit_press(rest) {
                let k = choose|k: int| 0 <= k < rest.len() && is_quit_event(#[trigger] rest[k]);
                assert(evs[k + 1] == rest[k]);
                assert(has_quit_press(evs));
            }
        }
        lemma_render_per_event(s1, rest);
    }
}

/// Law: a faultless run whose first quit press stands at position `k`
/// consumes and renders exactly the `k + 1` events up to and including
/// that press, and ends in the terminal state.
pub proof fn lemma_renders_until_quit(s: StateV, evs: Seq<Event>, k: int)
    requires
        !s.exit,
        0 <= k < evs.len(),
        is_quit_event(evs[k]),
        forall|j: int| 0 <= j < k ==> !is_quit_event(#[trigger] evs[j]),
        !run_v(s, evs).2,
    ensures
        run_v(s, evs).0.exit,
        run_v(s, evs).1 == k + 1,
    decreases k,
{
    if k == 0 {
        let s1 = apply_event(s, evs[0]);
        assert(s1.exit);
        assert(run_v(s1, evs.drop_first()) == (s1, 0nat, false));
    } else {
        assert(!event_fatal(s, evs[0]));
        let s1 = apply_event(s, evs[0]);
        assert(!is_quit_event(evs[0]));
        assert(!s1.exit);
        let rest = evs.drop_first();
        assert(rest[k - 1] == evs[k]);
        assert(forall|j: int| 0 <= j < k - 1 ==> !is_quit_event(#[trigger] rest[j])) by {
            assert(forall|j: int| 0 <= j < k - 1 ==> rest[j] == #[trigger] evs[j + 1]);
        }
        lemma_renders_until_quit(s1, rest, k - 1);
    }
}

} // verus!
