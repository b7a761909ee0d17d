//! The application state machine and the driver step.
//!
//! `App` is the single authoritative state of the dashboard: the exit flag,
//! the accent color, and the latest smoothed metric snapshot. The driver
//! owns it exclusively, consumes one event at a time from the bus, applies
//! it here, and renders exactly once per consumed event.

use vstd::prelude::*;
use crate::color::{AccentColor, spec_next_color};
use crate::event::Event;
use crate::input::{is_quit_press, is_color_press};
use crate::smoothing::zero_metrics;

verus! {

/// A fatal fault of the dashboard's own consistency rules.
#[derive(Clone, Copy, PartialEq, Eq, Structural, Debug)]
pub enum AppError {
    /// A metric snapshot arrived whose length differs from the length
    /// established by the first snapshot of the session: the core count is
    /// fixed, so this is a configuration fault, never silently truncated.
    MetricLengthMismatch { expected: usize, got: usize },
}

/// The mathematical view of the application state.
pub ghost struct StateV {
    pub exit: bool,
    pub accent: AccentColor,
    pub metrics: Seq<u64>,
    pub established: bool,
}

/// Applying one non-fatal event to a state.
pub open spec fn apply_event(s: StateV, ev: Event) -> StateV {
    match ev {
        Event::Input(sig) => StateV {
            exit: s.exit || is_quit_press(sig),
            accent: if is_color_press(sig) {
                spec_next_color(s.accent)
            } else {
                s.accent
            },
            metrics: s.metrics,
            established: s.established,
        },
        Event::Progress(v) => StateV {
            exit: s.exit,
            accent: s.accent,
            metrics: v@,
            established: true,
        },
    }
}

/// Whether an event violates the fixed-core-count rule in state `s`.
pub open spec fn event_fatal(s: StateV, ev: Event) -> bool {
    match ev {
        Event::Progress(v) => s.established && v@.len() != s.metrics.len(),
        Event::Input(_) => false,
    }
}

/// The driver run over a sequence of events: the final state, the number
/// of render calls (one per consumed event), and whether a fatal fault
/// stopped the run. Consumption stops at the first event consumed in an
/// exited state's stead — an event that sets `exit` is still consumed and
/// rendered — and a fatal event is consumed by neither state nor renderer.
pub open spec fn run_v(s: StateV, evs: Seq<Event>) -> (StateV, nat, bool)
    decreases evs.len(),
{
    if s.exit || evs.len() == 0 {
        (s, 0, false)
    } else if event_fatal(s, evs[0]) {
        (s, 0, true)
    } else {
        let rest = run_v(apply_event(s, evs[0]), evs.drop_first());
        (rest.0, rest.1 + 1, rest.2)
    }
}

/// The dashboard's state: exclusively owned by the driver, mutated only
/// by [`App::handle_event`], read-only for the renderer.
pub struct App {
    pub exit: bool,
    pub accent_color: AccentColor,
    pub latest_metrics: Vec<u64>,
    pub metrics_established: bool,
    pub cpu_brand: String,
}

impl View for App {
    type V = StateV;

    open spec fn view(&self) -> StateV {
        StateV {
            exit: self.exit,
            accent: self.accent_color,
            metrics: self.latest_metrics@,
            established: self.metrics_established,
        }
    }
}

impl App {
    /// The initial state: not exited, default accent color, a zero-filled
    /// metric vector sized to the detected core count, length not yet
    /// established (the first snapshot establishes it).
    pub fn new(core_count: usize, cpu_brand: String) -> (r: App)
        ensures
            r@.exit == false,
            r@.accent == AccentColor::Cyan,
            r@.metrics.len() == core_count,
            forall|i: int| 0 <= i < core_count ==> r@.metrics[i] == 0,
            r@.established == false,
            r.cpu_brand == cpu_brand,
    {
        App {
            exit: false,
            accent_color: AccentColor::default_color(),
            latest_metrics: zero_metrics(core_count),
            metrics_established: false,
            cpu_brand,
        }
    }

    /// Consume one event: the transition function of the state machine.
    ///
    /// A quit-key press sets the exit flag; a color-cycle press advances
    /// the accent color; any other input is an explicit no-op. A metric
    /// snapshot replaces the latest metrics wholesale and establishes the
    /// session's core count; a snapshot of a different length afterwards
    /// is a fatal fault that leaves the state unchanged.
    pub fn handle_event(&mut self, ev: Event) -> (r: Result<(), AppError>)
        ensures
            final(self).cpu_brand == old(self).cpu_brand,
            !event_fatal(old(self)@, ev) ==> r == Ok::<(), AppError>(()) && final(self)@
                == apply_event(old(self)@, ev),
            event_fatal(old(self)@, ev) ==> final(self)@ == old(self)@ && (ev matches
                Event::Progress(v) && r == Err::<(), AppError>(
                AppError::MetricLengthMismatch {
                    expected: old(self).latest_metrics.len(),
                    got: v.len(),
                },
            )),
    {
        match ev {
            Event::Input(sig) => {
                if sig.quit_press() {
                    self.exit = true;
                } else if sig.color_press() {
                    self.accent_color = self.accent_color.next();
                }
                Ok(())
            },
            Event::Progress(v) => {
                if self.metrics_established && v.len() != self.latest_metrics.len() {
                    Err(
                        AppError::MetricLengthMismatch {
                            expected: self.latest_metrics.len(),
                            got: v.len(),
                        },
                    )
                } else {
                    self.latest_metrics = v;
                    self.metrics_established = true;
                    Ok(())
                }
            },
        }
    }

    /// The driver loop over an already-gathered sequence of events: while
    /// not exited, consume the next event and count one render for it.
    /// Returns the number of render calls, or the fatal fault that
    /// stopped the run. This is the loop the live driver runs against the
    /// event channel, on a sequence fixed in advance.
    pub fn run_events(&mut self, events: Vec<Event>) -> (r: Result<usize, AppError>)
        ensures
            final(self).cpu_brand == old(self).cpu_brand,
            final(self)@ == run_v(old(self)@, events@).0,
            !run_v(old(self)@, events@).2 ==> (r matches Ok(n) && n == run_v(
                old(self)@,
                events@,
            ).1),
            run_v(old(self)@, events@).2 ==> (r matches Err(e) && (events@[run_v(
                old(self)@,
                events@,
            ).1 as int] matches Event::Progress(v) && e == (AppError::MetricLengthMismatch {
                expected: run_v(old(self)@, events@).0.metrics.len() as usize,
                got: v.len() as usize,
            }))),
    {
        let ghost s0 = self@;
        let ghost evs0 = events@;
        let mut queue = events;
        let total: usize = queue.len();
        let ghost mut i: int = 0;
        let mut consumed: usize = 0;
        proof {
            assert(evs0.skip(0) =~= evs0);
        }
        while queue.len() > 0 && !self.exit
            invariant
                self.cpu_brand == old(self).cpu_brand,
                s0 == old(self)@,
                evs0 == events@,
                evs0.len() == total,
                0 <= i <= evs0.len(),
                consumed == i,
                queue@ == evs0.skip(i),
                run_v(s0, evs0).0 == run_v(self@, evs0.skip(i)).0,
                run_v(s0, evs0).1 == i + run_v(self@, evs0.skip(i)).1,
                run_v(s0, evs0).2 == run_v(self@, evs0.skip(i)).2,
            decreases queue@.len(),
        {
            let ev = queue.remove(0);
            assert(ev == evs0[i]);
            assert(evs0.skip(i).drop_first() =~= evs0.skip(i + 1));
            assert(queue@ =~= evs0.skip(i + 1));
            let ghost pre = self@;
            match self.handle_event(ev) {
                Ok(_) => {
                    proof {
                        assert(run_v(pre, evs0.skip(i)) == {
                            let rest = run_v(apply_event(pre, evs0.skip(i)[0]), evs0.skip(
                                i,
                            ).drop_first());
                            (rest.0, rest.1 + 1, rest.2)
                        });
                        i = i + 1;
                    }
                    consumed = consumed + 1;
                },
                Err(e) => {
                    proof {
                        assert(event_fatal(pre, evs0.skip(i)[0]));
                        assert(run_v(pre, evs0.skip(i)) == (pre, 0nat, true));
                        assert(evs0[i] == ev);
                    }
                    return Err(e);
                },
            }
        }
        proof {
            if self.exit {
                assert(run_v(self@, evs0.skip(i)) == (self@, 0nat, false));
            } else {
                assert(evs0.skip(i).len() == 0);
                assert(run_v(self@, evs0.skip(i)) == (self@, 0nat, false));
            }
        }
        Ok(consumed)
    }
}

} // verus!
