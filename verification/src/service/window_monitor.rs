use vstd::prelude::*;

verus! {

/// `wParam` of a shell-hook message that reports a newly activated window.
pub const HSHELL_WINDOWACTIVATED: usize = 4;

/// How long the foreground window must stay the same before it counts as settled.
pub const STABILIZE_DURATION_MS: u64 = 500;

/// Interval between two looks at the foreground window.
pub const CHECK_INTERVAL_MS: u64 = 50;

/// Extra delay between a settled window and the callback.
pub const POST_STABILIZATION_DELAY_MS: u64 = 150;

/// Message number asking a window to close.
pub const WM_CLOSE: u32 = 0x0010;

/// Message number telling a window it is being destroyed.
pub const WM_DESTROY: u32 = 0x0002;

/// Nanoseconds in one millisecond.
pub const NANOS_PER_MILLI: u64 = 1_000_000;

/// Where a confirmation run stands. Window handles are their numeric values;
/// 0 is the null handle. Times are monotonic-clock readings in nanoseconds.
#[derive(Debug, Clone, Copy, PartialEq, Eq)]
pub enum ConfirmPhase {
    /// Watching the foreground window; `last` has been in front since `stable_since`.
    Polling { last: usize, stable_since: u64 },
    /// `window` has settled; waiting out the post-stabilization delay.
    Settling { window: usize },
    /// The run is over.
    Finished,
}

/// What the runner of a confirmation must do next.
#[derive(Debug, Clone, Copy, PartialEq, Eq)]
pub enum ConfirmAction {
    /// Sleep this many milliseconds, then report the next observation.
    Wait(u64),
    /// Stop without a callback (a newer activation took over).
    Stop,
    /// Call the callback with this window, then stop.
    Deliver(usize),
}

/// One run of foreground-window confirmation, started by a shell activation event.
#[derive(Debug, Clone, Copy, PartialEq, Eq)]
pub struct Confirmation {
    pub phase: ConfirmPhase,
}

pub open spec fn stable_for(since: u64, now: u64) -> bool {
    now >= since && now - since >= STABILIZE_DURATION_MS * NANOS_PER_MILLI
}

/// One observation of a confirmation run: `superseded` says whether a newer
/// activation started meanwhile, `foreground` is the current foreground window.
pub open spec fn confirm_transition(
    phase: ConfirmPhase,
    superseded: bool,
    foreground: usize,
    now: u64,
) -> (ConfirmPhase, ConfirmAction) {
    match phase {
        ConfirmPhase::Finished => (ConfirmPhase::Finished, ConfirmAction::Stop),
        _ => if superseded {
            (ConfirmPhase::Finished, ConfirmAction::Stop)
        } else {
            match phase {
                ConfirmPhase::Polling { last, stable_since } => {
                    if foreground == 0 {
                        (ConfirmPhase::Polling { last: 0, stable_since: now }, ConfirmAction::Wait(CHECK_INTERVAL_MS))
                    } else if foreground == last {
                        if stable_for(stable_since, now) {
                            (ConfirmPhase::Settling { window: last }, ConfirmAction::Wait(POST_STABILIZATION_DELAY_MS))
                        } else {
                            (phase, ConfirmAction::Wait(CHECK_INTERVAL_MS))
                        }
                    } else {
                        (ConfirmPhase::Polling { last: foreground, stable_since: now }, ConfirmAction::Wait(CHECK_INTERVAL_MS))
                    }
                },
                ConfirmPhase::Settling { window } => (ConfirmPhase::Finished, ConfirmAction::Deliver(window)),
                ConfirmPhase::Finished => (ConfirmPhase::Finished, ConfirmAction::Stop),
            }
        },
    }
}

/// A phase that can be reached from a start: a settling window is never null.
pub open spec fn phase_inv(phase: ConfirmPhase) -> bool {
    match phase {
        ConfirmPhase::Settling { window } => window != 0,
        _ => true,
    }
}

impl Confirmation {
    /// Starts a run on the foreground window seen at activation time; the runner
    /// first waits one check interval.
    pub fn start(foreground: usize, now: u64) -> (r: (Confirmation, ConfirmAction))
        ensures
            r.0.phase == (ConfirmPhase::Polling { last: foreground, stable_since: now }),
            r.1 == ConfirmAction::Wait(CHECK_INTERVAL_MS),
    {
        (
            Confirmation { phase: ConfirmPhase::Polling { last: foreground, stable_since: now } },
            ConfirmAction::Wait(CHECK_INTERVAL_MS),
        )
    }

    /// Takes one observation and says what to do next.
    pub fn step(&mut self, superseded: bool, foreground: usize, now: u64) -> (action: ConfirmAction)
        ensures
            (final(self).phase, action) == confirm_transition(old(self).phase, superseded, foreground, now),
    {
        match self.phase {
            ConfirmPhase::Finished => ConfirmAction::Stop,
            ConfirmPhase::Polling { last, stable_since } => {
                if superseded {
                    self.phase = ConfirmPhase::Finished;
                    return ConfirmAction::Stop;
                }
                if foreground == 0 {
                    self.phase = ConfirmPhase::Polling { last: 0, stable_since: now };
                    ConfirmAction::Wait(CHECK_INTERVAL_MS)
                } else if foreground == last {
                    if now >= stable_since && now - stable_since >= STABILIZE_DURATION_MS * NANOS_PER_MILLI {
                        self.phase = ConfirmPhase::Settling { window: last };
                        ConfirmAction::Wait(POST_STABILIZATION_DELAY_MS)
                    } else {
                        ConfirmAction::Wait(CHECK_INTERVAL_MS)
                    }
                } else {
                    self.phase = ConfirmPhase::Polling { last: foreground, stable_since: now };
                    ConfirmAction::Wait(CHECK_INTERVAL_MS)
                }
            },
            ConfirmPhase::Settling { window } => {
                self.phase = ConfirmPhase::Finished;
                if superseded {
                    ConfirmAction::Stop
                } else {
                    ConfirmAction::Deliver(window)
                }
            },
        }
    }
}

/// A newer activation always ends a run without a callback.
pub proof fn lemma_superseded_stops(phase: ConfirmPhase, foreground: usize, now: u64)
    ensures
        confirm_transition(phase, true, foreground, now) == (ConfirmPhase::Finished, ConfirmAction::Stop),
{
}

/// Every step keeps the phase invariant, a run never delivers the null window,
/// and a delivered window is the one that had settled.
pub proof fn lemma_step_keeps_inv(phase: ConfirmPhase, superseded: bool, foreground: usize, now: u64)
    requires
        phase_inv(phase),
    ensures
        phase_inv(confirm_transition(phase, superseded, foreground, now).0),
        confirm_transition(phase, superseded, foreground, now).1 matches ConfirmAction::Deliver(w)
            ==> w != 0 && phase == (ConfirmPhase::Settling { window: w }),
{
}

/// A run starts in a phase that satisfies the invariant.
pub proof fn lemma_start_inv(foreground: usize, now: u64)
    ensures
        phase_inv(ConfirmPhase::Polling { last: foreground, stable_since: now }),
{
}

/// A window settles only after it stayed in front for the whole stabilization
/// duration; any change of window restarts the clock.
pub proof fn lemma_settles_only_when_stable(last: usize, since: u64, superseded: bool, foreground: usize, now: u64)
    ensures
        ({
            let (p, a) = confirm_transition(ConfirmPhase::Polling { last, stable_since: since }, superseded, foreground, now);
            &&& (p is Settling ==> !superseded && foreground == last && last != 0 && stable_for(since, now))
            &&& (!superseded && foreground != last ==> p == ConfirmPhase::Polling { last: foreground, stable_since: now })
            &&& (a is Deliver ==> false)
        }),
{
}

/// One observation reported to a confirmation run.
#[derive(Debug, Clone, Copy, PartialEq, Eq)]
pub struct Observation {
    pub superseded: bool,
    pub foreground: usize,
    pub now: u64,
}

/// The phase of a run started on `first` at `t0` after the observations `obs`.
pub open spec fn run_phase(first: usize, t0: u64, obs: Seq<Observation>) -> ConfirmPhase
    decreases obs.len(),
{
    if obs.len() == 0 {
        ConfirmPhase::Polling { last: first, stable_since: t0 }
    } else {
        let o = obs.last();
        confirm_transition(run_phase(first, t0, obs.drop_last()), o.superseded, o.foreground, o.now).0
    }
}

/// The foreground window at point `m` of a run: point 0 is the start, point
/// `m > 0` is observation `m - 1`.
pub open spec fn window_at(first: usize, obs: Seq<Observation>, m: int) -> usize {
    if m == 0 { first } else { obs[m - 1].foreground }
}

/// The time at point `m` of a run (see `window_at`).
pub open spec fn time_at(t0: u64, obs: Seq<Observation>, m: int) -> u64 {
    if m == 0 { t0 } else { obs[m - 1].now }
}

/// The window a polling run follows has been in front at every point since the
/// time the run records for it, and no observation so far was superseded.
pub proof fn lemma_polling_history(first: usize, t0: u64, obs: Seq<Observation>)
    ensures
        run_phase(first, t0, obs) is Polling ==> ({
            let p = run_phase(first, t0, obs);
            &&& forall|i: int| 0 <= i < obs.len() ==> !(#[trigger] obs[i]).superseded
            &&& exists|j: int| #![trigger time_at(t0, obs, j)] 0 <= j <= obs.len() && time_at(t0, obs, j) == p->stable_since
                && forall|m: int| j <= m <= obs.len() ==> #[trigger] window_at(first, obs, m) == p->last
        }),
    decreases obs.len(),
{
    if obs.len() == 0 {
        assert(time_at(t0, obs, 0) == t0);
        assert forall|m: int| 0 <= m <= obs.len() implies #[trigger] window_at(first, obs, m) == first by {
        }
    } else {
        let prev = obs.drop_last();
        lemma_polling_history(first, t0, prev);
        let o = obs.last();
        let n = obs.len() as int;
        let pp = run_phase(first, t0, prev);
        let p = run_phase(first, t0, obs);
        if p is Polling {
            assert(pp is Polling);
            assert(!o.superseded);
            assert forall|i: int| 0 <= i < obs.len() implies !(#[trigger] obs[i]).superseded by {
                if i < n - 1 {
                    assert(obs[i] == prev[i]);
                }
            }
            if o.foreground == 0 || o.foreground != pp->last {
                assert(time_at(t0, obs, n) == p->stable_since);
                assert forall|m: int| n <= m <= obs.len() implies #[trigger] window_at(first, obs, m) == p->last by {
                }
            } else {
                let j = choose|j: int| #![trigger time_at(t0, prev, j)] 0 <= j <= prev.len() && time_at(t0, prev, j) == pp->stable_since
                    && forall|m: int| j <= m <= prev.len() ==> #[trigger] window_at(first, prev, m) == pp->last;
                assert(time_at(t0, obs, j) == time_at(t0, prev, j));
                assert forall|m: int| j <= m <= obs.len() implies #[trigger] window_at(first, obs, m) == p->last by {
                    if m < n {
                        assert(window_at(first, obs, m) == window_at(first, prev, m));
                    }
                }
            }
        }
    }
}

/// A run settles on a window only if that window is not null, no observation
/// was superseded, and the window was in front at every point of an interval
/// that ends at the settling observation and spans at least the stabilization
/// duration.
pub proof fn lemma_settled_window_stayed_in_front(first: usize, t0: u64, obs: Seq<Observation>)
    ensures
        run_phase(first, t0, obs) is Settling ==> ({
            let w = run_phase(first, t0, obs)->window;
            &&& w != 0
            &&& forall|i: int| 0 <= i < obs.len() ==> !(#[trigger] obs[i]).superseded
            &&& exists|j: int| #![trigger time_at(t0, obs, j)] 0 <= j <= obs.len()
                && stable_for(time_at(t0, obs, j), time_at(t0, obs, obs.len() as int))
                && forall|m: int| j <= m <= obs.len() ==> #[trigger] window_at(first, obs, m) == w
        }),
{
    if run_phase(first, t0, obs) is Settling {
        assert(obs.len() > 0);
        let prev = obs.drop_last();
        let n = obs.len() as int;
        let o = obs.last();
        lemma_polling_history(first, t0, prev);
        let pp = run_phase(first, t0, prev);
        assert(pp is Polling);
        let w = run_phase(first, t0, obs)->window;
        assert forall|i: int| 0 <= i < obs.len() implies !(#[trigger] obs[i]).superseded by {
            if i < n - 1 {
                assert(obs[i] == prev[i]);
            }
        }
        let j = choose|j: int| #![trigger time_at(t0, prev, j)] 0 <= j <= prev.len() && time_at(t0, prev, j) == pp->stable_since
            && forall|m: int| j <= m <= prev.len() ==> #[trigger] window_at(first, prev, m) == pp->last;
        assert(time_at(t0, obs, j) == time_at(t0, prev, j));
        assert forall|m: int| j <= m <= obs.len() implies #[trigger] window_at(first, obs, m) == w by {
            if m < n {
                assert(window_at(first, obs, m) == window_at(first, prev, m));
            }
        }
    }
}

/// What the shell-hook window does with a message.
#[derive(Debug, Clone, Copy, PartialEq, Eq)]
pub enum ShellMessageAction {
    /// A window was activated: start a new confirmation run.
    ScheduleConfirmation,
    /// Close request: destroy the window.
    DestroyWindow,
    /// The window is going away: free its state and end the message loop.
    ReleaseAndQuit,
    /// Anything else goes to the default window procedure.
    Default,
}

pub open spec fn spec_shell_message_action(msg: u32, wparam: usize, shellhook_msg: Option<u32>) -> ShellMessageAction {
    if shellhook_msg == Some(msg) && wparam == HSHELL_WINDOWACTIVATED {
        ShellMessageAction::ScheduleConfirmation
    } else if msg == WM_CLOSE {
        ShellMessageAction::DestroyWindow
    } else if msg == WM_DESTROY {
        ShellMessageAction::ReleaseAndQuit
    } else {
        ShellMessageAction::Default
    }
}

/// Sorts a message of the shell-hook window. `shellhook_msg` is the registered
/// shell-hook message number once the window's state is attached, `None` before.
pub fn classify_shell_message(msg: u32, wparam: usize, shellhook_msg: Option<u32>) -> (action: ShellMessageAction)
    ensures
        action == spec_shell_message_action(msg, wparam, shellhook_msg),
{
    if let Some(sh) = shellhook_msg {
        if msg == sh && wparam == HSHELL_WINDOWACTIVATED {
            return ShellMessageAction::ScheduleConfirmation;
        }
    }
    if msg == WM_CLOSE {
        ShellMessageAction::DestroyWindow
    } else if msg == WM_DESTROY {
        ShellMessageAction::ReleaseAndQuit
    } else {
        ShellMessageAction::Default
    }
}

} // verus!
