//! Update-mode policy: a pure decision, per tick, of whether application
//! state should be recomputed now and when the loop should next wake.
//!
//! Times are carried as milliseconds on a monotonic clock supplied by the
//! caller; the policy itself never reads a clock.

use vstd::prelude::*;

verus! {

/// Governs whether and when application state is recomputed.
///
/// `Continuous` recomputes every tick and keeps the loop polling at full
/// rate. `Reactive` and `ReactiveLowPower` recompute only on triggering
/// input or once `max_wait_ms` has elapsed since the last recomputation.
/// The two reactive variants decide identically; the low-power one exists
/// to be selected while the window is unfocused, which is a configuration
/// concern outside this policy.
#[derive(Clone, Copy, Debug, PartialEq, Eq, Structural)]
pub enum UpdateMode {
    Continuous,
    Reactive { max_wait_ms: u64 },
    ReactiveLowPower { max_wait_ms: u64 },
}

/// When the loop should next wake if nothing else happens.
#[derive(Clone, Copy, Debug, PartialEq, Eq, Structural)]
pub enum NextWake {
    /// Run the next tick immediately; never sleep.
    Immediate,
    /// Sleep until the given instant, in milliseconds.
    At { deadline_ms: u64 },
}

/// The policy's verdict for one tick.
#[derive(Clone, Copy, Debug, PartialEq, Eq, Structural)]
pub struct UpdateDecision {
    pub should_update: bool,
    pub next_wake: NextWake,
}

/// Which update mode applies in each focus state.
///
/// Selecting the mode by focus is configuration, not policy: the loop
/// snapshots focus once per tick and picks the corresponding mode.
#[derive(Clone, Copy, Debug, PartialEq, Eq, Structural)]
pub struct UpdateModeSettings {
    pub focused_mode: UpdateMode,
    pub unfocused_mode: UpdateMode,
}

/// `a + b`, stopping at `u64::MAX` instead of wrapping.
pub open spec fn sat_add_u64(a: u64, b: u64) -> u64 {
    if a + b <= u64::MAX {
        (a + b) as u64
    } else {
        u64::MAX
    }
}

/// The deadline the reactive modes sleep until: one full `max_wait` after
/// the last recomputation.
pub open spec fn spec_reactive_deadline(last_update_ms: u64, max_wait_ms: u64) -> u64 {
    sat_add_u64(last_update_ms, max_wait_ms)
}

/// Mathematical model of [`decide`]. Focus does not appear here: the
/// reactive variants are deliberately indistinguishable to the decision.
pub open spec fn spec_decide(
    mode: UpdateMode,
    now_ms: u64,
    last_update_ms: u64,
    had_triggering_input: bool,
) -> UpdateDecision {
    match mode {
        UpdateMode::Continuous => UpdateDecision {
            should_update: true,
            next_wake: NextWake::Immediate,
        },
        UpdateMode::Reactive { max_wait_ms } => UpdateDecision {
            should_update: had_triggering_input || now_ms - last_update_ms >= max_wait_ms,
            next_wake: NextWake::At {
                deadline_ms: spec_reactive_deadline(last_update_ms, max_wait_ms),
            },
        },
        UpdateMode::ReactiveLowPower { max_wait_ms } => UpdateDecision {
            should_update: had_triggering_input || now_ms - last_update_ms >= max_wait_ms,
            next_wake: NextWake::At {
                deadline_ms: spec_reactive_deadline(last_update_ms, max_wait_ms),
            },
        },
    }
}

impl UpdateModeSettings {
    /// The mode that applies while the window's focus state is `focused`.
    pub fn update_mode(&self, focused: bool) -> (mode: UpdateMode)
        ensures
            mode == self.spec_update_mode(focused),
    {
        if focused {
            self.focused_mode
        } else {
            self.unfocused_mode
        }
    }

    pub open spec fn spec_update_mode(&self, focused: bool) -> UpdateMode {
        if focused {
            self.focused_mode
        } else {
            self.unfocused_mode
        }
    }
}

/// Decides, from the mode in force and what this tick saw, whether to
/// recompute application state now and when to wake next.
///
/// `focused` is accepted because the caller has it in hand when selecting
/// the mode, but the decision provably does not depend on it: the result
/// equals [`spec_decide`], which never mentions focus.
pub fn decide(
    mode: UpdateMode,
    focused: bool,
    now_ms: u64,
    last_update_ms: u64,
    had_triggering_input: bool,
) -> (d: UpdateDecision)
    requires
        last_update_ms <= now_ms,
    ensures
        d == spec_decide(mode, now_ms, last_update_ms, had_triggering_input),
{
    let _ = focused;
    match mode {
        UpdateMode::Continuous => UpdateDecision {
            should_update: true,
            next_wake: NextWake::Immediate,
        },
        UpdateMode::Reactive { max_wait_ms } | UpdateMode::ReactiveLowPower { max_wait_ms } => {
            let elapsed = now_ms - last_update_ms;
            UpdateDecision {
                should_update: had_triggering_input || elapsed >= max_wait_ms,
                next_wake: NextWake::At { deadline_ms: last_update_ms.saturating_add(max_wait_ms) },
            }
        },
    }
}

/// With no triggering input, a reactive mode's next deadline is exactly
/// `last_update + max_wait`, and once that much time has elapsed the
/// decision is to update even though no input arrived.
pub proof fn lemma_reactive_deadline(now_ms: u64, last_update_ms: u64, max_wait_ms: u64)
    requires
        last_update_ms <= now_ms,
        last_update_ms + max_wait_ms <= u64::MAX,
    ensures
        spec_decide(UpdateMode::Reactive { max_wait_ms }, now_ms, last_update_ms, false).next_wake
            == (NextWake::At { deadline_ms: (last_update_ms + max_wait_ms) as u64 }),
        now_ms >= last_update_ms + max_wait_ms ==> spec_decide(
            UpdateMode::Reactive { max_wait_ms },
            now_ms,
            last_update_ms,
            false,
        ).should_update,
{
}

} // verus!
