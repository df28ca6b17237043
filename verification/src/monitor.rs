//! Bookkeeping of the polling monitor: the shared control flags with their
//! single-instance guard, and the per-session history that turns each
//! tick's samples into at most one window move and one emitted event.
//!
//! The loop itself (thread, sleep, window moves, event emission) belongs to
//! the surrounding application; it owns a [`MonitorSession`] and calls
//! [`MonitorSession::tick`] once per period with the sampled inputs.

use crate::geometry::{WindowPositions, MAX_DISPLAY_EDGE};
use crate::state::{decide, compute_state, PeekState};
use vstd::prelude::*;

verus! {

/// Which anchor a state change moves the window to. Both visible states
/// share the on-screen anchor; only `Hidden` moves off screen.
#[derive(Debug, Clone, Copy, PartialEq, Eq, Structural)]
pub enum MoveTarget {
    HiddenPosition,
    PeekPosition,
}

/// The side effects one tick asks of the collaborators: move the window to
/// `target` and emit one event carrying `state`'s tag.
#[derive(Debug, Clone, Copy, PartialEq, Eq, Structural)]
pub struct StateChange {
    pub state: PeekState,
    pub target: MoveTarget,
}

/// The inputs sampled at the top of one tick.
#[derive(Debug, Clone, Copy, PartialEq, Eq, Structural)]
pub struct Sample {
    pub locked: bool,
    pub modifier_held: bool,
    pub cursor_x: i64,
    pub cursor_y: i64,
}

/// Process-wide control flags, owned by the subsystem's controller: the
/// user-driven lock override and the guard that at most one monitor loop
/// runs. The click handler writes `locked`; the loop reads both.
#[derive(Debug, Clone, Copy, PartialEq, Eq, Structural)]
pub struct PeekFlags {
    pub locked: bool,
    pub active: bool,
}

/// The anchor a freshly computed state moves the window to.
pub open spec fn move_target_of(state: PeekState) -> MoveTarget {
    match state {
        PeekState::Hidden => MoveTarget::HiddenPosition,
        PeekState::Peeking => MoveTarget::PeekPosition,
        PeekState::Expanded => MoveTarget::PeekPosition,
    }
}

/// What accepting a start does to the flags: the guard is set, and the call
/// is accepted exactly when it was clear before.
pub open spec fn start_spec(flags: PeekFlags) -> (PeekFlags, bool) {
    (PeekFlags { locked: flags.locked, active: true }, !flags.active)
}

impl PeekFlags {
    /// Fresh flags: unlocked, no monitor running.
    pub fn new() -> (flags: PeekFlags)
        ensures
            !flags.locked,
            !flags.active,
    {
        PeekFlags { locked: false, active: false }
    }
}

/// Sets the lock override: the widget is forced expanded from the next tick
/// on, whatever the probe reports, until `unlock_and_hide`.
pub fn lock_expanded(flags: &mut PeekFlags)
    ensures
        final(flags).locked,
        final(flags).active == old(flags).active,
{
    flags.locked = true;
}

/// Clears the lock override: from the next tick on the state is recomputed
/// purely from the sampled inputs.
pub fn unlock_and_hide(flags: &mut PeekFlags)
    ensures
        !final(flags).locked,
        final(flags).active == old(flags).active,
{
    flags.locked = false;
}

/// Reads the lock override.
pub fn is_locked(flags: &PeekFlags) -> (locked: bool)
    ensures
        locked == flags.locked,
{
    flags.locked
}

/// Test-and-set start guard: accepted exactly when no monitor was running,
/// so two consecutive starts without an intervening stop accept only the
/// first. The caller runs the loop only on an accepted start.
pub fn start_monitoring(flags: &mut PeekFlags) -> (started: bool)
    ensures
        (*final(flags), started) == start_spec(*old(flags)),
{
    let started = !flags.active;
    flags.active = true;
    started
}

/// Asks the running loop to stop; the loop observes the cleared guard at
/// the top of its next tick. Also called by the loop itself when startup
/// fails, so that a later start is accepted again.
pub fn stop_monitoring(flags: &mut PeekFlags)
    ensures
        !final(flags).active,
        final(flags).locked == old(flags).locked,
{
    flags.active = false;
}

/// Law: of two consecutive starts without an intervening stop, the second
/// is refused and leaves the flags as the first set them.
pub proof fn lemma_single_instance(flags: PeekFlags)
    ensures
        ({
            let (once, first) = start_spec(flags);
            let (twice, second) = start_spec(once);
            !second && twice == once
        }),
{
}

/// One monitoring session's loop-local history: the geometry captured at
/// start and the previous tick's values, used only to suppress redundant
/// side effects and for diagnostics. The initial state is the `Expanded`
/// sentinel, so the first tick reports a change unless it also computes
/// `Expanded`.
#[derive(Debug, Clone, Copy, PartialEq, Eq, Structural)]
pub struct MonitorSession {
    pub positions: WindowPositions,
    pub last_state: PeekState,
    pub last_modifier_held: bool,
    pub last_in_corner: bool,
    pub tick_count: u32,
}

/// The session and the reported change after one tick: the state is decided
/// from the sample alone, the history fields take the sample's values, and
/// a change is reported exactly when the state differs from the previous
/// tick's.
pub open spec fn tick_spec(session: MonitorSession, sample: Sample) -> (MonitorSession, Option<
    StateChange,
>) {
    let in_corner = session.positions.in_corner_spec(
        sample.cursor_x as int,
        sample.cursor_y as int,
    );
    let state = decide(sample.locked, sample.modifier_held, in_corner);
    let next = MonitorSession {
        positions: session.positions,
        last_state: state,
        last_modifier_held: sample.modifier_held,
        last_in_corner: in_corner,
        tick_count: if session.tick_count == u32::MAX {
            0u32
        } else {
            (session.tick_count + 1) as u32
        },
    };
    let change = if state != session.last_state {
        Some(StateChange { state, target: move_target_of(state) })
    } else {
        None
    };
    (next, change)
}

/// The final session and every reported change, in order, after a run of
/// ticks, oldest sample first.
pub open spec fn run(session: MonitorSession, samples: Seq<Sample>) -> (MonitorSession, Seq<
    StateChange,
>)
    decreases samples.len(),
{
    if samples.len() == 0 {
        (session, Seq::empty())
    } else {
        let (mid, change) = tick_spec(session, samples[0]);
        let (end, rest) = run(mid, samples.drop_first());
        (
            end,
            match change {
                Some(c) => seq![c] + rest,
                None => rest,
            },
        )
    }
}

impl MonitorSession {
    /// The geometry stays within the accepted display range.
    pub open spec fn wf(self) -> bool {
        self.positions.wf()
    }

    /// Opens a session from the primary display's dimensions, with the
    /// `Expanded` startup sentinel and cleared history.
    pub fn new(screen_width: i64, screen_height: i64) -> (session: MonitorSession)
        requires
            0 <= screen_width <= MAX_DISPLAY_EDGE,
            0 <= screen_height <= MAX_DISPLAY_EDGE,
        ensures
            session.wf(),
            session.positions.screen_width == screen_width,
            session.positions.screen_height == screen_height,
            session.last_state == PeekState::Expanded,
            !session.last_modifier_held,
            !session.last_in_corner,
            session.tick_count == 0,
    {
        MonitorSession {
            positions: WindowPositions::new(screen_width, screen_height),
            last_state: PeekState::Expanded,
            last_modifier_held: false,
            last_in_corner: false,
            tick_count: 0,
        }
    }

    /// One tick: decides the state from the sampled inputs and reports the
    /// move and emission owed, or `None` when the state is unchanged (the
    /// idempotent no-op).
    pub fn tick(
        &mut self,
        locked: bool,
        modifier_held: bool,
        cursor_x: i64,
        cursor_y: i64,
    ) -> (change: Option<StateChange>)
        requires
            old(self).wf(),
        ensures
            (*final(self), change) == tick_spec(
                *old(self),
                Sample { locked, modifier_held, cursor_x, cursor_y },
            ),
            final(self).wf(),
            change is None <==> decide(
                locked,
                modifier_held,
                old(self).positions.in_corner_spec(cursor_x as int, cursor_y as int),
            ) == old(self).last_state,
    {
        let in_corner = self.positions.is_cursor_in_corner(cursor_x, cursor_y);
        let state = compute_state(locked, modifier_held, in_corner);
        self.last_modifier_held = modifier_held;
        self.last_in_corner = in_corner;
        self.tick_count = if self.tick_count == u32::MAX {
            0
        } else {
            self.tick_count + 1
        };
        if state != self.last_state {
            self.last_state = state;
            let target = match state {
                PeekState::Hidden => MoveTarget::HiddenPosition,
                PeekState::Peeking => MoveTarget::PeekPosition,
                PeekState::Expanded => MoveTarget::PeekPosition,
            };
            Some(StateChange { state, target })
        } else {
            None
        }
    }
}

/// Law: a tick whose computed state equals the previous tick's state causes
/// neither a move nor an emission, and every tick leaves the computed state
/// as the session's new previous state.
pub proof fn lemma_idempotent_tick(session: MonitorSession, sample: Sample)
    ensures
        ({
            let in_corner = session.positions.in_corner_spec(
                sample.cursor_x as int,
                sample.cursor_y as int,
            );
            let state = decide(sample.locked, sample.modifier_held, in_corner);
            &&& (tick_spec(session, sample).1 is None <==> state == session.last_state)
            &&& tick_spec(session, sample).0.last_state == state
        }),
{
}

/// Law: the state a tick computes depends only on that tick's sample and
/// the fixed geometry, never on the session's history; in particular, the
/// first tick after an unlock recomputes the state purely from its inputs.
pub proof fn lemma_tick_ignores_history(a: MonitorSession, b: MonitorSession, sample: Sample)
    requires
        a.positions == b.positions,
    ensures
        tick_spec(a, sample).0.last_state == tick_spec(b, sample).0.last_state,
{
}

/// Law: once locked, toggling the modifier and the cursor across any run of
/// ticks produces no state change: an expanded session stays expanded and
/// reports nothing while every sample has the lock set.
pub proof fn lemma_lock_override_persists(session: MonitorSession, samples: Seq<Sample>)
    requires
        session.last_state == PeekState::Expanded,
        forall|i: int| 0 <= i < samples.len() ==> (#[trigger] samples[i]).locked,
    ensures
        run(session, samples).0.last_state == PeekState::Expanded,
        run(session, samples).1 == Seq::<StateChange>::empty(),
    decreases samples.len(),
{
    if samples.len() > 0 {
        let (mid, change) = tick_spec(session, samples[0]);
        assert(change is None);
        assert(forall|i: int|
            0 <= i < samples.drop_first().len() ==> (#[trigger] samples.drop_first()[i]).locked);
        lemma_lock_override_persists(mid, samples.drop_first());
    }
}

} // verus!
