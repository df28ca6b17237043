//! The visibility state machine: a pure, priority-ordered decision from the
//! three inputs sampled on a tick to the widget's visibility state.

use vstd::prelude::*;

verus! {

/// Widget visibility state, recomputed fresh on every tick.
#[derive(Debug, Clone, Copy, PartialEq, Eq, Structural)]
pub enum PeekState {
    Hidden,
    Peeking,
    Expanded,
}

/// The decision table: the lock overrides everything; otherwise the widget
/// peeks exactly while the modifier is held with the cursor in the corner.
pub open spec fn decide(locked: bool, modifier_held: bool, in_corner: bool) -> PeekState {
    if locked {
        PeekState::Expanded
    } else if modifier_held && in_corner {
        PeekState::Peeking
    } else {
        PeekState::Hidden
    }
}

/// Maps one tick's sampled inputs to the widget's state, level-triggered:
/// no history enters the decision.
pub fn compute_state(locked: bool, modifier_held: bool, in_corner: bool) -> (state: PeekState)
    ensures
        state == decide(locked, modifier_held, in_corner),
{
    if locked {
        PeekState::Expanded
    } else if modifier_held && in_corner {
        PeekState::Peeking
    } else {
        PeekState::Hidden
    }
}

/// Law: a locked widget is `Expanded` irrespective of the modifier and the
/// cursor position.
pub proof fn lemma_locked_overrides(modifier_held: bool, in_corner: bool)
    ensures
        decide(true, modifier_held, in_corner) == PeekState::Expanded,
{
}

/// The lowercase tag carried by a state-change event.
pub open spec fn tag_of(state: PeekState) -> Seq<char> {
    match state {
        PeekState::Hidden => "hidden"@,
        PeekState::Peeking => "peeking"@,
        PeekState::Expanded => "expanded"@,
    }
}

impl PeekState {
    /// The lowercase tag announced to listeners when this state is entered.
    pub fn tag(&self) -> (tag: &'static str)
        ensures
            tag@ == tag_of(*self),
    {
        match self {
            PeekState::Hidden => "hidden",
            PeekState::Peeking => "peeking",
            PeekState::Expanded => "expanded",
        }
    }
}

} // verus!
