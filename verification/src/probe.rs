//! The input probe's portable fallback. On a platform without a
//! modifier-key and cursor query both readings degrade permanently to inert
//! defaults: the modifier is never held and the cursor rests at the origin,
//! so the widget simply stays in its current state unless locked.

use vstd::prelude::*;

verus! {

/// Inert fallback for the modifier-key query: never held.
pub fn is_option_held() -> (held: bool)
    ensures
        !held,
{
    false
}

/// Inert fallback for the cursor query: the origin.
pub fn get_cursor_position() -> (pos: (i64, i64))
    ensures
        pos.0 == 0,
        pos.1 == 0,
{
    (0, 0)
}

} // verus!
