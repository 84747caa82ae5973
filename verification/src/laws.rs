//! Laws relating the state transitions to the readers.

use vstd::prelude::*;

use crate::state::DECIMAL_MAX_UNITS;
use crate::state::DECIMAL_MIN_UNITS;
use crate::state::StateView;
use crate::state::clamp_decimal;
use crate::state::incremented;
use crate::state::with_counter;
use crate::state::with_decimal;
use crate::state::with_gum;
use crate::state::with_ice_shape;
use crate::state::with_message;

verus! {

/// Overwriting the counter with `n` leaves a state whose counter reads back
/// as exactly `n`, and touches no other field.
pub proof fn lemma_initialize_then_get_counter(s: StateView, n: int)
    ensures
        with_counter(s, n).counter == n,
        with_counter(s, n).message == s.message,
        with_counter(s, n).gum == s.gum,
        with_counter(s, n).ice_shape == s.ice_shape,
        with_counter(s, n).decimal == s.decimal,
{
}

/// The state after `k` increments in a row.
pub open spec fn incremented_n(s: StateView, k: nat) -> StateView
    decreases k,
{
    if k == 0 {
        s
    } else {
        incremented(incremented_n(s, (k - 1) as nat))
    }
}

/// A sequence of `k` increments starting from counter value `c` leaves the
/// counter at exactly `c + k`, as long as `c + k` stays within the `i32`
/// range (at its top the counter wraps around instead); no other field
/// changes.
pub proof fn lemma_increment_counter_k_times(s: StateView, k: nat)
    requires
        i32::MIN as int <= s.counter,
        s.counter + k <= i32::MAX as int,
    ensures
        incremented_n(s, k).counter == s.counter + k,
        incremented_n(s, k).message == s.message,
        incremented_n(s, k).gum == s.gum,
        incremented_n(s, k).ice_shape == s.ice_shape,
        incremented_n(s, k).decimal == s.decimal,
    decreases k,
{
    if k > 0 {
        lemma_increment_counter_k_times(s, (k - 1) as nat);
    }
}

/// Round trip: writing a message and reading it back yields the written text,
/// and no other field changes.
pub proof fn lemma_message_round_trip(s: StateView, m: Seq<char>)
    ensures
        with_message(s, m).message == m,
        with_message(s, m).counter == s.counter,
        with_message(s, m).gum == s.gum,
        with_message(s, m).ice_shape == s.ice_shape,
        with_message(s, m).decimal == s.decimal,
{
}

/// Round trip: writing a gum and reading it back yields the written text,
/// and no other field changes.
pub proof fn lemma_gum_round_trip(s: StateView, g: Seq<char>)
    ensures
        with_gum(s, g).gum == g,
        with_gum(s, g).counter == s.counter,
        with_gum(s, g).message == s.message,
        with_gum(s, g).ice_shape == s.ice_shape,
        with_gum(s, g).decimal == s.decimal,
{
}

/// Round trip: writing an ice shape and reading it back yields the written
/// text, and no other field changes.
pub proof fn lemma_ice_shape_round_trip(s: StateView, i: Seq<char>)
    ensures
        with_ice_shape(s, i).ice_shape == i,
        with_ice_shape(s, i).counter == s.counter,
        with_ice_shape(s, i).message == s.message,
        with_ice_shape(s, i).gum == s.gum,
        with_ice_shape(s, i).decimal == s.decimal,
{
}

/// Round trip: writing a decimal value `v` and reading it back yields the
/// clamp of `v` — `max(DECIMAL_MIN_UNITS, min(DECIMAL_MAX_UNITS, v))` — and
/// no other field changes.
pub proof fn lemma_decimal_round_trip(s: StateView, v: int)
    ensures
        with_decimal(s, clamp_decimal(v)).decimal == clamp_decimal(v),
        clamp_decimal(v) == vstd::math::max(
            DECIMAL_MIN_UNITS as int,
            vstd::math::min(DECIMAL_MAX_UNITS as int, v),
        ),
        with_decimal(s, clamp_decimal(v)).counter == s.counter,
        with_decimal(s, clamp_decimal(v)).message == s.message,
        with_decimal(s, clamp_decimal(v)).gum == s.gum,
        with_decimal(s, clamp_decimal(v)).ice_shape == s.ice_shape,
{
}

/// The clamp keeps every value within the closed decimal range, returns
/// in-range values unchanged, and sends each out-of-range value to the nearer
/// bound.
pub proof fn lemma_clamp_decimal(v: int)
    ensures
        DECIMAL_MIN_UNITS as int <= clamp_decimal(v) <= DECIMAL_MAX_UNITS as int,
        DECIMAL_MIN_UNITS as int <= v <= DECIMAL_MAX_UNITS as int ==> clamp_decimal(v) == v,
        v < DECIMAL_MIN_UNITS as int ==> clamp_decimal(v) == DECIMAL_MIN_UNITS as int,
        v > DECIMAL_MAX_UNITS as int ==> clamp_decimal(v) == DECIMAL_MAX_UNITS as int,
{
}

} // verus!
