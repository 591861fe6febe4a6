//! Heading arithmetic in thousandths of a degree.
//!
//! An agent's heading is always kept normalized into `[0, FULL_TURN_MDEG)`.
//! Turning works for any operand, however large or negative, and the
//! normalization is the always-non-negative remainder, so over-rotation in
//! either direction lands back on the canonical representative.

use vstd::prelude::*;

use crate::FULL_TURN_MDEG;

verus! {

/// The canonical representative of an angle: its Euclidean remainder
/// modulo a full turn, always in `[0, FULL_TURN_MDEG)`.
pub open spec fn norm_mdeg(a: int) -> int {
    a % (FULL_TURN_MDEG as int)
}

/// An angle that is already its own canonical representative.
pub open spec fn is_normalized(a: int) -> bool {
    0 <= a < FULL_TURN_MDEG
}

/// Reduce any angle to its canonical representative.
pub fn normalize_mdeg(a: i64) -> (r: i64)
    ensures
        r == norm_mdeg(a as int),
        is_normalized(r as int),
{
    match a.checked_rem_euclid(FULL_TURN_MDEG) {
        Some(m) => {
            proof {
                vstd::arithmetic::div_mod::lemma_mod_bound(a as int, FULL_TURN_MDEG as int);
            }
            m
        },
        None => {
            // The divisor is a positive constant, so the remainder always
            // exists; this arm cannot be reached.
            proof {
                assert(false);
            }
            0
        },
    }
}

/// Turn clockwise by `delta` thousandths of a degree from a normalized
/// heading; the new heading is the normalized sum.
pub fn turn_right_mdeg(heading: i64, delta: i64) -> (r: i64)
    requires
        is_normalized(heading as int),
    ensures
        r == norm_mdeg(heading + delta),
        is_normalized(r as int),
{
    let dn = normalize_mdeg(delta);
    let r = normalize_mdeg(heading + dn);
    proof {
        vstd::arithmetic::div_mod::lemma_add_mod_noop_right(
            heading as int,
            delta as int,
            FULL_TURN_MDEG as int,
        );
    }
    r
}

/// Turn counter-clockwise by `delta` thousandths of a degree from a
/// normalized heading; the new heading is the normalized difference.
pub fn turn_left_mdeg(heading: i64, delta: i64) -> (r: i64)
    requires
        is_normalized(heading as int),
    ensures
        r == norm_mdeg(heading - delta),
        is_normalized(r as int),
{
    let dn = normalize_mdeg(delta);
    let r = normalize_mdeg(heading + (FULL_TURN_MDEG - dn));
    proof {
        let f = FULL_TURN_MDEG as int;
        vstd::arithmetic::div_mod::lemma_mod_multiples_vanish(1, heading - dn, f);
        assert(f * 1 + (heading - dn) == heading + (f - dn)) by (nonlinear_arith);
        vstd::arithmetic::div_mod::lemma_sub_mod_noop_right(heading as int, delta as int, f);
    }
    r
}

/// Normalization is idempotent: reducing an already canonical angle
/// changes nothing.
pub proof fn lemma_norm_idempotent(a: int)
    ensures
        norm_mdeg(norm_mdeg(a)) == norm_mdeg(a),
{
    vstd::arithmetic::div_mod::lemma_mod_bound(a, FULL_TURN_MDEG as int);
    vstd::arithmetic::div_mod::lemma_small_mod(norm_mdeg(a) as nat, FULL_TURN_MDEG as nat);
}

/// Turning one way and then turning back by the same amount restores a
/// normalized heading exactly, however large the amount: turns cancel
/// modulo a full turn.
pub proof fn lemma_turn_round_trip(heading: int, delta: int)
    requires
        is_normalized(heading),
    ensures
        norm_mdeg(norm_mdeg(heading - delta) + delta) == heading,
        norm_mdeg(norm_mdeg(heading + delta) - delta) == heading,
{
    let f = FULL_TURN_MDEG as int;
    vstd::arithmetic::div_mod::lemma_add_mod_noop(heading - delta, delta, f);
    vstd::arithmetic::div_mod::lemma_mod_twice(heading - delta, f);
    vstd::arithmetic::div_mod::lemma_add_mod_noop_right(norm_mdeg(heading - delta), delta, f);
    vstd::arithmetic::div_mod::lemma_sub_mod_noop(heading + delta, delta, f);
    vstd::arithmetic::div_mod::lemma_mod_twice(heading + delta, f);
    vstd::arithmetic::div_mod::lemma_sub_mod_noop_right(norm_mdeg(heading + delta), delta, f);
    vstd::arithmetic::div_mod::lemma_small_mod(heading as nat, f as nat);
}

} // verus!
