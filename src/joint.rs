//! The two decisions of the spring joint: whether the spring pulls at all, and
//! whether it breaks.
use crate::binary32::{
    is_finite, is_infinite, is_nan, is_positive, lemma_magnitude_order, lemma_zero_magnitude,
    magnitude_bits, scaled_magnitude, scaled_value, sign_set, POSITIVE_INFINITY, SIGN_BIT,
};
use vstd::prelude::*;

verus! {

/// `|force| > limit` under IEEE-754 comparison: false when either side is a
/// NaN, otherwise the order of the two values on the extended real line.
pub open spec fn magnitude_exceeds(force: u32, limit: u32) -> bool {
    !is_nan(force) && !is_nan(limit) && if is_infinite(limit) {
        sign_set(limit)
    } else {
        is_infinite(force) || scaled_magnitude(force) > scaled_value(limit)
    }
}

/// The joint breaks when the stretching force, in absolute value, exceeds a
/// finite break force; an infinite break force never breaks.
pub open spec fn breaks(stretch_force: u32, break_force: u32) -> bool {
    magnitude_exceeds(stretch_force, break_force) && is_finite(break_force)
}

/// The spring exerts a force only while the anchors are apart, that is while
/// the distance between them (`distance > 0`) is strictly positive. At zero
/// distance no direction is defined and the force is zero.
pub fn spring_engages(distance: u32) -> (r: bool)
    ensures
        r == is_positive(distance),
{
    proof {
        if distance < SIGN_BIT && distance < POSITIVE_INFINITY {
            lemma_zero_magnitude(distance);
        }
    }
    0 < distance && distance <= POSITIVE_INFINITY
}

/// Whether the joint breaks, given the bit patterns of the stretching force
/// `stiffness * (distance - rest_distance)` and of the break force.
pub fn should_break(stretch_force: u32, break_force: u32) -> (r: bool)
    ensures
        r == breaks(stretch_force, break_force),
{
    let limit_bits = break_force % SIGN_BIT;
    let force_bits = stretch_force % SIGN_BIT;
    assert(limit_bits == magnitude_bits(break_force) && force_bits == magnitude_bits(stretch_force));
    if limit_bits >= POSITIVE_INFINITY || force_bits > POSITIVE_INFINITY {
        false
    } else if break_force >= SIGN_BIT {
        proof {
            lemma_zero_magnitude(break_force);
            if force_bits < POSITIVE_INFINITY {
                lemma_zero_magnitude(stretch_force);
            }
        }
        force_bits != 0 || limit_bits != 0
    } else {
        proof {
            if force_bits < POSITIVE_INFINITY {
                if force_bits > limit_bits {
                    lemma_magnitude_order(break_force, stretch_force);
                } else if force_bits < limit_bits {
                    lemma_magnitude_order(stretch_force, break_force);
                }
            }
        }
        force_bits > limit_bits
    }
}

/// At zero distance, positive or negative zero, the spring is slack: no force
/// is applied, whatever the masses, frequency, damping or velocities.
pub proof fn lemma_coincident_anchors_are_slack(distance: u32)
    requires
        is_finite(distance),
        scaled_magnitude(distance) == 0,
    ensures
        !is_positive(distance),
{
}

/// An infinite break force never breaks the joint, however large the
/// stretching force.
pub proof fn lemma_infinite_break_force_holds(stretch_force: u32, break_force: u32)
    requires
        is_infinite(break_force),
    ensures
        !breaks(stretch_force, break_force),
{
}

/// With a finite break force the comparison is strict: a stretching force
/// whose magnitude exceeds it breaks the joint, one whose magnitude equals it
/// does not.
pub proof fn lemma_finite_break_force_is_strict(stretch_force: u32, break_force: u32)
    requires
        is_finite(break_force),
        !is_nan(stretch_force),
    ensures
        is_finite(stretch_force) ==> (breaks(stretch_force, break_force) <==> scaled_magnitude(
            stretch_force,
        ) > scaled_value(break_force)),
        is_finite(stretch_force) && scaled_magnitude(stretch_force) == scaled_value(break_force)
            ==> !breaks(stretch_force, break_force),
        is_infinite(stretch_force) ==> breaks(stretch_force, break_force),
{
}

/// A break force of zero breaks the joint under any stretching force that is
/// not zero (and not a NaN), in either direction.
pub proof fn lemma_zero_break_force_breaks(stretch_force: u32)
    requires
        !is_nan(stretch_force),
        is_infinite(stretch_force) || scaled_magnitude(stretch_force) > 0,
    ensures
        breaks(stretch_force, 0),
{
}

} // verus!
