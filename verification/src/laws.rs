//! What holds of the gates and of measurement, whatever the amplitudes.

use vstd::prelude::*;
use crate::ieee;
use crate::qc::{
    collapsed, corrected, flipped, is_basis, is_unit_draw, one_state, same_state, undefined,
    zero_state, Qbit,
};

verus! {

/// NOT is an involution: applied twice it gives back the qubit it was given,
/// bit for bit, absent components included.
pub proof fn lemma_not_involution(qc: Qbit)
    ensures
        flipped(flipped(qc)) == qc,
{
}

/// NOT exchanges the two basis states, and leaves the undefined qubit as it is.
pub proof fn lemma_not_exchanges_basis()
    ensures
        flipped(zero_state()) == one_state(),
        flipped(one_state()) == zero_state(),
        flipped(undefined()) == undefined(),
{
}

/// Measurement yields a basis state and nothing in between, whatever the
/// chance of 0 and whatever the draw.
pub proof fn lemma_collapse_is_basis(zero_probability: u64, draw: u64)
    ensures
        collapsed(zero_probability, draw) == zero_state() || collapsed(zero_probability, draw)
            == one_state(),
        is_basis(collapsed(zero_probability, draw)),
{
}

/// With no chance of 0 every draw from the unit interval reads 1; so does
/// every draw at all where the chance is not a number.
pub proof fn lemma_collapse_without_zero(zero_probability: u64, draw: u64)
    requires
        ieee::is_nan(zero_probability) || (ieee::is_zero(zero_probability) && is_unit_draw(draw)),
    ensures
        collapsed(zero_probability, draw) == one_state(),
{
}

/// Where the chance of 0 is one or more, every draw from the unit interval
/// reads 0.
pub proof fn lemma_collapse_with_certainty(zero_probability: u64, draw: u64)
    requires
        is_unit_draw(draw),
        !ieee::is_nan(zero_probability),
        !ieee::less(zero_probability, ieee::ONE),
    ensures
        collapsed(zero_probability, draw) == zero_state(),
{
}

/// A larger chance of 0 never turns a reading of 0 into a reading of 1.
pub proof fn lemma_collapse_is_monotone(p1: u64, p2: u64, draw: u64)
    requires
        ieee::less(p1, p2) || ieee::equal(p1, p2),
        collapsed(p1, draw) == zero_state(),
    ensures
        collapsed(p2, draw) == zero_state(),
{
}

/// Preparation reaches its target: whatever was measured, the correction
/// leaves a qubit equal to the target, and the target itself where that is one
/// of the two basis states bit for bit.
pub proof fn lemma_prepare_reaches_target(zero_probability: u64, draw: u64, target: Qbit)
    requires
        is_basis(target),
    ensures
        same_state(corrected(collapsed(zero_probability, draw), target), target),
        target == zero_state() || target == one_state() ==> corrected(
            collapsed(zero_probability, draw),
            target,
        ) == target,
{
}

/// Preparation does not depend on the draw: two measurements of any two
/// qubits, corrected towards one basis state, leave the same qubit.
pub proof fn lemma_prepare_ignores_draw(p1: u64, d1: u64, p2: u64, d2: u64, target: Qbit)
    requires
        target == zero_state() || target == one_state(),
    ensures
        corrected(collapsed(p1, d1), target) == corrected(collapsed(p2, d2), target),
{
}

/// The two basis states are different qubits, and neither is undefined.
pub proof fn lemma_basis_states_differ()
    ensures
        !same_state(zero_state(), one_state()),
        same_state(zero_state(), zero_state()),
        same_state(one_state(), one_state()),
        !is_basis(undefined()),
{
}

} // verus!
