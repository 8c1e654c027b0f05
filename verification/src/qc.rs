//! The qubit, the quantities derived from it, its gates and its measurement.

use vstd::prelude::*;
use crate::ieee;

verus! {

/// A complex number: real and imaginary part, each a binary64 bit pattern.
#[derive(Clone, Copy, Debug)]
pub struct Complex {
    pub re: u64,
    pub im: u64,
}

/// A qubit: the amplitude of each of the two basis states. A component may be
/// absent; with both absent the qubit is undefined.
#[derive(Clone, Copy, Debug)]
pub struct Qbit {
    pub zero: Option<Complex>,
    pub one: Option<Complex>,
}

/// The basis state 0: amplitude one on `zero`, nothing on `one`.
pub open spec fn zero_state() -> Qbit {
    Qbit { zero: Some(Complex { re: ieee::ONE, im: ieee::ZERO }), one: None }
}

/// The basis state 1: nothing on `zero`, amplitude one on `one`.
pub open spec fn one_state() -> Qbit {
    Qbit { zero: None, one: Some(Complex { re: ieee::ONE, im: ieee::ZERO }) }
}

/// The basis state 0.
pub fn zero_qbit() -> (r: Qbit)
    ensures
        r == zero_state(),
{
    Qbit { zero: Some(Complex { re: ieee::ONE, im: ieee::ZERO }), one: None }
}

/// The basis state 1.
pub fn one_qbit() -> (r: Qbit)
    ensures
        r == one_state(),
{
    Qbit { zero: None, one: Some(Complex { re: ieee::ONE, im: ieee::ZERO }) }
}

/// The qubit with both components absent.
pub open spec fn undefined() -> Qbit {
    Qbit { zero: None, one: None }
}

/// Whether both components are present.
pub open spec fn is_defined(qc: Qbit) -> bool {
    qc.zero.is_some() && qc.one.is_some()
}

/// One step of complex arithmetic, which the caller's evaluator carries out.
#[derive(Clone, Copy, Debug)]
pub enum ComplexOp {
    /// The sum of two complex numbers.
    Add(Complex, Complex),
    /// The first complex number less the second.
    Sub(Complex, Complex),
    /// A complex number divided by a real one.
    Div(Complex, u64),
}

/// The qubit with its two components exchanged.
pub open spec fn flipped(qc: Qbit) -> Qbit {
    Qbit { zero: qc.one, one: qc.zero }
}

/// The NOT gate: exchanges the two components.
pub fn qc_not(qc: Qbit) -> (r: Qbit)
    ensures
        r == flipped(qc),
{
    Qbit { zero: qc.one, one: qc.zero }
}

/// What the Hadamard gate owes for `qc`, given the evaluator's answers: with
/// both components present, `zero` is their sum and `one` their difference,
/// each divided by the square root of two; otherwise the qubit is undefined.
pub open spec fn is_had<G: Fn(ComplexOp) -> Complex>(eval: &G, qc: Qbit, r: Qbit) -> bool {
    match (qc.zero, qc.one) {
        (Some(z), Some(o)) => exists|sum: Complex, diff: Complex, rz: Complex, ro: Complex|
            {
                &&& #[trigger] eval.ensures((ComplexOp::Add(z, o),), sum)
                &&& #[trigger] eval.ensures((ComplexOp::Div(sum, ieee::SQRT_2),), rz)
                &&& #[trigger] eval.ensures((ComplexOp::Sub(z, o),), diff)
                &&& #[trigger] eval.ensures((ComplexOp::Div(diff, ieee::SQRT_2),), ro)
                &&& r == (Qbit { zero: Some(rz), one: Some(ro) })
            },
        _ => r == undefined(),
    }
}

/// The Hadamard gate.
pub fn qc_had<G: Fn(ComplexOp) -> Complex>(qc: Qbit, eval: &G) -> (r: Qbit)
    requires
        forall|op: ComplexOp| eval.requires((op,)),
    ensures
        is_had(eval, qc, r),
        is_defined(r) == is_defined(qc),
        !is_defined(qc) ==> r == undefined(),
{
    match (qc.zero, qc.one) {
        (Some(z), Some(o)) => {
            let sum = eval(ComplexOp::Add(z, o));
            let rz = eval(ComplexOp::Div(sum, ieee::SQRT_2));
            let diff = eval(ComplexOp::Sub(z, o));
            let ro = eval(ComplexOp::Div(diff, ieee::SQRT_2));
            Qbit { zero: Some(rz), one: Some(ro) }
        },
        _ => Qbit { zero: None, one: None },
    }
}

/// One step of real arithmetic, which the caller's evaluator carries out.
#[derive(Clone, Copy, Debug)]
pub enum RealOp {
    /// The sum of two numbers.
    Add(u64, u64),
    /// The product of two numbers.
    Mul(u64, u64),
    /// The first number divided by the second.
    Div(u64, u64),
    /// The first number raised to the power of the second.
    Powf(u64, u64),
    /// The square root.
    Sqrt(u64),
    /// The arc tangent, in radians.
    Atan(u64),
    /// The cosine of an angle in radians.
    Cos(u64),
    /// The sine of an angle in radians.
    Sin(u64),
    /// The nearest whole number, halves away from zero.
    Round(u64),
    /// The number that a small unsigned integer stands for.
    FromU8(u8),
}

/// A complex number in polar form.
#[derive(Clone, Copy, Debug)]
pub struct Amplitude {
    pub magnitude: u64,
    pub relative_topology: u64,
}

/// The chance of finding each basis state on measurement.
#[derive(Clone, Copy, Debug)]
pub struct ExistenceProbability {
    pub zero: u64,
    pub one: u64,
}

/// What the phase angle of `cn` is, given the evaluator's answers: zero where
/// the real part is zero; otherwise the arc tangent of imaginary over real
/// part, with half a turn added where that is negative. The quadrant is not
/// told apart any further.
pub open spec fn is_relative_topology<F: Fn(RealOp) -> u64>(eval: &F, cn: Complex, t: u64) -> bool {
    if ieee::is_zero(cn.re) {
        t == ieee::ZERO
    } else {
        exists|ratio: u64, angle: u64|
            {
                &&& #[trigger] eval.ensures((RealOp::Div(cn.im, cn.re),), ratio)
                &&& #[trigger] eval.ensures((RealOp::Atan(ratio),), angle)
                &&& if ieee::less(angle, ieee::ZERO) {
                    eval.ensures((RealOp::Add(angle, ieee::PI),), t)
                } else {
                    t == angle
                }
            }
    }
}

/// The phase angle of a complex number.
pub fn get_relative_topology<F: Fn(RealOp) -> u64>(cn: &Complex, eval: &F) -> (t: u64)
    requires
        forall|op: RealOp| eval.requires((op,)),
    ensures
        is_relative_topology(eval, *cn, t),
{
    if !ieee::zero(cn.re) {
        let ratio: u64 = eval(RealOp::Div(cn.im, cn.re));
        let angle: u64 = eval(RealOp::Atan(ratio));
        if ieee::lt(angle, ieee::ZERO) {
            eval(RealOp::Add(angle, ieee::PI))
        } else {
            angle
        }
    } else {
        ieee::ZERO
    }
}

/// What the magnitude of `cn` is, given the evaluator's answers: the square
/// root of the sum of both parts, each raised to the power two.
pub open spec fn is_magnitude<F: Fn(RealOp) -> u64>(eval: &F, cn: Complex, m: u64) -> bool {
    exists|re2: u64, im2: u64, sum: u64|
        {
            &&& #[trigger] eval.ensures((RealOp::Powf(cn.re, ieee::TWO),), re2)
            &&& #[trigger] eval.ensures((RealOp::Powf(cn.im, ieee::TWO),), im2)
            &&& #[trigger] eval.ensures((RealOp::Add(re2, im2),), sum)
            &&& eval.ensures((RealOp::Sqrt(sum),), m)
        }
}

/// What the polar form of a component is: none of an absent one, otherwise
/// magnitude and phase angle.
pub open spec fn is_amplitude<F: Fn(RealOp) -> u64>(
    eval: &F,
    cn: Option<Complex>,
    a: Option<Amplitude>,
) -> bool {
    match cn {
        Some(c) => a.is_some() && is_magnitude(eval, c, a.unwrap().magnitude)
            && is_relative_topology(eval, c, a.unwrap().relative_topology),
        None => a.is_none(),
    }
}

/// The polar form of one component of a qubit.
pub fn get_amplitude<F: Fn(RealOp) -> u64>(cn: &Option<Complex>, eval: &F) -> (a: Option<Amplitude>)
    requires
        forall|op: RealOp| eval.requires((op,)),
    ensures
        is_amplitude(eval, *cn, a),
{
    match cn {
        Some(c) => {
            let relative_topology: u64 = get_relative_topology(c, eval);
            let re2: u64 = eval(RealOp::Powf(c.re, ieee::TWO));
            let im2: u64 = eval(RealOp::Powf(c.im, ieee::TWO));
            let sum: u64 = eval(RealOp::Add(re2, im2));
            let magnitude: u64 = eval(RealOp::Sqrt(sum));
            Some(Amplitude { magnitude, relative_topology })
        },
        None => None,
    }
}

/// What the chance of a component is, given the evaluator's answers: zero of
/// an absent one, otherwise its magnitude raised to the power two.
pub open spec fn is_probability<F: Fn(RealOp) -> u64>(eval: &F, cn: Option<Complex>, p: u64) -> bool {
    match cn {
        Some(c) => exists|m: u64|
            {
                &&& #[trigger] is_magnitude(eval, c, m)
                &&& eval.ensures((RealOp::Powf(m, ieee::TWO),), p)
            },
        None => p == ieee::ZERO,
    }
}

fn probability_of<F: Fn(RealOp) -> u64>(cn: &Option<Complex>, eval: &F) -> (p: u64)
    requires
        forall|op: RealOp| eval.requires((op,)),
    ensures
        is_probability(eval, *cn, p),
{
    match get_amplitude(cn, eval) {
        Some(amplitude) => {
            assert(is_magnitude(eval, cn.unwrap(), amplitude.magnitude));
            eval(RealOp::Powf(amplitude.magnitude, ieee::TWO))
        },
        None => ieee::ZERO,
    }
}

/// The chance of finding each basis state. Nothing is normalised: the two need
/// not add up to one.
pub fn get_existence_probability<F: Fn(RealOp) -> u64>(
    qc: Qbit,
    eval: &F,
) -> (ep: ExistenceProbability)
    requires
        forall|op: RealOp| eval.requires((op,)),
    ensures
        is_probability(eval, qc.zero, ep.zero),
        is_probability(eval, qc.one, ep.one),
{
    let zero: u64 = probability_of(&qc.zero, eval);
    let one: u64 = probability_of(&qc.one, eval);
    ExistenceProbability { zero, one }
}

/// Whether `draw` is a number from zero up to but not including one.
pub open spec fn is_unit_draw(draw: u64) -> bool {
    !ieee::less(draw, ieee::ZERO) && ieee::less(draw, ieee::ONE)
}

/// The basis state that a draw selects: 0 where the draw lies strictly below
/// the chance of 0, else 1.
pub open spec fn collapsed(zero_probability: u64, draw: u64) -> Qbit {
    if ieee::less(draw, zero_probability) {
        zero_state()
    } else {
        one_state()
    }
}

/// Collapses to a basis state, given the chances and one draw.
pub fn collapse(ep: &ExistenceProbability, draw: u64) -> (r: Qbit)
    ensures
        r == collapsed(ep.zero, draw),
        r == zero_state() || r == one_state(),
{
    if ieee::lt(draw, ep.zero) {
        zero_qbit()
    } else {
        one_qbit()
    }
}

/// Measures the qubit. `draw` is the one random number that the measurement
/// consumes, uniform from zero up to but not including one.
pub fn qc_read<F: Fn(RealOp) -> u64>(qc: Qbit, eval: &F, draw: u64) -> (r: Qbit)
    requires
        forall|op: RealOp| eval.requires((op,)),
    ensures
        exists|p: u64| #[trigger] is_probability(eval, qc.zero, p) && r == collapsed(p, draw),
        r == zero_state() || r == one_state(),
{
    let ep: ExistenceProbability = get_existence_probability(qc, eval);
    collapse(&ep, draw)
}

/// Whether two complex numbers are equal: both parts are, as numbers.
pub open spec fn same_amplitude(a: Complex, b: Complex) -> bool {
    ieee::equal(a.re, b.re) && ieee::equal(a.im, b.im)
}

impl PartialEq for Complex {
    fn eq(&self, other: &Self) -> (r: bool) {
        ieee::eq(self.re, other.re) && ieee::eq(self.im, other.im)
    }
}

impl vstd::std_specs::cmp::PartialEqSpecImpl for Complex {
    open spec fn obeys_eq_spec() -> bool {
        true
    }

    open spec fn eq_spec(&self, other: &Self) -> bool {
        same_amplitude(*self, *other)
    }
}

/// Whether two components are equal: both absent, or both present with equal
/// amplitudes.
pub open spec fn same_component(a: Option<Complex>, b: Option<Complex>) -> bool {
    match (a, b) {
        (Some(x), Some(y)) => same_amplitude(x, y),
        (None, None) => true,
        _ => false,
    }
}

fn component_eq(a: &Option<Complex>, b: &Option<Complex>) -> (r: bool)
    ensures
        r == same_component(*a, *b),
{
    match (a, b) {
        (Some(x), Some(y)) => x == y,
        (None, None) => true,
        _ => false,
    }
}

/// Whether two qubits are equal: both components are.
pub open spec fn same_state(a: Qbit, b: Qbit) -> bool {
    same_component(a.zero, b.zero) && same_component(a.one, b.one)
}

impl PartialEq for Qbit {
    fn eq(&self, other: &Self) -> (r: bool) {
        component_eq(&self.zero, &other.zero) && component_eq(&self.one, &other.one)
    }
}

impl vstd::std_specs::cmp::PartialEqSpecImpl for Qbit {
    open spec fn obeys_eq_spec() -> bool {
        true
    }

    open spec fn eq_spec(&self, other: &Self) -> bool {
        same_state(*self, *other)
    }
}

/// Whether the qubit equals one of the two basis states.
pub open spec fn is_basis(qc: Qbit) -> bool {
    same_state(qc, zero_state()) || same_state(qc, one_state())
}

/// The qubit that preparation leaves, given what the measurement read: the
/// target where the two are equal, else what was read with its components
/// exchanged.
pub open spec fn corrected(read: Qbit, target: Qbit) -> Qbit {
    if same_state(read, target) {
        target
    } else {
        flipped(read)
    }
}

/// Brings a measured qubit to the target: kept where it equals the target,
/// flipped where it does not.
pub fn correct(read: Qbit, target: Qbit) -> (r: Qbit)
    ensures
        r == corrected(read, target),
        (read == zero_state() || read == one_state()) && is_basis(target) ==> same_state(r, target),
        (read == zero_state() || read == one_state()) && (target == zero_state()
            || target == one_state()) ==> r == target,
{
    if read == target {
        target
    } else {
        qc_not(read)
    }
}

/// Prepares the target state: measures, then flips where the outcome is not
/// the target. Whatever the draw, the target comes out.
pub fn qc_write<F: Fn(RealOp) -> u64>(
    qc: Qbit,
    target_qbit: Qbit,
    eval: &F,
    draw: u64,
) -> (r: Qbit)
    requires
        forall|op: RealOp| eval.requires((op,)),
        is_basis(target_qbit),
    ensures
        same_state(r, target_qbit),
        target_qbit == zero_state() || target_qbit == one_state() ==> r == target_qbit,
{
    let read_qbit: Qbit = qc_read(qc, eval, draw);
    correct(read_qbit, target_qbit)
}

/// What the phase gate owes for `qc` and an angle, given the evaluator's
/// answers. With `one` present: its phase angle plus `rad` is the new angle,
/// and the new `one` has the old real part times the cosine of the new angle
/// as its real part and the old real part times the sine as its imaginary
/// part, while `zero` is kept. The old real part stands in for the magnitude,
/// which is exact only of an amplitude without imaginary part. With `one`
/// absent the qubit is undefined.
pub open spec fn is_phase<F: Fn(RealOp) -> u64>(eval: &F, qc: Qbit, rad: u64, r: Qbit) -> bool {
    match qc.one {
        Some(one) => exists|old_angle: u64, angle: u64, cos: u64, sin: u64, re: u64, im: u64|
            {
                &&& #[trigger] is_relative_topology(eval, one, old_angle)
                &&& #[trigger] eval.ensures((RealOp::Add(old_angle, rad),), angle)
                &&& #[trigger] eval.ensures((RealOp::Cos(angle),), cos)
                &&& #[trigger] eval.ensures((RealOp::Mul(one.re, cos),), re)
                &&& #[trigger] eval.ensures((RealOp::Sin(angle),), sin)
                &&& #[trigger] eval.ensures((RealOp::Mul(one.re, sin),), im)
                &&& r == (Qbit { zero: qc.zero, one: Some(Complex { re, im }) })
            },
        None => r == undefined(),
    }
}

/// The phase gate: turns the phase of `one` by `rad` radians, counter-clockwise
/// for a positive angle, and leaves `zero` as it is.
pub fn qc_phase<F: Fn(RealOp) -> u64>(qc: Qbit, rad: u64, eval: &F) -> (r: Qbit)
    requires
        forall|op: RealOp| eval.requires((op,)),
    ensures
        is_phase(eval, qc, rad, r),
        r.one.is_some() == qc.one.is_some(),
        qc.one.is_some() ==> r.zero == qc.zero,
        qc.one.is_none() ==> r == undefined(),
{
    match qc.one {
        Some(one) => {
            let old_angle: u64 = get_relative_topology(&one, eval);
            let angle: u64 = eval(RealOp::Add(old_angle, rad));
            let cos: u64 = eval(RealOp::Cos(angle));
            let re: u64 = eval(RealOp::Mul(one.re, cos));
            let sin: u64 = eval(RealOp::Sin(angle));
            let im: u64 = eval(RealOp::Mul(one.re, sin));
            Qbit { zero: qc.zero, one: Some(Complex { re, im }) }
        },
        None => Qbit { zero: None, one: None },
    }
}

/// What `x` rounded to `n` decimal places is, given the evaluator's answers:
/// `x` times ten to the power `n`, rounded to a whole number, divided by ten
/// to the power `n`.
pub open spec fn is_rounded<F: Fn(RealOp) -> u64>(eval: &F, x: u64, n: u8, r: u64) -> bool {
    exists|places: u64, scale: u64, scaled: u64, whole: u64|
        {
            &&& #[trigger] eval.ensures((RealOp::FromU8(n),), places)
            &&& #[trigger] eval.ensures((RealOp::Powf(ieee::TEN, places),), scale)
            &&& #[trigger] eval.ensures((RealOp::Mul(x, scale),), scaled)
            &&& #[trigger] eval.ensures((RealOp::Round(scaled),), whole)
            &&& eval.ensures((RealOp::Div(whole, scale),), r)
        }
}

/// Rounds to `n` decimal places.
pub fn round<F: Fn(RealOp) -> u64>(x: u64, n: u8, eval: &F) -> (r: u64)
    requires
        forall|op: RealOp| eval.requires((op,)),
    ensures
        is_rounded(eval, x, n, r),
{
    let places: u64 = eval(RealOp::FromU8(n));
    let scale: u64 = eval(RealOp::Powf(ieee::TEN, places));
    let scaled: u64 = eval(RealOp::Mul(x, scale));
    let whole: u64 = eval(RealOp::Round(scaled));
    eval(RealOp::Div(whole, scale))
}

} // verus!
