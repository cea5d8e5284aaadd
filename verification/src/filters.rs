//! Trusted boundary to the two injected filter stages: the adaptive low-pass
//! smoother of the `dyn_smooth` crate and the deadband filter of the
//! `backlash` crate. Each wrapper's contract states what the filter's source
//! shows of the call; the orchestration around them is verified against these
//! contracts.

use vstd::prelude::*;
use backlash::Backlash;
use dyn_smooth::DynamicSmootherEcoI32;

verus! {

#[verifier::external_type_specification]
#[verifier::external_body]
pub struct ExDynamicSmootherEcoI32(DynamicSmootherEcoI32);

#[verifier::external_type_specification]
#[verifier::external_body]
#[verifier::reject_recursive_types(T)]
pub struct ExBacklash<T: Default>(Backlash<T>);

/// The observable state of a `Backlash<i32>` deadband filter: its current
/// output value, half the configured deadband width, and the two borders the
/// next input is compared against.
pub ghost struct BacklashModel {
    pub held: int,
    pub half: int,
    pub lower: int,
    pub upper: int,
}

/// The state that a `Backlash<i32>` value holds.
pub uninterp spec fn backlash_state(b: Backlash<i32>) -> BacklashModel;

/// How `Backlash::update` moves the filter state for input `v`: the output
/// only changes once the input has crossed a border, and the borders then
/// trail the input by the deadband width.
pub open spec fn backlash_step(m: BacklashModel, v: int) -> BacklashModel {
    if v > m.upper {
        BacklashModel { held: v - m.half, lower: v - 2 * m.half, upper: v, half: m.half }
    } else if v < m.lower {
        BacklashModel { held: v + m.half, lower: v, upper: v + 2 * m.half, half: m.half }
    } else {
        m
    }
}

/// Relies on `Backlash::<i32>::new`: the filter starts with output value 0,
/// records half the given deadband width (truncating division), and centers
/// the borders around 0.
#[verifier::external_body]
pub(crate) fn backlash_new(deadband_width: i32) -> (b: Backlash<i32>)
    requires
        0 <= deadband_width <= 0x800000,
    ensures
        backlash_state(b) == (BacklashModel {
            held: 0,
            half: deadband_width as int / 2,
            lower: -(deadband_width as int / 2),
            upper: deadband_width as int / 2,
        }),
{
    Backlash::new(deadband_width)
}

/// Relies on `Backlash::<i32>::update`: an input beyond a border moves the
/// output value and both borders as `backlash_step` says, any other input
/// leaves the state untouched, and the call returns the (possibly moved)
/// output value. The bounds keep the filter's internal `i32` arithmetic free
/// of overflow.
#[verifier::external_body]
pub(crate) fn backlash_update(b: &mut Backlash<i32>, value: i32) -> (r: i32)
    requires
        -0x2000000 <= value <= 0x2000000,
        0 <= backlash_state(*old(b)).half <= 0x800000,
    ensures
        backlash_state(*final(b)) == backlash_step(backlash_state(*old(b)), value as int),
        r as int == backlash_state(*final(b)).held,
{
    b.update(value)
}

/// The overall (current) filter coefficient that a smoother state holds, as
/// `DynamicSmootherEcoI32::g` returns it.
pub uninterp spec fn smoother_coeff(s: DynamicSmootherEcoI32) -> int;

/// The base (floor) filter coefficient that a smoother state holds, as
/// `DynamicSmootherEcoI32::g0` returns it.
pub uninterp spec fn smoother_floor(s: DynamicSmootherEcoI32) -> int;

/// The smoother state lies in the envelope that `smoother_new` establishes
/// and `smoother_tick` preserves: both internal low-pass signals stay within
/// the fixed-point headroom for inputs of at most 2^17 in magnitude, the
/// sensitivity is small and non-negative, and the coefficients lie in
/// `[0, 65536]` (1.0 in the crate's 16 fractional bits). Inside it, `tick`
/// neither overflows nor loses bits in its casts.
pub uninterp spec fn smoother_ok(s: DynamicSmootherEcoI32) -> bool;

/// Relies on `DynamicSmootherEcoI32::new`: with a non-negative base
/// frequency, a sampling rate of at least 1.0 (in 16 fractional bits) and at
/// least 17 times the base frequency, and a small non-negative sensitivity,
/// the derived base coefficient lands in `[0, 65536]`, both low-pass signals
/// start at 0, and the state is inside the envelope of `smoother_ok`.
#[verifier::external_body]
pub(crate) fn smoother_new(basefreq: i32, samplerate: i32, sensitivity: i32) -> (s:
    DynamicSmootherEcoI32)
    requires
        0 <= basefreq,
        samplerate >= 0x10000,
        samplerate >= 17 * basefreq,
        0 <= sensitivity <= 1310,
    ensures
        smoother_ok(s),
        smoother_coeff(s) == smoother_floor(s),
        0 <= smoother_floor(s) <= 0x10000,
{
    DynamicSmootherEcoI32::new(basefreq, samplerate, sensitivity)
}

/// Relies on `DynamicSmootherEcoI32::tick`: inside the envelope of
/// `smoother_ok` and for an input of at most 2^17 in magnitude, the call
/// stays inside the envelope, keeps the base coefficient, clamps the overall
/// coefficient to `[base, 65536]`, and returns a smoothed value that is again
/// at most 2^17 in magnitude.
#[verifier::external_body]
pub(crate) fn smoother_tick(s: &mut DynamicSmootherEcoI32, input: i32) -> (r: i32)
    requires
        smoother_ok(*old(s)),
        -0x20000 <= input <= 0x20000,
    ensures
        smoother_ok(*final(s)),
        smoother_floor(*final(s)) == smoother_floor(*old(s)),
        smoother_floor(*final(s)) <= smoother_coeff(*final(s)) <= 0x10000,
        0 <= smoother_floor(*final(s)) <= 0x10000,
        -0x20000 <= r <= 0x20000,
{
    s.tick(input)
}

/// Relies on `DynamicSmootherEcoI32::g`: returns the overall filter
/// coefficient the state holds.
#[verifier::external_body]
pub(crate) fn smoother_read_coeff(s: &DynamicSmootherEcoI32) -> (r: i32)
    ensures
        r as int == smoother_coeff(*s),
{
    s.g()
}

/// Relies on `DynamicSmootherEcoI32::g0`: returns the base filter
/// coefficient the state holds.
#[verifier::external_body]
pub(crate) fn smoother_read_floor(s: &DynamicSmootherEcoI32) -> (r: i32)
    ensures
        r as int == smoother_floor(*s),
{
    s.g0()
}

} // verus!
