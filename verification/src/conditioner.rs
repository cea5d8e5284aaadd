//! The per-sample conditioning pipeline: adaptive smoothing, deadband
//! suppression, rescaling with clamping, and movement/velocity detection.

use vstd::prelude::*;
use vstd::arithmetic::div_mod::lemma_fundamental_div_mod;
use backlash::Backlash;
use dyn_smooth::DynamicSmootherEcoI32;
use crate::filters::{
    backlash_new, backlash_state, backlash_step, backlash_update, smoother_coeff, smoother_floor,
    smoother_new, smoother_ok, smoother_read_coeff, smoother_read_floor, smoother_tick,
    BacklashModel,
};
use crate::scale::{rescale_and_clamp, rescale_clamped};

verus! {

/// Base frequency for the dynamic smoother: 0.1 in its 16 fractional bits.
pub const SMOOTHER_BASEFREQ: i32 = 6553;

/// Sensitivity of the dynamic smoother: 0.02 in its 16 fractional bits.
pub const SMOOTHER_SENSITIVITY: i32 = 1310;

/// Default movement threshold.
pub const MOVEMENT_THRESHOLD_DEFAULT: i32 = 30;

/// Width of the deadband derived from the input span.
pub open spec fn deadband_width_spec(in_min: int, in_max: int) -> int {
    (in_max - in_min) / 512
}

/// Half the deadband width derived from the input span.
pub open spec fn half_width_spec(in_min: int, in_max: int) -> int {
    deadband_width_spec(in_min, in_max) / 2
}

/// One step of the exponential velocity average: the ratio of the smoother's
/// current coefficient to its floor (kept in 8 extra fractional bits) is
/// averaged into the running value, which is halved each update.
pub open spec fn vel_step(velocity: int, g: int, g0: int) -> int {
    (velocity + (g * 256) / (if g0 < 1 {
        1int
    } else {
        g0
    })) / 2
}

/// Movement classification: the update counts as movement when the output
/// changed and either the reported velocity exceeds the threshold or the
/// output sits at an edge of the output range.
pub open spec fn moved_spec(
    delta: int,
    velocity: int,
    threshold: int,
    val: int,
    out_min: int,
    out_max: int,
) -> bool {
    delta != 0 && (velocity / 256 > threshold || val == out_min || val == out_max)
}

/// The observable state of a conditioner, with the deadband filter's state
/// embedded as its own model.
pub ghost struct CondModel {
    pub value: int,
    pub in_min: int,
    pub in_max: int,
    pub out_min: int,
    pub out_max: int,
    pub half: int,
    pub bl: BacklashModel,
    pub delta: int,
    pub velocity: int,
    pub threshold: int,
    pub moved: bool,
    pub last_movement: Option<u64>,
}

/// What one call of `update` does to the observable state, given the smoothed
/// sample `s` and the smoother's coefficients `g` (current) and `g0` (floor)
/// after that sample.
pub open spec fn cond_step(m: CondModel, s: int, g: int, g0: int, tick: u64) -> CondModel {
    let bl2 = backlash_step(m.bl, s);
    let v2 = rescale_clamped(bl2.held, m.in_min + m.half, m.in_max - m.half, m.out_min, m.out_max);
    let d2 = v2 - m.value;
    let vel2 = vel_step(m.velocity, g, g0);
    let mv2 = moved_spec(d2, vel2, m.threshold, v2, m.out_min, m.out_max);
    CondModel {
        value: v2,
        bl: bl2,
        delta: d2,
        velocity: vel2,
        moved: mv2,
        last_movement: if mv2 {
            Some(tick)
        } else {
            m.last_movement
        },
        ..m
    }
}

/// Processor struct containing variables and states.
pub struct PotConditioner {
    /// Current value.
    pub value: i32,
    /// Tuple of input value range (min, max).
    pub input_range: (i32, i32),
    /// Tuple of output value range (min, max).
    pub output_range: (i32, i32),
    /// Dynamic smoother.
    pub smoother: DynamicSmootherEcoI32,
    /// Backlash deadband width divided by 2.
    pub deadband_half_width: i32,
    /// Backlash processor.
    pub backlash: Backlash<i32>,
    /// Delta between current value and last one.
    pub delta: i32,
    /// Velocity of movement, in 8 extra fractional bits.
    pub velocity: i32,
    /// Movement threshold.
    pub movement_threshold: i32,
    /// Moved flag, set in `update` when movement was detected.
    pub moved: bool,
    /// Tick number of last detected movement.
    pub last_movement: Option<u64>,
}

impl PotConditioner {
    /// The observable state.
    pub open spec fn model(self) -> CondModel {
        CondModel {
            value: self.value as int,
            in_min: self.input_range.0 as int,
            in_max: self.input_range.1 as int,
            out_min: self.output_range.0 as int,
            out_max: self.output_range.1 as int,
            half: self.deadband_half_width as int,
            bl: backlash_state(self.backlash),
            delta: self.delta as int,
            velocity: self.velocity as int,
            threshold: self.movement_threshold as int,
            moved: self.moved,
            last_movement: self.last_movement,
        }
    }

    /// Well-formedness: the construction invariants (each range ordered, the
    /// deadband width derived from the input span, the output range and the
    /// stored value inside the span where a delta cannot overflow) together
    /// with the envelopes of the two filter states and of the velocity
    /// average.
    pub open spec fn wf(self) -> bool {
        &&& self.input_range.0 < self.input_range.1
        &&& self.output_range.0 < self.output_range.1
        &&& -0x4000_0000 <= self.output_range.0
        &&& self.output_range.1 <= 0x3fff_ffff
        &&& -0x4000_0000 <= self.value <= 0x3fff_ffff
        &&& self.deadband_half_width as int == half_width_spec(
            self.input_range.0 as int,
            self.input_range.1 as int,
        )
        &&& backlash_state(self.backlash).half == self.deadband_half_width as int
        &&& -0x200_0000 <= backlash_state(self.backlash).held <= 0x200_0000
        &&& -0x200_0000 <= backlash_state(self.backlash).lower <= 0x200_0000
        &&& -0x200_0000 <= backlash_state(self.backlash).upper <= 0x200_0000
        &&& smoother_ok(self.smoother)
        &&& 0 <= self.velocity <= 0x100_0000
    }

    /// Create a new instance.
    /// - `sampling_rate`: sampling rate in Hz.
    /// - `input_range`: tuple of (lowest, highest) input value.
    /// - `output_range`: tuple of (lowest, highest) output value.
    ///
    /// The bounds on the arguments are the machine limits of the fixed-point
    /// pipeline: the sampling rate must carry 16 fractional bits in an `i32`
    /// and stay above the smoother's base frequency, and the output range
    /// must leave a delta between any two outputs representable.
    pub fn new(sampling_rate: i32, input_range: (i32, i32), output_range: (i32, i32)) -> (r: Self)
        requires
            2 <= sampling_rate <= 0x7fff,
            input_range.0 < input_range.1,
            output_range.0 < output_range.1,
            -0x4000_0000 <= output_range.0,
            output_range.1 <= 0x3fff_ffff,
        ensures
            r.wf(),
            r.model() == (CondModel {
                value: 0,
                in_min: input_range.0 as int,
                in_max: input_range.1 as int,
                out_min: output_range.0 as int,
                out_max: output_range.1 as int,
                half: half_width_spec(input_range.0 as int, input_range.1 as int),
                bl: BacklashModel {
                    held: 0,
                    half: half_width_spec(input_range.0 as int, input_range.1 as int),
                    lower: -half_width_spec(input_range.0 as int, input_range.1 as int),
                    upper: half_width_spec(input_range.0 as int, input_range.1 as int),
                },
                delta: 0,
                velocity: 0,
                threshold: MOVEMENT_THRESHOLD_DEFAULT as int,
                moved: false,
                last_movement: None,
            }),
    {
        let span: i64 = input_range.1 as i64 - input_range.0 as i64;
        let deadband_width: i32 = (span / 512) as i32;
        let sr: i32 = sampling_rate << 16;
        proof {
            assert(sampling_rate << 16 == sampling_rate * 0x10000) by (bit_vector)
                requires
                    2 <= sampling_rate <= 0x7fff,
            ;
        }
        Self {
            value: 0,
            input_range,
            output_range,
            smoother: smoother_new(SMOOTHER_BASEFREQ, sr, SMOOTHER_SENSITIVITY),
            deadband_half_width: deadband_width / 2,
            backlash: backlash_new(deadband_width),
            delta: 0,
            velocity: 0,
            movement_threshold: MOVEMENT_THRESHOLD_DEFAULT,
            moved: false,
            last_movement: None,
        }
    }

    /// Update the state with a new raw input and return the processed value.
    ///
    /// The raw value is bounded by the fixed-point headroom of the adaptive
    /// smoother (about 23 internal bits; 2^17 leaves its dynamic-coefficient
    /// arithmetic exact); any admitted value is accepted, out-of-range ones
    /// are clamped by the rescale stage.
    pub fn update(&mut self, value: i32, tick: u64) -> (r: i32)
        requires
            old(self).wf(),
            -0x20000 <= value <= 0x20000,
        ensures
            final(self).wf(),
            r == final(self).value,
            final(self).input_range == old(self).input_range,
            final(self).output_range == old(self).output_range,
            final(self).movement_threshold == old(self).movement_threshold,
            final(self).deadband_half_width == old(self).deadband_half_width,
            old(self).output_range.0 <= r <= old(self).output_range.1,
            final(self).value as int == rescale_clamped(
                backlash_state(final(self).backlash).held,
                old(self).input_range.0 as int + old(self).deadband_half_width as int,
                old(self).input_range.1 as int - old(self).deadband_half_width as int,
                old(self).output_range.0 as int,
                old(self).output_range.1 as int,
            ),
            final(self).delta as int == final(self).value as int - old(self).value as int,
            final(self).velocity as int == vel_step(
                old(self).velocity as int,
                smoother_coeff(final(self).smoother),
                smoother_floor(final(self).smoother),
            ),
            final(self).moved == moved_spec(
                final(self).delta as int,
                final(self).velocity as int,
                old(self).movement_threshold as int,
                final(self).value as int,
                old(self).output_range.0 as int,
                old(self).output_range.1 as int,
            ),
            final(self).last_movement == if final(self).moved {
                Some(tick)
            } else {
                old(self).last_movement
            },
            exists|s: int|
                -0x20000 <= s <= 0x20000 && #[trigger] cond_step(
                    old(self).model(),
                    s,
                    smoother_coeff(final(self).smoother),
                    smoother_floor(final(self).smoother),
                    tick,
                ) == final(self).model(),
    {
        let s: i32 = smoother_tick(&mut self.smoother, value);
        let b: i32 = backlash_update(&mut self.backlash, s);
        proof {
            lemma_shrunk_span(self.input_range.0 as int, self.input_range.1 as int);
        }
        let in_lo: i32 = self.input_range.0 + self.deadband_half_width;
        let in_hi: i32 = self.input_range.1 - self.deadband_half_width;
        let v: i32 = rescale_and_clamp(b, in_lo, in_hi, self.output_range.0, self.output_range.1);
        let d: i32 = v - self.value;
        let g: i32 = smoother_read_coeff(&self.smoother);
        let g0: i32 = smoother_read_floor(&self.smoother);
        let denom: i32 = if g0 < 1 {
            1
        } else {
            g0
        };
        let shifted: i32 = g << 8;
        proof {
            assert(g << 8 == g * 256) by (bit_vector)
                requires
                    0 <= g <= 0x10000,
            ;
        }
        let ratio: i32 = shifted / denom;
        let vel: i32 = (self.velocity + ratio) / 2;
        let vel_rep: i32 = vel >> 8;
        proof {
            assert(vel >> 8 == vel / 256) by (bit_vector)
                requires
                    0 <= vel <= 0x100_0000,
            ;
        }
        let mv: bool = d != 0 && (vel_rep > self.movement_threshold || v == self.output_range.0
            || v == self.output_range.1);
        if mv {
            self.last_movement = Some(tick);
        }
        self.delta = d;
        self.velocity = vel;
        self.moved = mv;
        self.value = v;
        proof {
            let m2 = cond_step(
                old(self).model(),
                s as int,
                smoother_coeff(self.smoother),
                smoother_floor(self.smoother),
                tick,
            );
            assert(m2 == self.model());
        }
        v
    }

    /// Return current value.
    pub fn value(&self) -> (r: i32)
        ensures
            r == self.value,
    {
        self.value
    }

    /// Return delta.
    pub fn delta(&self) -> (r: i32)
        ensures
            r == self.delta,
    {
        self.delta
    }

    /// Return velocity: the running average, stripped of its 8 extra
    /// fractional bits.
    pub fn velocity(&self) -> (r: i32)
        ensures
            r == self.velocity >> 8,
            self.wf() ==> r as int == self.velocity as int / 256,
    {
        let r: i32 = self.velocity >> 8;
        proof {
            if self.wf() {
                let vel = self.velocity;
                assert(vel >> 8 == vel / 256) by (bit_vector)
                    requires
                        0 <= vel <= 0x100_0000,
                ;
            }
        }
        r
    }

    /// Return if the pot has been moved faster than the given threshold.
    pub fn moved(&self) -> (r: bool)
        ensures
            r == self.moved,
    {
        self.moved
    }

    /// Return tick number of last detected movement.
    pub fn last_movement(&self) -> (r: Option<u64>)
        ensures
            r == self.last_movement,
    {
        self.last_movement
    }

    /// Sets a new movement threshold. Recommended range is 10-255.
    pub fn set_movement_threshold(&mut self, threshold: i32)
        ensures
            *final(self) == (Self { movement_threshold: threshold, ..*old(self) }),
    {
        self.movement_threshold = threshold;
    }

    /// Sets a new output range. The current value, delta and velocity are
    /// kept as they are, so a following update may show a large delta.
    ///
    /// The bounds are the same machine limits as at construction.
    pub fn set_output_range(&mut self, out_min: i32, out_max: i32)
        requires
            out_min < out_max,
            -0x4000_0000 <= out_min,
            out_max <= 0x3fff_ffff,
        ensures
            *final(self) == (Self { output_range: (out_min, out_max), ..*old(self) }),
            old(self).wf() ==> final(self).wf(),
    {
        self.output_range = (out_min, out_max);
    }

    /// Returns the current output range.
    pub fn output_range(&self) -> (r: (i32, i32))
        ensures
            r == self.output_range,
    {
        self.output_range
    }
}

/// The deadband half-width is non-negative and so small against the input
/// span that the span shrunk by it on each side keeps a positive width.
pub proof fn lemma_shrunk_span(in_min: int, in_max: int)
    requires
        in_min < in_max,
    ensures
        0 <= half_width_spec(in_min, in_max),
        2 * half_width_spec(in_min, in_max) <= deadband_width_spec(in_min, in_max),
        in_min + half_width_spec(in_min, in_max) < in_max - half_width_spec(in_min, in_max),
{
    let span = in_max - in_min;
    let w = deadband_width_spec(in_min, in_max);
    let h = half_width_spec(in_min, in_max);
    lemma_fundamental_div_mod(span, 512);
    lemma_fundamental_div_mod(w, 2);
    assert(512 * w <= span);
    assert(2 * h <= w);
    if w >= 1 {
        assert(span - w >= 511 * w);
    }
}

} // verus!
