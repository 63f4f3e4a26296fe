//! Control model: step-indexed tunables mapped to physical values.
//!
//! Each numeric tunable stores a step index inside a closed range and moves
//! by a fixed step, saturating at the bounds. The physical value is either a
//! linear transform of the index or, for perceptually even tunables, a
//! logarithmic one, `base ^ (index / denominator)`. The logarithmic value is
//! produced here exactly, as a rational number, whenever the exponent is an
//! integer (which covers the points where the curve is exact, such as powers
//! of two); the caller interpolates the remaining points in floating point
//! outside this crate.

use vstd::arithmetic::power::pow;
use vstd::math::min;
use vstd::prelude::*;

verus! {

/// How a step index turns into a physical value.
#[derive(Clone, Copy)]
pub enum ControlScale {
    /// `value = index * factor + offset`
    Linear { factor: i32, offset: i32 },
    /// `value = base ^ (index / denominator)`
    Logarithmic { base: u32, denominator: u32 },
}

/// The fixed shape of one tunable: its range, default, step and scale.
#[derive(Clone, Copy)]
pub struct ControlSpec {
    pub low: i32,
    pub high: i32,
    pub default: i32,
    pub step: i32,
    pub scale: ControlScale,
}

impl ControlSpec {
    pub open spec fn wf(self) -> bool {
        &&& self.low <= self.default <= self.high
        &&& self.step >= 0
        &&& match self.scale {
            ControlScale::Linear { .. } => true,
            ControlScale::Logarithmic { base, denominator } => base >= 1 && denominator >= 1,
        }
    }

    pub open spec fn spec_tempo() -> ControlSpec {
        ControlSpec {
            low: -48i32,
            high: 48,
            default: 0,
            step: 1,
            scale: ControlScale::Logarithmic { base: 2, denominator: 24 },
        }
    }

    pub open spec fn spec_pitch() -> ControlSpec {
        ControlSpec {
            low: -48i32,
            high: 48,
            default: 0,
            step: 1,
            scale: ControlScale::Logarithmic { base: 2, denominator: 24 },
        }
    }

    pub open spec fn spec_gain() -> ControlSpec {
        ControlSpec {
            low: i32::MIN,
            high: i32::MAX,
            default: 0,
            step: 1,
            scale: ControlScale::Linear { factor: 100, offset: 0 },
        }
    }

    pub open spec fn spec_stereo_separation() -> ControlSpec {
        ControlSpec {
            low: 0,
            high: i32::MAX,
            default: 100,
            step: 5,
            scale: ControlScale::Linear { factor: 1, offset: 0 },
        }
    }

    pub open spec fn spec_filter_taps() -> ControlSpec {
        ControlSpec {
            low: 0,
            high: 3,
            default: 3,
            step: 1,
            scale: ControlScale::Logarithmic { base: 2, denominator: 1 },
        }
    }

    pub open spec fn spec_volume_ramping() -> ControlSpec {
        ControlSpec {
            low: -1i32,
            high: 10,
            default: -1i32,
            step: 1,
            scale: ControlScale::Linear { factor: 1, offset: 0 },
        }
    }

    /// Tempo factor: two octaves in each direction, one 24th of an octave a step.
    pub fn tempo() -> (r: ControlSpec)
        ensures
            r == ControlSpec::spec_tempo(),
            r.wf(),
    {
        ControlSpec {
            low: -48,
            high: 48,
            default: 0,
            step: 1,
            scale: ControlScale::Logarithmic { base: 2, denominator: 24 },
        }
    }

    /// Pitch factor: same curve as the tempo factor.
    pub fn pitch() -> (r: ControlSpec)
        ensures
            r == ControlSpec::spec_pitch(),
            r.wf(),
    {
        ControlSpec {
            low: -48,
            high: 48,
            default: 0,
            step: 1,
            scale: ControlScale::Logarithmic { base: 2, denominator: 24 },
        }
    }

    /// Master gain in centibels.
    pub fn gain() -> (r: ControlSpec)
        ensures
            r == ControlSpec::spec_gain(),
            r.wf(),
    {
        ControlSpec {
            low: i32::MIN,
            high: i32::MAX,
            default: 0,
            step: 1,
            scale: ControlScale::Linear { factor: 100, offset: 0 },
        }
    }

    /// Stereo separation in percent.
    pub fn stereo_separation() -> (r: ControlSpec)
        ensures
            r == ControlSpec::spec_stereo_separation(),
            r.wf(),
    {
        ControlSpec {
            low: 0,
            high: i32::MAX,
            default: 100,
            step: 5,
            scale: ControlScale::Linear { factor: 1, offset: 0 },
        }
    }

    /// Interpolation filter length: a power of two, so the logarithmic curve
    /// is exact at every step.
    pub fn filter_taps() -> (r: ControlSpec)
        ensures
            r == ControlSpec::spec_filter_taps(),
            r.wf(),
    {
        ControlSpec {
            low: 0,
            high: 3,
            default: 3,
            step: 1,
            scale: ControlScale::Logarithmic { base: 2, denominator: 1 },
        }
    }

    /// Volume ramping strength; -1 selects the decoder's default.
    pub fn volume_ramping() -> (r: ControlSpec)
        ensures
            r == ControlSpec::spec_volume_ramping(),
            r.wf(),
    {
        ControlSpec {
            low: -1,
            high: 10,
            default: -1,
            step: 1,
            scale: ControlScale::Linear { factor: 1, offset: 0 },
        }
    }
}

/// One tunable: the stored step index plus its shape.
#[derive(Clone, Copy)]
pub struct ControlField {
    pub value: i32,
    pub profile: ControlSpec,
}

/// The step index after one increment: up by one step, saturated at the
/// upper bound.
pub open spec fn spec_inc(f: ControlField) -> ControlField {
    ControlField {
        value: min(f.value + f.profile.step, f.profile.high as int) as i32,
        profile: f.profile,
    }
}

/// The step index after one decrement: down by one step, saturated at the
/// lower bound.
pub open spec fn spec_dec(f: ControlField) -> ControlField {
    ControlField {
        value: vstd::math::max(f.value - f.profile.step, f.profile.low as int) as i32,
        profile: f.profile,
    }
}

/// The field after `n` increments.
pub open spec fn inc_n(f: ControlField, n: nat) -> ControlField
    decreases n,
{
    if n == 0 {
        f
    } else {
        spec_inc(inc_n(f, (n - 1) as nat))
    }
}

impl ControlField {
    pub open spec fn wf(self) -> bool {
        &&& self.profile.wf()
        &&& self.profile.low <= self.value <= self.profile.high
    }

    pub fn new(profile: ControlSpec) -> (r: ControlField)
        requires
            profile.wf(),
        ensures
            r == (ControlField { value: profile.default, profile }),
            r.wf(),
    {
        ControlField { value: profile.default, profile }
    }

    /// Move one step up, never past the upper bound and never wrapping.
    pub fn inc(&mut self)
        requires
            old(self).wf(),
        ensures
            *final(self) == spec_inc(*old(self)),
            final(self).wf(),
    {
        let w: i64 = self.value as i64 + self.profile.step as i64;
        let h: i64 = self.profile.high as i64;
        self.value = if w > h {
            self.profile.high
        } else {
            w as i32
        };
    }

    /// Move one step down, never past the lower bound and never wrapping.
    pub fn dec(&mut self)
        requires
            old(self).wf(),
        ensures
            *final(self) == spec_dec(*old(self)),
            final(self).wf(),
    {
        let w: i64 = self.value as i64 - self.profile.step as i64;
        let l: i64 = self.profile.low as i64;
        self.value = if w < l {
            self.profile.low
        } else {
            w as i32
        };
    }

    pub fn value(&self) -> (r: i32)
        ensures
            r == self.value,
    {
        self.value
    }

    /// The physical value of a linear tunable, `index * factor + offset`,
    /// widened so the product never overflows.
    pub open spec fn spec_output_linear(self) -> int {
        match self.profile.scale {
            ControlScale::Linear { factor, offset } => self.value * factor + offset,
            ControlScale::Logarithmic { .. } => 0,
        }
    }

    pub fn output_linear(&self) -> (r: i64)
        requires
            self.profile.scale is Linear,
        ensures
            r == self.spec_output_linear(),
    {
        match self.profile.scale {
            ControlScale::Linear { factor, offset } => {
                proof {
                    let m = 0x80000000int;
                    assert(self.value * factor <= m * m && self.value * factor >= -(m
                        * m)) by (nonlinear_arith)
                        requires
                            m == 0x80000000int,
                            -m <= self.value <= m,
                            -m <= factor <= m,
                    ;
                }
                self.value as i64 * factor as i64 + offset as i64
            },
            ControlScale::Logarithmic { .. } => 0,
        }
    }

    /// The physical value of a logarithmic tunable at an integer exponent,
    /// as an exact rational `num / den`: `base ^ (index / denominator)` when
    /// `denominator` divides the index and the power fits in a `u64`. At
    /// index 24 with base 2 and denominator 24 this is `2 / 1`; at index -24
    /// it is `1 / 2`. Fractional exponents are left to the caller's
    /// floating-point interpolation.
    pub fn output_log_exact(&self) -> (r: Option<(u64, u64)>)
        requires
            self.wf(),
            self.profile.scale is Logarithmic,
        ensures
            match self.profile.scale {
                ControlScale::Logarithmic { base, denominator } => {
                    let mag = vstd::math::abs(self.value as int);
                    match r {
                        Some((num, den)) => {
                            &&& mag % (denominator as nat) == 0
                            &&& if self.value >= 0 {
                                num == pow(base as int, mag / (denominator as nat)) && den == 1
                            } else {
                                num == 1 && den == pow(base as int, mag / (denominator as nat))
                            }
                        },
                        None => mag % (denominator as nat) != 0 || pow(
                            base as int,
                            mag / (denominator as nat),
                        ) > u64::MAX,
                    }
                },
                ControlScale::Linear { .. } => r is None,
            },
    {
        match self.profile.scale {
            ControlScale::Logarithmic { base, denominator } => {
                let mag: u32 = if self.value >= 0 {
                    self.value as u32
                } else if self.value == i32::MIN {
                    2147483648u32
                } else {
                    (-self.value) as u32
                };
                if mag % denominator != 0 {
                    return None;
                }
                let e: u32 = mag / denominator;
                match pow_u64(base as u64, e) {
                    None => None,
                    Some(p) => if self.value >= 0 {
                        Some((p, 1))
                    } else {
                        Some((1, p))
                    },
                }
            },
            ControlScale::Linear { .. } => None,
        }
    }
}

/// `base ^ e` in a `u64`, or `None` when the power does not fit.
pub fn pow_u64(base: u64, e: u32) -> (r: Option<u64>)
    requires
        base >= 1,
    ensures
        match r {
            Some(p) => p == pow(base as int, e as nat),
            None => pow(base as int, e as nat) > u64::MAX,
        },
{
    let mut acc: u64 = 1;
    let mut i: u32 = 0;
    proof {
        vstd::arithmetic::power::lemma_pow0(base as int);
    }
    while i < e
        invariant
            base >= 1,
            i <= e,
            acc == pow(base as int, i as nat),
            acc >= 1,
        decreases e - i,
    {
        match acc.checked_mul(base) {
            Some(next) => {
                proof {
                    vstd::arithmetic::power::lemma_pow1(base as int);
                    vstd::arithmetic::power::lemma_pow_adds(base as int, i as nat, 1);
                    vstd::arithmetic::power::lemma_pow_positive(base as int, (i + 1) as nat);
                }
                acc = next;
                i = i + 1;
            },
            None => {
                proof {
                    vstd::arithmetic::power::lemma_pow1(base as int);
                    vstd::arithmetic::power::lemma_pow_adds(base as int, i as nat, 1);
                    if (i + 1) as nat <= e as nat {
                        vstd::arithmetic::power::lemma_pow_increases(
                            base as nat,
                            (i + 1) as nat,
                            e as nat,
                        );
                    }
                }
                return None;
            },
        }
    }
    Some(acc)
}

/// Saturation law: `n` increments from a well-formed field land on
/// `min(value + n * step, high)`, so the stored index never exceeds the
/// upper bound however many increments are applied.
pub proof fn lemma_inc_saturates(f: ControlField, n: nat)
    requires
        f.wf(),
    ensures
        inc_n(f, n).wf(),
        inc_n(f, n).profile == f.profile,
        inc_n(f, n).value == min(f.value + n * f.profile.step, f.profile.high as int),
        inc_n(f, n).value <= f.profile.high,
    decreases n,
{
    if n == 0 {
        assert(n * f.profile.step == 0) by (nonlinear_arith)
            requires
                n == 0,
        ;
    } else {
        lemma_inc_saturates(f, (n - 1) as nat);
        assert(n * f.profile.step == (n - 1) * f.profile.step + f.profile.step)
            by (nonlinear_arith)
            requires
                n >= 1,
        ;
        assert((n - 1) * f.profile.step >= 0) by (nonlinear_arith)
            requires
                n >= 1,
                f.profile.step >= 0,
        ;
    }
}

/// The record of all tunables handed to the decoder, plus the repeat flag.
#[derive(Clone, Copy)]
pub struct ModuleControl {
    pub tempo: ControlField,
    pub pitch: ControlField,
    pub gain: ControlField,
    pub stereo_separation: ControlField,
    pub filter_taps: ControlField,
    pub volume_ramping: ControlField,
    pub repeat: bool,
}

impl ModuleControl {
    pub open spec fn wf(self) -> bool {
        &&& self.tempo.wf()
        &&& self.pitch.wf()
        &&& self.gain.wf()
        &&& self.stereo_separation.wf()
        &&& self.filter_taps.wf()
        &&& self.volume_ramping.wf()
    }
}

impl Default for ModuleControl {
    fn default() -> (r: ModuleControl)
        ensures
            r.wf(),
            !r.repeat,
            r.tempo == (ControlField { value: 0, profile: ControlSpec::spec_tempo() }),
            r.pitch == (ControlField { value: 0, profile: ControlSpec::spec_pitch() }),
            r.gain == (ControlField { value: 0, profile: ControlSpec::spec_gain() }),
            r.stereo_separation == (ControlField {
                value: 100,
                profile: ControlSpec::spec_stereo_separation(),
            }),
            r.filter_taps == (ControlField { value: 3, profile: ControlSpec::spec_filter_taps() }),
            r.volume_ramping == (ControlField {
                value: -1i32,
                profile: ControlSpec::spec_volume_ramping(),
            }),
    {
        ModuleControl {
            tempo: ControlField::new(ControlSpec::tempo()),
            pitch: ControlField::new(ControlSpec::pitch()),
            gain: ControlField::new(ControlSpec::gain()),
            stereo_separation: ControlField::new(ControlSpec::stereo_separation()),
            filter_taps: ControlField::new(ControlSpec::filter_taps()),
            volume_ramping: ControlField::new(ControlSpec::volume_ramping()),
            repeat: false,
        }
    }
}

impl ModuleControl {
    /// Raise the tempo factor one step.
    pub fn tempo_up(&mut self)
        requires
            old(self).wf(),
        ensures
            *final(self) == (ModuleControl { tempo: spec_inc(old(self).tempo), ..*old(self) }),
            final(self).wf(),
    {
        self.tempo.inc();
    }

    /// Lower the tempo factor one step.
    pub fn tempo_down(&mut self)
        requires
            old(self).wf(),
        ensures
            *final(self) == (ModuleControl { tempo: spec_dec(old(self).tempo), ..*old(self) }),
            final(self).wf(),
    {
        self.tempo.dec();
    }

    /// Raise the pitch factor one step.
    pub fn pitch_up(&mut self)
        requires
            old(self).wf(),
        ensures
            *final(self) == (ModuleControl { pitch: spec_inc(old(self).pitch), ..*old(self) }),
            final(self).wf(),
    {
        self.pitch.inc();
    }

    /// Lower the pitch factor one step.
    pub fn pitch_down(&mut self)
        requires
            old(self).wf(),
        ensures
            *final(self) == (ModuleControl { pitch: spec_dec(old(self).pitch), ..*old(self) }),
            final(self).wf(),
    {
        self.pitch.dec();
    }

    /// Raise the gain one step.
    pub fn gain_up(&mut self)
        requires
            old(self).wf(),
        ensures
            *final(self) == (ModuleControl { gain: spec_inc(old(self).gain), ..*old(self) }),
            final(self).wf(),
    {
        self.gain.inc();
    }

    /// Lower the gain one step.
    pub fn gain_down(&mut self)
        requires
            old(self).wf(),
        ensures
            *final(self) == (ModuleControl { gain: spec_dec(old(self).gain), ..*old(self) }),
            final(self).wf(),
    {
        self.gain.dec();
    }

    /// Widen the stereo separation one step.
    pub fn stereo_separation_up(&mut self)
        requires
            old(self).wf(),
        ensures
            *final(self) == (ModuleControl {
                stereo_separation: spec_inc(old(self).stereo_separation),
                ..*old(self)
            }),
            final(self).wf(),
    {
        self.stereo_separation.inc();
    }

    /// Narrow the stereo separation one step.
    pub fn stereo_separation_down(&mut self)
        requires
            old(self).wf(),
        ensures
            *final(self) == (ModuleControl {
                stereo_separation: spec_dec(old(self).stereo_separation),
                ..*old(self)
            }),
            final(self).wf(),
    {
        self.stereo_separation.dec();
    }

    /// Lengthen the interpolation filter one step.
    pub fn filter_taps_up(&mut self)
        requires
            old(self).wf(),
        ensures
            *final(self) == (ModuleControl {
                filter_taps: spec_inc(old(self).filter_taps),
                ..*old(self)
            }),
            final(self).wf(),
    {
        self.filter_taps.inc();
    }

    /// Shorten the interpolation filter one step.
    pub fn filter_taps_down(&mut self)
        requires
            old(self).wf(),
        ensures
            *final(self) == (ModuleControl {
                filter_taps: spec_dec(old(self).filter_taps),
                ..*old(self)
            }),
            final(self).wf(),
    {
        self.filter_taps.dec();
    }

    /// Strengthen the volume ramping one step.
    pub fn volume_ramping_up(&mut self)
        requires
            old(self).wf(),
        ensures
            *final(self) == (ModuleControl {
                volume_ramping: spec_inc(old(self).volume_ramping),
                ..*old(self)
            }),
            final(self).wf(),
    {
        self.volume_ramping.inc();
    }

    /// Weaken the volume ramping one step.
    pub fn volume_ramping_down(&mut self)
        requires
            old(self).wf(),
        ensures
            *final(self) == (ModuleControl {
                volume_ramping: spec_dec(old(self).volume_ramping),
                ..*old(self)
            }),
            final(self).wf(),
    {
        self.volume_ramping.dec();
    }

    /// Flip the repeat flag.
    pub fn toggle_repeat(&mut self)
        requires
            old(self).wf(),
        ensures
            *final(self) == (ModuleControl { repeat: !old(self).repeat, ..*old(self) }),
            final(self).wf(),
    {
        self.repeat = !self.repeat;
    }
}

} // verus!
