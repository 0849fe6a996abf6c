//! Brightness control: holds the current duty cycle of the word and minute
//! display channels and produces the bounded step sequences that ramp the
//! duty down to zero and back, so a phrase change never jumps abruptly.

use vstd::prelude::*;

verus! {

/// Milliseconds the caller rests between two ramp steps.
pub const DIM_STEP_DELAY_MS: u16 = 20;

/// One step of a brightness ramp: the duty to write to each PWM channel.
#[derive(Clone, Copy, Debug, PartialEq, Eq, Structural)]
pub struct DutyStep {
    pub words: u16,
    pub minutes: u16,
}

/// The duty after `i` of the ten downward steps: a linear walk from the
/// stored duty to zero by integer division.
pub open spec fn ramp_down_duty(duty: u16, i: int) -> u16 {
    ((duty as int) * (10 - i) / 10) as u16
}

/// The duty after `i` of the ten upward steps: a linear walk from zero
/// back to the stored duty.
pub open spec fn ramp_up_duty(duty: u16, i: int) -> u16 {
    ((duty as int) * i / 10) as u16
}

/// Duty cycles for the word and minute display channels. The PWM outputs
/// themselves live with the caller, which writes each returned duty.
pub struct BrightnessControl {
    pub words_current: u16,
    pub minutes_current: u16,
}

/// The ten steps of a downward ramp of both channels.
pub open spec fn dim_down_steps(c: BrightnessControl) -> Seq<DutyStep> {
    Seq::new(
        10,
        |i: int|
            DutyStep {
                words: ramp_down_duty(c.words_current, i + 1),
                minutes: ramp_down_duty(c.minutes_current, i + 1),
            },
    )
}

/// The ten steps of an upward ramp of both channels.
pub open spec fn dim_up_steps(c: BrightnessControl) -> Seq<DutyStep> {
    Seq::new(
        10,
        |i: int|
            DutyStep {
                words: ramp_up_duty(c.words_current, i + 1),
                minutes: ramp_up_duty(c.minutes_current, i + 1),
            },
    )
}

/// A ramp step never exceeds the stored duty.
proof fn lemma_ramp_step_bounded(duty: u16, i: int)
    requires
        0 <= i <= 10,
    ensures
        0 <= (duty as int) * (10 - i) / 10 <= duty,
        0 <= (duty as int) * i / 10 <= duty,
{
    assert((duty as int) * (10 - i) <= (duty as int) * 10) by (nonlinear_arith)
        requires
            0 <= i <= 10,
    ;
    assert((duty as int) * i <= (duty as int) * 10) by (nonlinear_arith)
        requires
            0 <= i <= 10,
    ;
    assert((duty as int) * (10 - i) >= 0) by (nonlinear_arith)
        requires
            0 <= i <= 10,
    ;
    assert((duty as int) * i >= 0) by (nonlinear_arith)
        requires
            0 <= i <= 10,
    ;
}

impl BrightnessControl {
    /// Both channels start dark.
    pub fn init() -> (r: Self)
        ensures
            r.words_current == 0,
            r.minutes_current == 0,
    {
        BrightnessControl { words_current: 0, minutes_current: 0 }
    }

    /// Recompute each channel's duty and return what to write to the PWM
    /// outputs. The ambient light reading is sampled but not yet mapped:
    /// the target stands at a fixed fifth of each channel's maximum duty.
    pub fn update(&mut self, words_max_duty: u16, minutes_max_duty: u16, _ambient_mv: u16) -> (r:
        DutyStep)
        ensures
            final(self).words_current == words_max_duty / 5,
            final(self).minutes_current == minutes_max_duty / 5,
            r == (DutyStep { words: words_max_duty / 5, minutes: minutes_max_duty / 5 }),
    {
        self.words_current = words_max_duty / 5;
        self.minutes_current = minutes_max_duty / 5;
        DutyStep { words: self.words_current, minutes: self.minutes_current }
    }

    /// The ten duties of the downward ramp, ending at zero. The caller
    /// writes each step and rests `DIM_STEP_DELAY_MS` in between. The
    /// stored duties stay as they are.
    pub fn dim_down(&self) -> (steps: Vec<DutyStep>)
        ensures
            steps@ == dim_down_steps(*self),
    {
        let mut steps: Vec<DutyStep> = Vec::new();
        let mut i: u16 = 1;
        while i <= 10
            invariant
                1 <= i <= 11,
                steps@ == dim_down_steps(*self).take(i - 1),
            decreases 11 - i,
        {
            proof {
                lemma_ramp_step_bounded(self.words_current, i as int);
                lemma_ramp_step_bounded(self.minutes_current, i as int);
            }
            let words = (self.words_current as u32 * ((10 - i) as u32) / 10) as u16;
            let minutes = (self.minutes_current as u32 * ((10 - i) as u32) / 10) as u16;
            steps.push(DutyStep { words, minutes });
            proof {
                assert(dim_down_steps(*self).take(i as int) =~= dim_down_steps(*self).take(
                    i - 1,
                ).push(
                    DutyStep {
                        words: ramp_down_duty(self.words_current, i as int),
                        minutes: ramp_down_duty(self.minutes_current, i as int),
                    },
                ));
            }
            i = i + 1;
        }
        proof {
            assert(dim_down_steps(*self).take(10) =~= dim_down_steps(*self));
        }
        steps
    }

    /// The ten duties of the upward ramp, ending at the stored duty.
    pub fn dim_up(&self) -> (steps: Vec<DutyStep>)
        ensures
            steps@ == dim_up_steps(*self),
    {
        let mut steps: Vec<DutyStep> = Vec::new();
        let mut i: u16 = 1;
        while i <= 10
            invariant
                1 <= i <= 11,
                steps@ == dim_up_steps(*self).take(i - 1),
            decreases 11 - i,
        {
            proof {
                lemma_ramp_step_bounded(self.words_current, i as int);
                lemma_ramp_step_bounded(self.minutes_current, i as int);
            }
            let words = (self.words_current as u32 * (i as u32) / 10) as u16;
            let minutes = (self.minutes_current as u32 * (i as u32) / 10) as u16;
            steps.push(DutyStep { words, minutes });
            proof {
                assert(dim_up_steps(*self).take(i as int) =~= dim_up_steps(*self).take(i - 1).push(
                    DutyStep {
                        words: ramp_up_duty(self.words_current, i as int),
                        minutes: ramp_up_duty(self.minutes_current, i as int),
                    },
                ));
            }
            i = i + 1;
        }
        proof {
            assert(dim_up_steps(*self).take(10) =~= dim_up_steps(*self));
        }
        steps
    }
}

/// Round trip of the brightness ramp: dimming down and back up traverses
/// exactly ten steps each way, the down ramp ends with both channels at
/// zero, and the up ramp ends with both channels back at their pre-ramp
/// duty. The ramps read the stored duties without changing them.
pub proof fn lemma_dim_round_trip(c: BrightnessControl)
    ensures
        dim_down_steps(c).len() == 10,
        dim_up_steps(c).len() == 10,
        dim_down_steps(c)[9] == (DutyStep { words: 0, minutes: 0 }),
        dim_up_steps(c)[9] == (DutyStep { words: c.words_current, minutes: c.minutes_current }),
{
    assert((c.words_current as int) * 10 / 10 == c.words_current as int) by (nonlinear_arith);
    assert((c.minutes_current as int) * 10 / 10 == c.minutes_current as int) by (nonlinear_arith);
}

} // verus!
