use vstd::prelude::*;

verus! {

/// Number of steps in one alarm sequence.
pub const ALARM_STEP_COUNT: usize = 20;

/// Duration of the tone played at each alarm step, in milliseconds; each
/// step blocks until its tone completes.
pub const ALARM_TONE_MS: u32 = 100;

/// Tone frequency of the even alarm steps, in hertz.
pub const ALARM_TONE_HZ_EVEN: u32 = 800;

/// Tone frequency of the odd alarm steps, in hertz.
pub const ALARM_TONE_HZ_ODD: u32 = 1000;

/// State of the visual indicator during one alarm step.
#[derive(Clone, Copy, Debug, PartialEq, Eq, Structural)]
pub enum IndicatorState {
    Red,
    Off,
}

/// One step of the alarm response: an indicator state to set, then a tone
/// to play to completion.
#[derive(Clone, Copy, Debug, PartialEq, Eq, Structural)]
pub struct AlarmStep {
    pub indicator: IndicatorState,
    pub tone_hz: u32,
    pub tone_ms: u32,
}

/// The content of alarm step `i`: even steps light the indicator red and
/// sound the lower tone, odd steps turn it off and sound the higher tone.
pub open spec fn spec_alarm_step(i: int) -> AlarmStep {
    if i % 2 == 0 {
        AlarmStep {
            indicator: IndicatorState::Red,
            tone_hz: ALARM_TONE_HZ_EVEN,
            tone_ms: ALARM_TONE_MS,
        }
    } else {
        AlarmStep {
            indicator: IndicatorState::Off,
            tone_hz: ALARM_TONE_HZ_ODD,
            tone_ms: ALARM_TONE_MS,
        }
    }
}

/// The fixed alarm response: a bounded sequence of steps alternating the
/// two indicator states and the two tones, to be performed in order.
pub fn alarm_sequence() -> (r: Vec<AlarmStep>)
    ensures
        r@.len() == ALARM_STEP_COUNT,
        forall|i: int| 0 <= i < r@.len() ==> r@[i] == spec_alarm_step(i),
{
    let mut steps: Vec<AlarmStep> = Vec::new();
    let mut i: usize = 0;
    while i < ALARM_STEP_COUNT
        invariant
            0 <= i <= ALARM_STEP_COUNT,
            steps@.len() == i,
            forall|j: int| 0 <= j < i ==> steps@[j] == spec_alarm_step(j),
        decreases ALARM_STEP_COUNT - i,
    {
        if i % 2 == 0 {
            steps.push(
                AlarmStep {
                    indicator: IndicatorState::Red,
                    tone_hz: ALARM_TONE_HZ_EVEN,
                    tone_ms: ALARM_TONE_MS,
                },
            );
        } else {
            steps.push(
                AlarmStep {
                    indicator: IndicatorState::Off,
                    tone_hz: ALARM_TONE_HZ_ODD,
                    tone_ms: ALARM_TONE_MS,
                },
            );
        }
        i = i + 1;
    }
    steps
}

} // verus!
