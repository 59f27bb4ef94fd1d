use motion_watch::alarm::{
    alarm_sequence, AlarmStep, IndicatorState, ALARM_STEP_COUNT, ALARM_TONE_HZ_EVEN,
    ALARM_TONE_HZ_ODD, ALARM_TONE_MS,
};

#[test]
fn alarm_sequence_has_twenty_steps() {
    assert_eq!(ALARM_STEP_COUNT, 20);
    assert_eq!(alarm_sequence().len(), 20);
}

#[test]
fn alarm_sequence_alternates_indicator_and_tone() {
    let steps = alarm_sequence();
    for (i, step) in steps.iter().enumerate() {
        if i % 2 == 0 {
            assert_eq!(
                *step,
                AlarmStep {
                    indicator: IndicatorState::Red,
                    tone_hz: 800,
                    tone_ms: 100,
                }
            );
        } else {
            assert_eq!(
                *step,
                AlarmStep {
                    indicator: IndicatorState::Off,
                    tone_hz: 1000,
                    tone_ms: 100,
                }
            );
        }
    }
}

#[test]
fn alarm_constants_match_shipped_values() {
    assert_eq!(ALARM_TONE_HZ_EVEN, 800);
    assert_eq!(ALARM_TONE_HZ_ODD, 1000);
    assert_eq!(ALARM_TONE_MS, 100);
}
