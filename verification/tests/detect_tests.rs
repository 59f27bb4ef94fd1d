use motion_watch::detect::{detect, Config, CHANNEL_THRESHOLD, AGGREGATE_THRESHOLD};
use motion_watch::frame::Frame;

fn frame(width: usize, height: usize, data: Vec<u8>) -> Frame {
    Frame::new(width, height, data).expect("buffer length must match dimensions")
}

#[test]
fn standard_config_matches_shipped_constants() {
    let config = Config::standard();
    assert_eq!(config.channel_threshold, 64);
    assert_eq!(config.aggregate_threshold, 2000);
    assert_eq!(CHANNEL_THRESHOLD, 64);
    assert_eq!(AGGREGATE_THRESHOLD, 2000);
}

#[test]
fn frame_new_rejects_short_buffer() {
    assert!(Frame::new(2, 2, vec![0; 11]).is_none());
    assert!(Frame::new(2, 2, vec![0; 13]).is_none());
    assert!(Frame::new(2, 2, vec![0; 12]).is_some());
    assert!(Frame::new(0, 0, vec![]).is_some());
}

#[test]
fn identical_frames_score_zero() {
    let data: Vec<u8> = (0..12).map(|i: i32| (i * 17 % 256) as u8).collect();
    let a = frame(2, 2, data.clone());
    let b = frame(2, 2, data);
    let r = detect(&a, &b, 64, 2000);
    assert!(!r.detected);
    assert_eq!(r.diff_count, 0);
}

#[test]
fn difference_of_exactly_threshold_is_not_a_mismatch() {
    // strict greater-than: |164 - 100| == 64 does not count
    let a = frame(2, 2, vec![100; 12]);
    let b = frame(2, 2, vec![164; 12]);
    let r = detect(&a, &b, 64, 0);
    assert!(!r.detected);
    assert_eq!(r.diff_count, 0);
}

#[test]
fn difference_one_above_threshold_counts_every_channel() {
    let a = frame(2, 2, vec![0; 12]);
    let b = frame(2, 2, vec![65; 12]);
    // all 12 channel pairs mismatch; with a high aggregate threshold the
    // scan completes and reports the full total
    let r = detect(&a, &b, 64, 2000);
    assert!(!r.detected);
    assert_eq!(r.diff_count, 12);
}

#[test]
fn uniform_change_triggers_at_first_count_past_threshold() {
    let a = frame(2, 2, vec![0; 12]);
    let b = frame(2, 2, vec![65; 12]);
    // every channel mismatches, so the count first exceeds 2 at the third
    // channel pair: one pixel scanned, as ceil((2 + 1) / 3) predicts
    let r = detect(&a, &b, 64, 2);
    assert!(r.detected);
    assert_eq!(r.diff_count, 3);
}

#[test]
fn absolute_difference_counts_in_both_directions() {
    // one channel rises by 70, another falls by 70
    let a = frame(1, 2, vec![100, 0, 0, 200, 0, 0]);
    let b = frame(1, 2, vec![170, 0, 0, 130, 0, 0]);
    let r = detect(&a, &b, 64, 2000);
    assert!(!r.detected);
    assert_eq!(r.diff_count, 2);
}

#[test]
fn channel_threshold_at_byte_extremes() {
    let a = frame(1, 1, vec![0, 0, 0]);
    let b = frame(1, 1, vec![255, 255, 255]);
    // |255 - 0| == 255 is not strictly greater than 255
    let r = detect(&a, &b, 255, 2000);
    assert!(!r.detected);
    assert_eq!(r.diff_count, 0);
    let r = detect(&a, &b, 254, 2000);
    assert!(!r.detected);
    assert_eq!(r.diff_count, 3);
}

fn scenario_frames() -> (Frame, Frame) {
    // frame A: all pixels (0, 0, 0); frame B: pixel (0,0) = (200, 0, 0),
    // pixel (0,1) = (0, 200, 0), the second row unchanged
    let a = frame(2, 2, vec![0; 12]);
    let b = frame(2, 2, vec![200, 0, 0, 0, 200, 0, 0, 0, 0, 0, 0, 0]);
    (a, b)
}

#[test]
fn scenario_two_mismatches_do_not_exceed_threshold_two() {
    let (a, b) = scenario_frames();
    let r = detect(&a, &b, 64, 2);
    assert!(!r.detected);
    assert_eq!(r.diff_count, 2);
}

#[test]
fn scenario_two_mismatches_exceed_threshold_one() {
    let (a, b) = scenario_frames();
    let r = detect(&a, &b, 64, 1);
    assert!(r.detected);
    assert_eq!(r.diff_count, 2);
}

#[test]
fn empty_frames_never_report_motion() {
    let a = frame(0, 0, vec![]);
    let b = frame(0, 0, vec![]);
    let r = detect(&a, &b, 0, 0);
    assert!(!r.detected);
    assert_eq!(r.diff_count, 0);
}
