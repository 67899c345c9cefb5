use rtx::gcode::{ArgumentValue, GcodeState, PendingMove};
use rtx::motion::{Axis, AxisKind};
use rtx::motor::{
    at_setpoint, channel_duties, position_error, position_from_count, wrist_counts, MAX_DUTY,
    TOLERANCE,
};

fn bits(x: f32) -> ArgumentValue {
    ArgumentValue::Literal(x.to_bits())
}

#[test]
fn g0_and_g1_move() {
    let mut s = GcodeState::new();
    assert!(s.start_general_code(0));
    assert!(s.start_general_code(1));
    assert!(!s.incremental);
}

#[test]
fn g91_is_incremental_and_moves() {
    let mut s = GcodeState::new();
    let is_move = s.start_general_code(91);
    assert!(is_move);
    assert!(s.incremental);
    s.argument(is_move, 'Z', bits(1.0));
    s.argument(is_move, 'F', bits(100.0));
    assert_eq!(s.pending_move.pending_move_zed, Some(1.0f32.to_bits()));
    assert!(!s.start_general_code(90));
    assert!(!s.incremental);
}

#[test]
fn other_codes_keep_the_mode() {
    let mut s = GcodeState::new();
    s.start_general_code(91);
    assert!(!s.start_general_code(21));
    assert!(!s.start_general_code(28));
    assert!(s.incremental);
}

#[test]
fn axis_words_set_targets() {
    let mut s = GcodeState::new();
    let m = s.start_general_code(1);
    s.argument(m, 'Z', bits(3.0));
    s.argument(m, 'A', bits(10.0));
    s.argument(m, 'b', bits(-2.5));
    s.argument(m, 'C', bits(4.0));
    s.argument(m, 'u', bits(5.0));
    s.argument(m, 'V', bits(6.0));
    s.argument(m, 'w', bits(7.0));
    let p = s.pending_move;
    assert_eq!(p.pending_move_zed, Some(3.0f32.to_bits()));
    assert_eq!(p.pending_move_shoulder, Some(10.0f32.to_bits()));
    assert_eq!(p.pending_move_elbow, Some((-2.5f32).to_bits()));
    assert_eq!(p.pending_move_yaw, Some(4.0f32.to_bits()));
    assert_eq!(p.pending_move_wrist_pitch, Some(5.0f32.to_bits()));
    assert_eq!(p.pending_move_wrist_roll, Some(6.0f32.to_bits()));
    assert_eq!(p.pending_move_grip, Some(7.0f32.to_bits()));
}

#[test]
fn a_word_sets_only_the_shoulder() {
    let mut s = GcodeState::new();
    let m = s.start_general_code(0);
    s.argument(m, 'A', bits(10.0));
    let expected = PendingMove {
        pending_move_shoulder: Some(10.0f32.to_bits()),
        ..PendingMove::new()
    };
    assert_eq!(s.pending_move, expected);
}

#[test]
fn letters_without_a_joint_are_ignored() {
    let mut s = GcodeState::new();
    let m = s.start_general_code(1);
    s.argument(m, 'X', bits(1.0));
    s.argument(m, 'Y', bits(2.0));
    s.argument(m, 'F', bits(100.0));
    assert_eq!(s.pending_move, PendingMove::new());
}

#[test]
fn arguments_outside_a_move_are_ignored() {
    let mut s = GcodeState::new();
    let m = s.start_general_code(21);
    s.argument(m, 'A', bits(10.0));
    assert_eq!(s.pending_move, PendingMove::new());
    let m = s.start_general_code(0);
    s.argument(m, 'A', ArgumentValue::Variable);
    s.argument(m, 'Q', bits(1.0));
    assert_eq!(s.pending_move, PendingMove::default());
}

#[test]
fn later_targets_replace_earlier_ones() {
    let mut s = GcodeState::new();
    let m = s.start_general_code(0);
    s.argument(m, 'A', bits(1.0));
    s.argument(m, 'a', bits(2.0));
    assert_eq!(s.pending_move.pending_move_shoulder, Some(2.0f32.to_bits()));
}

#[test]
fn mode_is_that_of_the_last_mode_code() {
    let mut s = GcodeState::new();
    for code in [0u32, 91, 1, 21, 90, 0, 28] {
        s.start_general_code(code);
    }
    assert!(!s.incremental);
    for code in [90u32, 1, 91, 0, 21] {
        s.start_general_code(code);
    }
    assert!(s.incremental);
    let mut t = GcodeState::new();
    for code in [0u32, 1, 21] {
        t.start_general_code(code);
    }
    assert!(!t.incremental);
}

#[test]
fn encoder_counts_are_centred() {
    assert_eq!(position_from_count(0), 0);
    assert_eq!(position_from_count(5), 5);
    assert_eq!(position_from_count(0x7fff), i16::MAX);
    assert_eq!(position_from_count(0x8000), i16::MIN);
    assert_eq!(position_from_count(0xffff), -1);
    assert_eq!(position_from_count(65530), -6);
}

#[test]
fn position_error_wraps() {
    assert_eq!(position_error(100, 40), 60);
    assert_eq!(position_error(-100, 40), -140);
    assert_eq!(position_error(i16::MAX, -1), i16::MIN);
    assert_eq!(position_error(i16::MIN, 1), i16::MAX);
}

#[test]
fn tolerance_band() {
    assert_eq!(TOLERANCE, 5);
    assert!(at_setpoint(100, 95));
    assert!(at_setpoint(100, 105));
    assert!(!at_setpoint(100, 94));
    assert!(!at_setpoint(100, 106));
    assert!(at_setpoint(i16::MIN, i16::MIN));
    assert!(!at_setpoint(i16::MIN, 0));
    assert!(at_setpoint(i16::MAX, i16::MIN + 3));
}

#[test]
fn duty_goes_to_one_channel() {
    assert_eq!(channel_duties(1000, true), (1000, 0));
    assert_eq!(channel_duties(1000, false), (0, 1000));
    assert_eq!(channel_duties(MAX_DUTY, true), (4095, 0));
}

#[test]
fn wrist_pitch_and_roll() {
    assert_eq!(wrist_counts(10, 3), (13, 7));
    assert_eq!(wrist_counts(-10, 3), (-7, -13));
}

#[test]
fn axes_are_distinct() {
    assert_ne!(Axis::Zed, Axis::Grip);
    assert_eq!(Axis::WristPitch, Axis::WristPitch);
    assert_ne!(AxisKind::Linear, AxisKind::Rotary);
    assert_ne!(AxisKind::Orbital, AxisKind::Rotary);
}
