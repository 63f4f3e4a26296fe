use tuimodplayer::control::ModuleControl;
use tuimodplayer::ui::{
    apply_control_command, handle_key_event, key_result, message_window_width, HandleKeyResult,
    KeyCommand, UiMode,
};
use tuimodplayer::util::{
    add_modulo_unsigned, center_region, force_wrap_line, latest_records_fitting, screen_width,
    sub_modulo_unsigned,
};

#[test]
fn modular_arithmetic_wraps() {
    assert_eq!(add_modulo_unsigned(4, 2, 5), 1);
    assert_eq!(add_modulo_unsigned(0, 0, 5), 0);
    assert_eq!(add_modulo_unsigned(4, 4, 5), 3);
    assert_eq!(sub_modulo_unsigned(1, 3, 5), 3);
    assert_eq!(sub_modulo_unsigned(3, 1, 5), 2);
    assert_eq!(sub_modulo_unsigned(0, 4, 5), 1);
}

#[test]
fn center_region_centres_or_clamps() {
    // Selection near the middle sits half a window from the top.
    assert_eq!(center_region(10, 4, 5), 3);
    // Selection near the start clamps to the top.
    assert_eq!(center_region(10, 4, 0), 0);
    assert_eq!(center_region(10, 4, 2), 0);
    // Selection near the end clamps to the bottom.
    assert_eq!(center_region(10, 4, 9), 6);
    // A list that fits needs no offset.
    assert_eq!(center_region(3, 10, 2), 0);
}

#[test]
fn screen_width_counts_characters() {
    assert_eq!(screen_width(""), 0);
    assert_eq!(screen_width("hello"), 5);
    assert_eq!(screen_width("h\u{e9}llo"), 5);
}

#[test]
fn force_wrap_line_chunks_exactly() {
    let chunks = force_wrap_line("abcdefgh", 3);
    assert_eq!(chunks, vec!["abc", "def", "gh"]);
    let exact = force_wrap_line("abcdef", 3);
    assert_eq!(exact, vec!["abc", "def"]);
    let empty = force_wrap_line("", 3);
    assert!(empty.is_empty());
    let wide = force_wrap_line("ab", 10);
    assert_eq!(wide, vec!["ab"]);
}

#[test]
fn latest_records_fit_the_pane() {
    // Newest records first from the back: 4 fits in 5, 4+3 does not.
    assert_eq!(latest_records_fitting(&vec![2, 3, 4], 5), 1);
    assert_eq!(latest_records_fitting(&vec![2, 3, 4], 7), 2);
    assert_eq!(latest_records_fitting(&vec![1, 1, 1], 5), 3);
    assert_eq!(latest_records_fitting(&vec![], 5), 0);
    // The newest record is shown even when it alone overflows.
    assert_eq!(latest_records_fitting(&vec![9], 5), 1);
}

#[test]
fn key_bindings_follow_the_table() {
    assert_eq!(handle_key_event('q', false), KeyCommand::Quit);
    assert_eq!(handle_key_event('l', true), KeyCommand::Redraw);
    assert_eq!(handle_key_event('l', false), KeyCommand::Nothing);
    assert_eq!(handle_key_event('m', false), KeyCommand::NextTrack);
    assert_eq!(handle_key_event('n', false), KeyCommand::PreviousTrack);
    assert_eq!(handle_key_event('M', false), KeyCommand::NextTrackBig);
    assert_eq!(handle_key_event('N', false), KeyCommand::PreviousTrackBig);
    assert_eq!(handle_key_event('u', false), KeyCommand::TempoDown);
    assert_eq!(handle_key_event('i', false), KeyCommand::TempoUp);
    assert_eq!(handle_key_event('o', false), KeyCommand::PitchDown);
    assert_eq!(handle_key_event('p', false), KeyCommand::PitchUp);
    assert_eq!(handle_key_event('3', false), KeyCommand::GainDown);
    assert_eq!(handle_key_event('4', false), KeyCommand::GainUp);
    assert_eq!(handle_key_event('5', false), KeyCommand::StereoSeparationDown);
    assert_eq!(handle_key_event('6', false), KeyCommand::StereoSeparationUp);
    assert_eq!(handle_key_event('7', false), KeyCommand::FilterTapsDown);
    assert_eq!(handle_key_event('8', false), KeyCommand::FilterTapsUp);
    assert_eq!(handle_key_event('9', false), KeyCommand::VolumeRampingDown);
    assert_eq!(handle_key_event('0', false), KeyCommand::VolumeRampingUp);
    assert_eq!(handle_key_event('r', false), KeyCommand::ToggleRepeat);
    assert_eq!(handle_key_event(' ', false), KeyCommand::PauseResume);
    assert_eq!(handle_key_event('z', false), KeyCommand::Nothing);
}

#[test]
fn key_results_only_for_loop_commands() {
    assert!(matches!(key_result(&KeyCommand::Quit), HandleKeyResult::Quit));
    assert!(matches!(
        key_result(&KeyCommand::Redraw),
        HandleKeyResult::Redraw
    ));
    assert!(matches!(
        key_result(&KeyCommand::TempoUp),
        HandleKeyResult::Nothing
    ));
}

#[test]
fn control_commands_move_their_tunable() {
    let mut c = ModuleControl::default();
    assert!(apply_control_command(&mut c, &KeyCommand::TempoUp));
    assert_eq!(c.tempo.value(), 1);
    assert!(apply_control_command(&mut c, &KeyCommand::TempoDown));
    assert_eq!(c.tempo.value(), 0);
    assert!(apply_control_command(&mut c, &KeyCommand::StereoSeparationUp));
    assert_eq!(c.stereo_separation.value(), 105);
    assert!(apply_control_command(&mut c, &KeyCommand::ToggleRepeat));
    assert!(c.repeat);
    assert!(!apply_control_command(&mut c, &KeyCommand::Quit));
    assert!(!apply_control_command(&mut c, &KeyCommand::PauseResume));
    assert_eq!(c.tempo.value(), 0);
}

#[test]
fn message_pane_width_has_a_floor_and_a_border() {
    assert_eq!(message_window_width(None), 24);
    assert_eq!(message_window_width(Some(10)), 24);
    assert_eq!(message_window_width(Some(30)), 32);
}

#[test]
fn ui_mode_starts_normal() {
    assert!(matches!(UiMode::default(), UiMode::Normal));
}
