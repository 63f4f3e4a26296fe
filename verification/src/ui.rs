//! UI decisions: the key-binding table and what each binding does to the
//! control record. Reading the terminal and drawing belong to the
//! application layer; it feeds key characters in and carries the returned
//! command out to the playlist and the engine.

use crate::control::{spec_dec, spec_inc, ModuleControl};
use vstd::prelude::*;

verus! {

/// The UI's input mode.
pub enum UiMode {
    /// Keys drive playback.
    Normal,
    /// Keys edit the playlist filter.
    Filter,
}

impl Default for UiMode {
    fn default() -> (r: UiMode)
        ensures
            r is Normal,
    {
        UiMode::Normal
    }
}

/// What the event loop should do after a key was handled.
pub enum HandleKeyResult {
    Nothing,
    Redraw,
    Quit,
}

/// Everything a key press can ask for.
#[derive(Clone, Copy, PartialEq, Eq, Structural, Debug)]
pub enum KeyCommand {
    Nothing,
    Redraw,
    Quit,
    NextTrack,
    PreviousTrack,
    NextTrackBig,
    PreviousTrackBig,
    TempoDown,
    TempoUp,
    PitchDown,
    PitchUp,
    GainDown,
    GainUp,
    StereoSeparationDown,
    StereoSeparationUp,
    FilterTapsDown,
    FilterTapsUp,
    VolumeRampingDown,
    VolumeRampingUp,
    ToggleRepeat,
    PauseResume,
}

/// The key-binding table: control-l redraws; every other binding goes by
/// the bare character.
pub open spec fn spec_key_command(ch: char, ctrl: bool) -> KeyCommand {
    if ctrl && ch == 'l' {
        KeyCommand::Redraw
    } else if ch == 'q' {
        KeyCommand::Quit
    } else if ch == 'm' {
        KeyCommand::NextTrack
    } else if ch == 'n' {
        KeyCommand::PreviousTrack
    } else if ch == 'M' {
        KeyCommand::NextTrackBig
    } else if ch == 'N' {
        KeyCommand::PreviousTrackBig
    } else if ch == 'u' {
        KeyCommand::TempoDown
    } else if ch == 'i' {
        KeyCommand::TempoUp
    } else if ch == 'o' {
        KeyCommand::PitchDown
    } else if ch == 'p' {
        KeyCommand::PitchUp
    } else if ch == '3' {
        KeyCommand::GainDown
    } else if ch == '4' {
        KeyCommand::GainUp
    } else if ch == '5' {
        KeyCommand::StereoSeparationDown
    } else if ch == '6' {
        KeyCommand::StereoSeparationUp
    } else if ch == '7' {
        KeyCommand::FilterTapsDown
    } else if ch == '8' {
        KeyCommand::FilterTapsUp
    } else if ch == '9' {
        KeyCommand::VolumeRampingDown
    } else if ch == '0' {
        KeyCommand::VolumeRampingUp
    } else if ch == 'r' {
        KeyCommand::ToggleRepeat
    } else if ch == ' ' {
        KeyCommand::PauseResume
    } else {
        KeyCommand::Nothing
    }
}

/// Decide what a key press asks for.
pub fn handle_key_event(ch: char, ctrl: bool) -> (r: KeyCommand)
    ensures
        r == spec_key_command(ch, ctrl),
{
    if ctrl && ch == 'l' {
        KeyCommand::Redraw
    } else {
        match ch {
            'q' => KeyCommand::Quit,
            'm' => KeyCommand::NextTrack,
            'n' => KeyCommand::PreviousTrack,
            'M' => KeyCommand::NextTrackBig,
            'N' => KeyCommand::PreviousTrackBig,
            'u' => KeyCommand::TempoDown,
            'i' => KeyCommand::TempoUp,
            'o' => KeyCommand::PitchDown,
            'p' => KeyCommand::PitchUp,
            '3' => KeyCommand::GainDown,
            '4' => KeyCommand::GainUp,
            '5' => KeyCommand::StereoSeparationDown,
            '6' => KeyCommand::StereoSeparationUp,
            '7' => KeyCommand::FilterTapsDown,
            '8' => KeyCommand::FilterTapsUp,
            '9' => KeyCommand::VolumeRampingDown,
            '0' => KeyCommand::VolumeRampingUp,
            'r' => KeyCommand::ToggleRepeat,
            ' ' => KeyCommand::PauseResume,
            _ => KeyCommand::Nothing,
        }
    }
}

/// What the event loop does with a command that is not a control or
/// playback action.
pub fn key_result(cmd: &KeyCommand) -> (r: HandleKeyResult)
    ensures
        cmd is Redraw ==> r is Redraw,
        cmd is Quit ==> r is Quit,
        !(cmd is Redraw) && !(cmd is Quit) ==> r is Nothing,
{
    match cmd {
        KeyCommand::Redraw => HandleKeyResult::Redraw,
        KeyCommand::Quit => HandleKeyResult::Quit,
        _ => HandleKeyResult::Nothing,
    }
}

/// Whether a command mutates the control record.
pub open spec fn is_control_command(cmd: KeyCommand) -> bool {
    match cmd {
        KeyCommand::TempoDown => true,
        KeyCommand::TempoUp => true,
        KeyCommand::PitchDown => true,
        KeyCommand::PitchUp => true,
        KeyCommand::GainDown => true,
        KeyCommand::GainUp => true,
        KeyCommand::StereoSeparationDown => true,
        KeyCommand::StereoSeparationUp => true,
        KeyCommand::FilterTapsDown => true,
        KeyCommand::FilterTapsUp => true,
        KeyCommand::VolumeRampingDown => true,
        KeyCommand::VolumeRampingUp => true,
        KeyCommand::ToggleRepeat => true,
        _ => false,
    }
}

/// What a control command does to the record: the matching tunable moves
/// one step, the repeat toggle flips, anything else leaves it alone.
pub open spec fn spec_apply_control(c: ModuleControl, cmd: KeyCommand) -> ModuleControl {
    match cmd {
        KeyCommand::TempoDown => ModuleControl { tempo: spec_dec(c.tempo), ..c },
        KeyCommand::TempoUp => ModuleControl { tempo: spec_inc(c.tempo), ..c },
        KeyCommand::PitchDown => ModuleControl { pitch: spec_dec(c.pitch), ..c },
        KeyCommand::PitchUp => ModuleControl { pitch: spec_inc(c.pitch), ..c },
        KeyCommand::GainDown => ModuleControl { gain: spec_dec(c.gain), ..c },
        KeyCommand::GainUp => ModuleControl { gain: spec_inc(c.gain), ..c },
        KeyCommand::StereoSeparationDown => ModuleControl {
            stereo_separation: spec_dec(c.stereo_separation),
            ..c
        },
        KeyCommand::StereoSeparationUp => ModuleControl {
            stereo_separation: spec_inc(c.stereo_separation),
            ..c
        },
        KeyCommand::FilterTapsDown => ModuleControl { filter_taps: spec_dec(c.filter_taps), ..c },
        KeyCommand::FilterTapsUp => ModuleControl { filter_taps: spec_inc(c.filter_taps), ..c },
        KeyCommand::VolumeRampingDown => ModuleControl {
            volume_ramping: spec_dec(c.volume_ramping),
            ..c
        },
        KeyCommand::VolumeRampingUp => ModuleControl {
            volume_ramping: spec_inc(c.volume_ramping),
            ..c
        },
        KeyCommand::ToggleRepeat => ModuleControl { repeat: !c.repeat, ..c },
        _ => c,
    }
}

/// Apply a control command to the control record. Reports whether the
/// record changed, so the caller pushes the new record to the engine.
pub fn apply_control_command(control: &mut ModuleControl, cmd: &KeyCommand) -> (changed: bool)
    requires
        old(control).wf(),
    ensures
        *final(control) == spec_apply_control(*old(control), *cmd),
        changed == is_control_command(*cmd),
        final(control).wf(),
{
    match cmd {
        KeyCommand::TempoDown => {
            control.tempo_down();
            true
        },
        KeyCommand::TempoUp => {
            control.tempo_up();
            true
        },
        KeyCommand::PitchDown => {
            control.pitch_down();
            true
        },
        KeyCommand::PitchUp => {
            control.pitch_up();
            true
        },
        KeyCommand::GainDown => {
            control.gain_down();
            true
        },
        KeyCommand::GainUp => {
            control.gain_up();
            true
        },
        KeyCommand::StereoSeparationDown => {
            control.stereo_separation_down();
            true
        },
        KeyCommand::StereoSeparationUp => {
            control.stereo_separation_up();
            true
        },
        KeyCommand::FilterTapsDown => {
            control.filter_taps_down();
            true
        },
        KeyCommand::FilterTapsUp => {
            control.filter_taps_up();
            true
        },
        KeyCommand::VolumeRampingDown => {
            control.volume_ramping_down();
            true
        },
        KeyCommand::VolumeRampingUp => {
            control.volume_ramping_up();
            true
        },
        KeyCommand::ToggleRepeat => {
            control.toggle_repeat();
            true
        },
        _ => false,
    }
}

/// The width of the message pane: wide enough for the longest message
/// line, never narrower than a sample-name column, plus the border.
pub fn message_window_width(message_width: Option<usize>) -> (r: usize)
    requires
        message_width matches Some(w) ==> w <= usize::MAX - 2,
    ensures
        r == vstd::math::max(
            22,
            match message_width {
                Some(w) => w as int,
                None => 0,
            },
        ) + 2,
{
    let base = match message_width {
        Some(w) => if w > 22 {
            w
        } else {
            22
        },
        None => 22,
    };
    base + 2
}

} // verus!
