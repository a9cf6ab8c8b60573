use otoware::control::{position_of_name, selection_from_index, FollowUp, PlaybackControl, UpdatePlan};
use otoware::device::{accept_format, accept_stream, DefaultFormatFailure, DeviceError, StreamCreationFailure};
use otoware::format::{AudioFormat, StreamKey};
use otoware::slots::InputBinding;

#[test]
fn checking_the_toggle_binds_both_devices() {
    let mut c = PlaybackControl::new();
    let plan = c.plan_update(Some(1), Some(2), true, false, false);
    assert_eq!(
        plan,
        UpdatePlan { enable_toggle: true, clear_player: false, uncheck_toggle: false, input: Some(1), output: Some(2) }
    );
    assert!(c.is_playing());
    assert_eq!(
        c.finish_input(&plan, true),
        FollowUp { clear_player: false, uncheck_toggle: false, output: Some(2) }
    );
    assert!(c.is_playing());
}

#[test]
fn while_playing_only_requested_devices_rebind() {
    let mut c = PlaybackControl::new();
    c.plan_update(Some(0), Some(0), true, false, false);
    let plan = c.plan_update(Some(3), Some(0), true, true, false);
    assert_eq!((plan.input, plan.output, plan.clear_player), (Some(3), None, false));
    let plan = c.plan_update(Some(3), Some(4), true, false, true);
    assert_eq!((plan.input, plan.output), (None, Some(4)));
}

#[test]
fn unchecking_clears_the_player() {
    let mut c = PlaybackControl::new();
    c.plan_update(Some(0), Some(0), true, false, false);
    let plan = c.plan_update(Some(0), Some(0), false, true, true);
    assert_eq!(
        plan,
        UpdatePlan { enable_toggle: true, clear_player: true, uncheck_toggle: false, input: None, output: None }
    );
    assert!(!c.is_playing());
}

#[test]
fn missing_selection_stops_and_disables() {
    let mut c = PlaybackControl::new();
    c.plan_update(Some(0), Some(0), true, false, false);
    let plan = c.plan_update(None, Some(0), true, true, true);
    assert_eq!(
        plan,
        UpdatePlan { enable_toggle: false, clear_player: true, uncheck_toggle: true, input: None, output: None }
    );
    assert!(!c.is_playing());
}

#[test]
fn failed_input_stops_playback_and_skips_output() {
    let mut c = PlaybackControl::new();
    let plan = c.plan_update(Some(0), Some(1), true, false, false);
    assert_eq!(
        c.finish_input(&plan, false),
        FollowUp { clear_player: true, uncheck_toggle: true, output: None }
    );
    assert!(!c.is_playing());
}

#[test]
fn combo_index_becomes_selection() {
    assert_eq!(selection_from_index(-1, 3), None);
    assert_eq!(selection_from_index(0, 3), Some(0));
    assert_eq!(selection_from_index(2, 3), Some(2));
    assert_eq!(selection_from_index(3, 3), None);
    assert_eq!(selection_from_index(0, 0), None);
}

#[test]
fn default_device_found_by_name() {
    let names = vec!["Mic".to_string(), "Line In".to_string(), "Mic".to_string()];
    assert_eq!(position_of_name(&names, &"Mic".to_string()), Some(0));
    assert_eq!(position_of_name(&names, &"Line In".to_string()), Some(1));
    assert_eq!(position_of_name(&names, &"USB".to_string()), None);
    assert_eq!(position_of_name(&Vec::new(), &"Mic".to_string()), None);
}

#[test]
fn format_answers_map_to_device_errors() {
    assert_eq!(accept_format(Ok((2, 44100))), Ok(AudioFormat::new(2, 44100).unwrap()));
    assert_eq!(accept_format(Ok((0, 44100))), Err(DeviceError::FormatNegotiationFailed));
    assert_eq!(
        accept_format(Err(DefaultFormatFailure::DeviceNotAvailable)),
        Err(DeviceError::DeviceUnavailable)
    );
    assert_eq!(
        accept_format(Err(DefaultFormatFailure::StreamTypeNotSupported)),
        Err(DeviceError::FormatNegotiationFailed)
    );
}

#[test]
fn stream_answers_map_to_bindings() {
    let f = AudioFormat::new(1, 8000).unwrap();
    assert_eq!(accept_stream(Ok(StreamKey(9)), f), Ok(InputBinding { stream: StreamKey(9), format: f }));
    assert_eq!(
        accept_stream(Err(StreamCreationFailure::DeviceNotAvailable), f),
        Err(DeviceError::DeviceUnavailable)
    );
    assert_eq!(
        accept_stream(Err(StreamCreationFailure::FormatNotSupported), f),
        Err(DeviceError::FormatNegotiationFailed)
    );
}
