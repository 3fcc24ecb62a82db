use playback_core::transport::{
    Action, Command, PipelineShape, RebuildPlan, SeekRequest, TransportController, TransportState,
};

const SECOND: u128 = 1_000_000_000;
const MILLI: u128 = 1_000_000;

#[test]
fn new_controller_is_stopped_at_zero() {
    let mut transport = TransportController::new(200 * SECOND, true, 5);
    assert_eq!(transport.state(), TransportState::Stopped);
    assert!(transport.is_paused());
    assert!(transport.is_equalizer_enabled());
    assert_eq!(transport.track_duration(), 200 * SECOND);
    assert_eq!(transport.current_position(5), 0);
    assert_eq!(transport.current_position(90 * SECOND), 0);
}

#[test]
fn play_from_stopped_counts_elapsed_time() {
    let mut transport = TransportController::new(200 * SECOND, true, 0);
    assert_eq!(transport.play(SECOND), Action::ResumeSink);
    assert_eq!(transport.state(), TransportState::Playing);
    assert_eq!(transport.current_position(SECOND + 10 * MILLI), 10 * MILLI);
    assert_eq!(transport.current_position(4 * SECOND), 3 * SECOND);
}

#[test]
fn pause_freezes_position() {
    let mut transport = TransportController::new(200 * SECOND, true, 0);
    transport.play(0);
    assert_eq!(transport.current_position(2 * SECOND), 2 * SECOND);
    assert_eq!(transport.pause(3 * SECOND), Action::PauseSink);
    assert_eq!(transport.state(), TransportState::Paused);
    assert!(transport.is_paused());
    assert_eq!(transport.current_position(3 * SECOND), 3 * SECOND);
    assert_eq!(transport.current_position(500 * SECOND), 3 * SECOND);
}

#[test]
fn resume_continues_from_paused_position() {
    let mut transport = TransportController::new(200 * SECOND, false, 0);
    transport.play(0);
    transport.pause(3 * SECOND);
    assert_eq!(transport.play(10 * SECOND), Action::ResumeSink);
    assert!(!transport.is_paused());
    assert_eq!(transport.current_position(10 * SECOND), 3 * SECOND);
    assert_eq!(transport.current_position(12 * SECOND), 5 * SECOND);
}

#[test]
fn redundant_play_is_a_no_op() {
    let mut transport = TransportController::new(200 * SECOND, true, 0);
    transport.play(0);
    assert_eq!(transport.play(2 * SECOND), Action::Nothing);
    assert_eq!(transport.state(), TransportState::Playing);
    assert_eq!(transport.current_position(3 * SECOND), 3 * SECOND);
}

#[test]
fn redundant_pause_is_a_no_op() {
    let mut transport = TransportController::new(200 * SECOND, true, 0);
    transport.play(0);
    transport.pause(SECOND);
    assert_eq!(transport.pause(2 * SECOND), Action::Nothing);
    assert_eq!(transport.state(), TransportState::Paused);
    assert_eq!(transport.current_position(3 * SECOND), SECOND);
}

#[test]
fn pause_before_first_play_is_a_no_op() {
    let mut transport = TransportController::new(200 * SECOND, true, 0);
    assert_eq!(transport.pause(SECOND), Action::Nothing);
    assert_eq!(transport.state(), TransportState::Stopped);
    assert_eq!(transport.current_position(2 * SECOND), 0);
}

#[test]
fn seek_forward_five_seconds_from_start_while_paused() {
    let mut transport = TransportController::new(200 * SECOND, true, 0);
    transport.play(0);
    transport.pause(0);
    let plan = transport.seek(SeekRequest::Forward(5 * SECOND), SECOND);
    assert_eq!(
        plan,
        RebuildPlan { skip_to: 5 * SECOND, shape: PipelineShape::Equalized, resume: false }
    );
    assert!(transport.is_paused());
    assert_eq!(transport.current_position(SECOND), 5 * SECOND);
    assert_eq!(transport.current_position(30 * SECOND), 5 * SECOND);
}

#[test]
fn seek_backward_five_seconds_from_three_clamps_to_zero() {
    let mut transport = TransportController::new(200 * SECOND, true, 0);
    transport.seek(SeekRequest::To(3 * SECOND), 0);
    assert_eq!(transport.current_position(0), 3 * SECOND);
    let plan = transport.seek(SeekRequest::Backward(5 * SECOND), SECOND);
    assert_eq!(plan.skip_to, 0);
    assert!(!plan.resume);
    assert_eq!(transport.current_position(SECOND), 0);
}

#[test]
fn seek_backward_within_track() {
    let mut transport = TransportController::new(200 * SECOND, true, 0);
    transport.seek(SeekRequest::To(30 * SECOND), 0);
    let plan = transport.seek(SeekRequest::Backward(5 * SECOND), 0);
    assert_eq!(plan.skip_to, 25 * SECOND);
    assert_eq!(transport.current_position(0), 25 * SECOND);
}

#[test]
fn seek_past_end_clamps_to_duration() {
    let mut transport = TransportController::new(200 * SECOND, false, 0);
    let plan = transport.seek(SeekRequest::To(500 * SECOND), 0);
    assert_eq!(
        plan,
        RebuildPlan { skip_to: 200 * SECOND, shape: PipelineShape::Raw, resume: false }
    );
    assert_eq!(transport.current_position(0), 200 * SECOND);
    transport.seek(SeekRequest::To(198 * SECOND), 0);
    let plan = transport.seek(SeekRequest::Forward(5 * SECOND), 0);
    assert_eq!(plan.skip_to, 200 * SECOND);
    let plan = transport.seek(SeekRequest::Forward(u128::MAX), 0);
    assert_eq!(plan.skip_to, 200 * SECOND);
    let plan = transport.seek(SeekRequest::Backward(u128::MAX), 0);
    assert_eq!(plan.skip_to, 0);
}

#[test]
fn seek_while_playing_resumes_and_keeps_counting() {
    let mut transport = TransportController::new(200 * SECOND, true, 0);
    transport.play(0);
    let plan = transport.seek(SeekRequest::To(60 * SECOND), 4 * SECOND);
    assert_eq!(
        plan,
        RebuildPlan { skip_to: 60 * SECOND, shape: PipelineShape::Equalized, resume: true }
    );
    assert_eq!(transport.state(), TransportState::Playing);
    assert_eq!(transport.current_position(4 * SECOND), 60 * SECOND);
    assert_eq!(transport.current_position(6 * SECOND), 62 * SECOND);
}

#[test]
fn relative_seek_while_playing_starts_from_current_position() {
    let mut transport = TransportController::new(200 * SECOND, true, 0);
    transport.play(0);
    let plan = transport.seek(SeekRequest::Forward(5 * SECOND), 10 * SECOND);
    assert_eq!(plan.skip_to, 15 * SECOND);
    assert!(plan.resume);
    let plan = transport.seek(SeekRequest::Backward(5 * SECOND), 12 * SECOND);
    assert_eq!(plan.skip_to, 12 * SECOND);
    assert_eq!(transport.current_position(13 * SECOND), 13 * SECOND);
}

#[test]
fn seek_target_does_not_change_anything() {
    let mut transport = TransportController::new(200 * SECOND, true, 0);
    transport.play(0);
    assert_eq!(transport.seek_target(SeekRequest::Forward(5 * SECOND), 10 * SECOND), 15 * SECOND);
    assert_eq!(transport.seek_target(SeekRequest::To(900 * SECOND), 10 * SECOND), 200 * SECOND);
    assert_eq!(transport.seek_target(SeekRequest::Backward(11 * SECOND), 10 * SECOND), 0);
    assert_eq!(transport.state(), TransportState::Playing);
    assert_eq!(transport.current_position(10 * SECOND), 10 * SECOND);
}

#[test]
fn seek_before_first_play_stays_stopped() {
    let mut transport = TransportController::new(200 * SECOND, true, 0);
    let plan = transport.seek(SeekRequest::To(20 * SECOND), SECOND);
    assert!(!plan.resume);
    assert_eq!(transport.state(), TransportState::Stopped);
    assert_eq!(transport.play(2 * SECOND), Action::ResumeSink);
    assert_eq!(transport.current_position(3 * SECOND), 21 * SECOND);
}

#[test]
fn toggle_flips_flag_and_rebuilds_in_place() {
    let mut transport = TransportController::new(200 * SECOND, true, 0);
    transport.play(0);
    let plan = transport.toggle_equalizer(7 * SECOND);
    assert_eq!(
        plan,
        RebuildPlan { skip_to: 7 * SECOND, shape: PipelineShape::Raw, resume: true }
    );
    assert!(!transport.is_equalizer_enabled());
    assert_eq!(transport.state(), TransportState::Playing);
    assert_eq!(transport.current_position(8 * SECOND), 8 * SECOND);
}

#[test]
fn toggle_twice_restores_flag_and_state() {
    let mut transport = TransportController::new(200 * SECOND, false, 0);
    transport.play(0);
    transport.pause(9 * SECOND);
    let first = transport.toggle_equalizer(20 * SECOND);
    assert_eq!(
        first,
        RebuildPlan { skip_to: 9 * SECOND, shape: PipelineShape::Equalized, resume: false }
    );
    assert!(transport.is_equalizer_enabled());
    let second = transport.toggle_equalizer(30 * SECOND);
    assert_eq!(
        second,
        RebuildPlan { skip_to: 9 * SECOND, shape: PipelineShape::Raw, resume: false }
    );
    assert!(!transport.is_equalizer_enabled());
    assert!(transport.is_paused());
    assert_eq!(transport.current_position(40 * SECOND), 9 * SECOND);
}

#[test]
fn toggle_twice_while_playing_keeps_playing() {
    let mut transport = TransportController::new(200 * SECOND, true, 0);
    transport.play(0);
    assert!(transport.toggle_equalizer(SECOND).resume);
    assert!(transport.toggle_equalizer(2 * SECOND).resume);
    assert!(transport.is_equalizer_enabled());
    assert_eq!(transport.state(), TransportState::Playing);
    assert_eq!(transport.current_position(3 * SECOND), 3 * SECOND);
}

#[test]
fn end_of_track_is_seen_as_position_equal_to_duration() {
    let mut transport = TransportController::new(4 * SECOND, true, 0);
    transport.play(0);
    assert_eq!(transport.current_position(10 * SECOND), 4 * SECOND);
    assert_eq!(transport.current_position(11 * SECOND), transport.track_duration());
    assert_eq!(transport.state(), TransportState::Playing);
}

#[test]
fn step_dispatches_each_command() {
    let mut stepped = TransportController::new(200 * SECOND, true, 0);
    let mut direct = TransportController::new(200 * SECOND, true, 0);
    assert_eq!(stepped.step(Command::Play, SECOND), direct.play(SECOND));
    assert_eq!(
        stepped.step(Command::Seek(SeekRequest::Forward(5 * SECOND)), 2 * SECOND),
        Action::Rebuild(direct.seek(SeekRequest::Forward(5 * SECOND), 2 * SECOND))
    );
    assert_eq!(
        stepped.step(Command::ToggleEqualizer, 3 * SECOND),
        Action::Rebuild(direct.toggle_equalizer(3 * SECOND))
    );
    assert_eq!(stepped.step(Command::Pause, 4 * SECOND), direct.pause(4 * SECOND));
    assert_eq!(stepped.state(), TransportState::Paused);
    assert!(!stepped.is_equalizer_enabled());
    assert_eq!(stepped.current_position(9 * SECOND), 8 * SECOND);
    assert_eq!(direct.current_position(9 * SECOND), 8 * SECOND);
}
