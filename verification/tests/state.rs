use nojoin_companion::config::Config;
use nojoin_companion::state::{
    disposition_for, AppState, AppStatus, AudioCommand, ControlAction, Disposition,
};

fn state_with_minimum(minutes: Option<u32>) -> AppState {
    let mut config = Config::default();
    config.min_meeting_length = minutes;
    AppState::new(config)
}

#[test]
fn new_state_is_at_rest() {
    let state = AppState::new(Config::default());
    assert_eq!(state.status, AppStatus::Idle);
    assert_eq!(state.current_recording_id, None);
    assert_eq!(state.current_sequence, 1);
    assert_eq!(state.recording_start_time, None);
    assert_eq!(state.accumulated_duration, 0);
    assert!(!state.is_recording);
    assert!(state.can_start());
    assert!(!state.is_authenticated());
}

#[test]
fn start_launches_capture_at_sequence_one() {
    let mut state = AppState::new(Config::default());
    let action = state.apply(AudioCommand::Start(17), 1_000);
    assert_eq!(action, ControlAction::Launch { recording_id: 17, sequence: 1 });
    assert_eq!(state.status, AppStatus::Recording);
    assert_eq!(state.current_recording_id, Some(17));
    assert_eq!(state.current_sequence, 1);
    assert_eq!(state.recording_start_time, Some(1_000));
    assert!(state.is_recording);
    assert!(!state.can_start());
}

#[test]
fn start_is_valid_from_backend_offline() {
    let mut state = AppState::new(Config::default());
    state.backend_checked(false);
    assert_eq!(state.status, AppStatus::BackendOffline);
    let action = state.apply(AudioCommand::Start(3), 0);
    assert_eq!(action, ControlAction::Launch { recording_id: 3, sequence: 1 });
    assert_eq!(state.status, AppStatus::Recording);
}

#[test]
fn start_is_rejected_while_a_session_is_under_way() {
    let mut state = AppState::new(Config::default());
    state.apply(AudioCommand::Start(1), 0);
    assert_eq!(state.apply(AudioCommand::Start(2), 5), ControlAction::Rejected);
    assert_eq!(state.current_recording_id, Some(1));
    state.apply(AudioCommand::Pause, 10);
    assert_eq!(state.apply(AudioCommand::Start(2), 20), ControlAction::Rejected);
    assert_eq!(state.status, AppStatus::Paused);
    state.apply(AudioCommand::Stop, 30);
    assert_eq!(state.apply(AudioCommand::Start(2), 40), ControlAction::Rejected);
    assert_eq!(state.status, AppStatus::Uploading);
}

#[test]
fn pause_and_resume_apply_only_in_their_status() {
    let mut state = AppState::new(Config::default());
    assert_eq!(state.apply(AudioCommand::Pause, 0), ControlAction::Rejected);
    assert_eq!(state.apply(AudioCommand::Resume, 0), ControlAction::Rejected);
    assert_eq!(state.status, AppStatus::Idle);
    state.apply(AudioCommand::Start(5), 0);
    assert_eq!(state.apply(AudioCommand::Resume, 1), ControlAction::Rejected);
    assert_eq!(state.apply(AudioCommand::Pause, 2), ControlAction::Halt);
    assert_eq!(state.apply(AudioCommand::Pause, 3), ControlAction::Rejected);
    assert_eq!(state.accumulated_duration, 2);
}

#[test]
fn sequence_survives_pause_and_resume() {
    let mut state = AppState::new(Config::default());
    state.apply(AudioCommand::Start(8), 0);
    state.publish_sequence(2);
    state.publish_sequence(3);
    state.publish_sequence(4);
    assert_eq!(state.apply(AudioCommand::Pause, 900_000), ControlAction::Halt);
    assert_eq!(state.status, AppStatus::Paused);
    assert!(!state.is_recording);
    assert_eq!(state.current_sequence, 4);
    let action = state.apply(AudioCommand::Resume, 1_000_000);
    assert_eq!(action, ControlAction::Launch { recording_id: 8, sequence: 4 });
    assert_eq!(state.status, AppStatus::Recording);
    assert_eq!(state.current_sequence, 4);
    assert_eq!(state.recording_start_time, Some(1_000_000));
}

#[test]
fn published_sequence_only_moves_forward() {
    let mut state = AppState::new(Config::default());
    state.publish_sequence(9);
    assert_eq!(state.current_sequence, 1);
    state.apply(AudioCommand::Start(8), 0);
    state.publish_sequence(3);
    state.publish_sequence(2);
    assert_eq!(state.current_sequence, 3);
}

#[test]
fn short_session_is_discarded() {
    let mut state = state_with_minimum(Some(2));
    state.apply(AudioCommand::Start(21), 10_000);
    let action = state.apply(AudioCommand::Stop, 100_000);
    assert_eq!(
        action,
        ControlAction::Close { recording_id: 21, duration_secs: 90, disposition: Disposition::Discard }
    );
    assert_eq!(state.status, AppStatus::Uploading);
    assert!(!state.is_recording);
    assert_eq!(state.current_recording_id, Some(21));
}

#[test]
fn long_enough_session_is_finalized() {
    let mut state = state_with_minimum(Some(2));
    state.apply(AudioCommand::Start(22), 10_000);
    let action = state.apply(AudioCommand::Stop, 160_000);
    assert_eq!(
        action,
        ControlAction::Close { recording_id: 22, duration_secs: 150, disposition: Disposition::Finalize }
    );
}

#[test]
fn disposition_follows_the_minimum() {
    assert_eq!(disposition_for(90, Some(2)), Disposition::Discard);
    assert_eq!(disposition_for(119, Some(2)), Disposition::Discard);
    assert_eq!(disposition_for(120, Some(2)), Disposition::Finalize);
    assert_eq!(disposition_for(150, Some(2)), Disposition::Finalize);
    assert_eq!(disposition_for(0, Some(0)), Disposition::Finalize);
    assert_eq!(disposition_for(0, None), Disposition::Finalize);
    assert_eq!(disposition_for(u64::MAX, Some(u32::MAX)), Disposition::Finalize);
    assert_eq!(disposition_for(257_698_037_699, Some(u32::MAX)), Disposition::Discard);
}

#[test]
fn stop_counts_active_intervals_only() {
    let mut state = state_with_minimum(Some(1));
    state.apply(AudioCommand::Start(4), 1_000);
    state.apply(AudioCommand::Pause, 41_000);
    assert_eq!(state.accumulated_duration, 40_000);
    assert_eq!(state.duration_seconds(500_000), 40);
    state.apply(AudioCommand::Resume, 600_000);
    assert_eq!(state.duration_seconds(610_500), 50);
    let action = state.apply(AudioCommand::Stop, 625_999);
    assert_eq!(
        action,
        ControlAction::Close { recording_id: 4, duration_secs: 65, disposition: Disposition::Finalize }
    );
    assert_eq!(state.duration_seconds(700_000), 0);
}

#[test]
fn clock_running_backwards_adds_nothing() {
    let mut state = AppState::new(Config::default());
    state.apply(AudioCommand::Start(4), 50_000);
    assert_eq!(state.duration_seconds(10_000), 0);
    state.apply(AudioCommand::Pause, 10_000);
    assert_eq!(state.accumulated_duration, 0);
}

#[test]
fn stop_without_recording_returns_to_idle() {
    let mut state = AppState::new(Config::default());
    state.backend_checked(false);
    assert_eq!(state.apply(AudioCommand::Stop, 0), ControlAction::Halt);
    assert_eq!(state.status, AppStatus::Idle);
}

#[test]
fn finish_session_resets_the_session() {
    let mut state = AppState::new(Config::default());
    state.apply(AudioCommand::Start(30), 0);
    state.publish_sequence(7);
    state.apply(AudioCommand::Stop, 5_000);
    state.finish_session();
    assert_eq!(state.status, AppStatus::Idle);
    assert_eq!(state.current_recording_id, None);
    assert_eq!(state.current_sequence, 1);
    assert_eq!(state.accumulated_duration, 0);
    assert_eq!(state.recording_start_time, None);
    assert!(state.can_start());
}

#[test]
fn capture_failure_shows_and_needs_stop_then_start() {
    let mut state = AppState::new(Config::default());
    state.apply(AudioCommand::Start(30), 0);
    state.capture_failed("No output device available".to_string());
    assert_eq!(state.status, AppStatus::Error("No output device available".to_string()));
    assert!(!state.is_recording);
    assert_eq!(state.apply(AudioCommand::Start(31), 1), ControlAction::Rejected);
    assert_eq!(state.apply(AudioCommand::Resume, 1), ControlAction::Rejected);
    let action = state.apply(AudioCommand::Stop, 2_000);
    assert_eq!(
        action,
        ControlAction::Close { recording_id: 30, duration_secs: 2, disposition: Disposition::Finalize }
    );
    state.finish_session();
    assert_eq!(
        state.apply(AudioCommand::Start(31), 3_000),
        ControlAction::Launch { recording_id: 31, sequence: 1 }
    );
}

#[test]
fn health_checks_touch_only_the_resting_status() {
    let mut state = AppState::new(Config::default());
    state.backend_checked(true);
    assert!(state.is_backend_connected);
    assert_eq!(state.status, AppStatus::Idle);
    state.backend_checked(false);
    assert!(!state.is_backend_connected);
    assert_eq!(state.status, AppStatus::BackendOffline);
    state.backend_checked(true);
    assert_eq!(state.status, AppStatus::Idle);
    state.apply(AudioCommand::Start(1), 0);
    state.backend_checked(false);
    assert_eq!(state.status, AppStatus::Recording);
    state.backend_checked(true);
    assert_eq!(state.status, AppStatus::Recording);
}

#[test]
fn levels_hold_their_peak_until_taken() {
    let mut state = AppState::new(Config::default());
    state.record_input_level(30);
    state.record_input_level(10);
    state.record_output_level(120);
    state.record_output_level(5);
    assert_eq!(state.take_input_level(), 30);
    assert_eq!(state.take_input_level(), 0);
    assert_eq!(state.take_output_level(), 100);
    assert_eq!(state.take_output_level(), 0);
}

#[test]
fn authenticated_means_a_token_is_set() {
    let mut state = AppState::new(Config::default());
    assert!(!state.is_authenticated());
    state.config.api_token = "t".to_string();
    assert!(state.is_authenticated());
}

#[test]
fn status_label_follows_status_and_pairing() {
    let mut state = AppState::new(Config::default());
    assert_eq!(state.status_label(), "Status: Waiting for connection...");
    state.config.api_token = "t".to_string();
    assert_eq!(state.status_label(), "Status: Ready to Record");
    state.backend_checked(false);
    assert_eq!(state.status_label(), "Status: Backend Not Found...");
    state.apply(AudioCommand::Start(1), 0);
    assert_eq!(state.status_label(), "Status: Recording");
    state.apply(AudioCommand::Pause, 1);
    assert_eq!(state.status_label(), "Status: Recording Paused");
    state.apply(AudioCommand::Stop, 2);
    assert_eq!(state.status_label(), "Status: Uploading Recording");
    state.capture_failed("x".to_string());
    assert_eq!(state.status_label(), "Status: Error");
}
