use audio_pipeline::controller::{AudioAction, SessionController, Status};
use audio_pipeline::utils::BuildInfo;

#[test]
fn fresh_controller_is_ready_with_nothing_open() {
    let c = SessionController::new();
    assert!(!c.record_is_open());
    assert!(!c.play_is_open());
    assert_eq!(c.current_status(), Status::Ready);
}

#[test]
fn stop_then_start_record_closes_before_opening() {
    let mut c = SessionController::new();
    c.start_record();

    // Stop releases the open capture stream...
    let stop_acts = c.stop();
    assert_eq!(stop_acts, vec![AudioAction::CloseRecordStream]);
    assert!(!c.record_is_open());
    assert_eq!(c.current_status(), Status::Stopped);

    // ...so the immediate restart opens the device fresh, with no close
    // pending anywhere after the open.
    let start_acts = c.start_record();
    assert_eq!(
        start_acts,
        vec![AudioAction::SpawnEncodeWorker, AudioAction::OpenRecordStream]
    );
    assert!(c.record_is_open());
    assert_eq!(c.current_status(), Status::Recording);
}

#[test]
fn restarting_record_closes_the_old_stream_first() {
    let mut c = SessionController::new();
    c.start_record();
    let acts = c.start_record();
    assert_eq!(
        acts,
        vec![
            AudioAction::CloseRecordStream,
            AudioAction::SpawnEncodeWorker,
            AudioAction::OpenRecordStream,
        ]
    );
}

#[test]
fn restarting_play_closes_the_old_stream_first() {
    let mut c = SessionController::new();
    let first = c.start_play();
    assert_eq!(
        first,
        vec![AudioAction::SpawnDecodeWorker, AudioAction::OpenPlayStream]
    );
    let second = c.start_play();
    assert_eq!(
        second,
        vec![
            AudioAction::ClosePlayStream,
            AudioAction::SpawnDecodeWorker,
            AudioAction::OpenPlayStream,
        ]
    );
    assert_eq!(c.current_status(), Status::Playing);
}

#[test]
fn stop_closes_playback_before_capture() {
    let mut c = SessionController::new();
    c.start_record();
    c.start_play();
    assert!(c.record_is_open() && c.play_is_open());

    let acts = c.stop();
    assert_eq!(
        acts,
        vec![AudioAction::ClosePlayStream, AudioAction::CloseRecordStream]
    );
    assert!(!c.record_is_open() && !c.play_is_open());
}

#[test]
fn stop_with_nothing_open_does_nothing() {
    let mut c = SessionController::new();
    let acts = c.stop();
    assert!(acts.is_empty());
    assert_eq!(c.current_status(), Status::Stopped);
}

#[test]
fn a_failed_operation_only_reaches_the_user_as_status() {
    let mut c = SessionController::new();
    c.start_play();
    c.start_record();

    c.record_failed();
    assert!(!c.record_is_open());
    assert!(c.play_is_open());
    assert_eq!(c.current_status(), Status::Failed);

    c.play_failed();
    assert!(!c.play_is_open());
    assert_eq!(c.current_status(), Status::Failed);
}

#[test]
fn status_labels_match_the_control_surface() {
    let mut c = SessionController::new();
    assert_eq!(c.status_label(), "ok");
    c.start_record();
    assert_eq!(c.status_label(), "recording");
    c.start_play();
    assert_eq!(c.status_label(), "playing");
    c.stop();
    assert_eq!(c.status_label(), "stopped");
    c.record_failed();
    assert_eq!(c.status_label(), "err");
}

#[test]
fn build_info_carries_its_fields() {
    let info = BuildInfo {
        build_timestamp: "2024-01-01T00:00:00Z",
        build_date: "2024-01-01",
        git_branch: "main",
        git_timestamp: "2024-01-01T00:00:00Z",
        git_date: "2024-01-01",
        git_hash: "0123456789abcdef",
        git_describe: "v0.1.0",
        rustc_host_triple: "x86_64-unknown-linux-gnu",
        rustc_version: "1.76.0",
        cargo_target_triple: "aarch64-linux-android",
    };
    let copy = info.clone();
    assert_eq!(info, copy);
    assert_eq!(copy.git_branch, "main");
}
