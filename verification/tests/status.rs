use lol_clip_tool::status::{
    AppStatus, GameEvent, GameState, ObsRequest, ObsState, RecorderAction, RecordingMode,
};

fn ev(name: &str, killer: Option<&str>) -> GameEvent {
    GameEvent { name: name.to_string(), killer_name: killer.map(|k| k.to_string()) }
}

#[test]
fn new_status_is_idle() {
    let s = AppStatus::new(RecordingMode::Shell);
    assert_eq!(s.game_state, GameState::NotStarted);
    assert_eq!(s.obs_state, ObsState::Disconnected);
    assert_eq!(s.recording_mode, RecordingMode::Shell);
    assert!(!s.is_recording && !s.replay_buffer_running);
}

#[test]
fn obs_mode_commands_become_obs_requests() {
    let mut s = AppStatus::new(RecordingMode::Obs);
    assert_eq!(s.start_recording(), RecorderAction::Obs(ObsRequest::StartRecord));
    assert_eq!(s.game_state, GameState::InProgress);
    assert_eq!(s.obs_state, ObsState::Recording);
    assert!(s.is_recording && !s.replay_buffer_running);
    assert_eq!(s.start_replay_buffer(), RecorderAction::Obs(ObsRequest::StartReplayBuffer));
    assert!(s.is_recording && s.replay_buffer_running);
    assert_eq!(s.save_replay_buffer(), RecorderAction::Obs(ObsRequest::SaveReplayBuffer));
    assert_eq!(s.stop_replay_buffer(), RecorderAction::Obs(ObsRequest::StopReplayBuffer));
    assert!(!s.is_recording && !s.replay_buffer_running);
    assert_eq!(s.stop_recording(), RecorderAction::Obs(ObsRequest::StopRecord));
    assert_eq!(s.game_state, GameState::Finished);
    assert_eq!(s.obs_state, ObsState::NotRecording);
}

#[test]
fn shell_mode_commands_drive_ffmpeg() {
    let mut s = AppStatus::new(RecordingMode::Shell);
    assert_eq!(s.start_recording(), RecorderAction::StartFfmpeg);
    assert_eq!(s.start_replay_buffer(), RecorderAction::StartFfmpeg);
    assert_eq!(s.save_replay_buffer(), RecorderAction::SaveFfmpegClip);
    assert_eq!(s.stop_replay_buffer(), RecorderAction::StopFfmpeg);
    assert_eq!(s.stop_recording(), RecorderAction::StopFfmpeg);
}

#[test]
fn stop_after_start_equals_stop_alone() {
    let base = AppStatus::new(RecordingMode::Obs);
    let mut a = base;
    a.start_recording();
    a.stop_recording();
    let mut b = base;
    b.stop_recording();
    assert_eq!(a, b);
    let mut c = base;
    c.start_replay_buffer();
    c.stop_replay_buffer();
    let mut d = base;
    d.stop_replay_buffer();
    assert_eq!(c, d);
}

#[test]
fn mode_change_and_direct_ffmpeg_replay() {
    let mut s = AppStatus::new(RecordingMode::Obs);
    s.set_recording_mode(RecordingMode::Shell);
    assert_eq!(s.recording_mode, RecordingMode::Shell);
    s.start_ffmpeg_replay();
    assert!(s.replay_buffer_running && !s.is_recording);
    s.stop_ffmpeg_replay();
    assert!(!s.replay_buffer_running);
}

#[test]
fn game_events_in_obs_mode() {
    let mut s = AppStatus::new(RecordingMode::Obs);
    let evs = vec![
        ev("ChampionKill", Some("Faker")),
        ev("Multikill", Some("Faker#KR1")),
        ev("Multikill", Some("Someone")),
        ev("Multikill", None),
        ev("GameStart", None),
        ev("GameEnd", None),
    ];
    let acts = s.react_to_events("Faker", &evs);
    assert_eq!(
        acts,
        vec![
            (1, RecorderAction::Obs(ObsRequest::SaveReplayBuffer)),
            (4, RecorderAction::Obs(ObsRequest::StartRecord)),
            (5, RecorderAction::Obs(ObsRequest::StopRecord)),
        ]
    );
    assert_eq!(s.game_state, GameState::Finished);
    assert!(!s.is_recording);
    assert_eq!(s.recording_mode, RecordingMode::Obs);
}

#[test]
fn game_events_in_shell_mode() {
    let mut s = AppStatus::new(RecordingMode::Shell);
    let evs = vec![ev("GameStart", None), ev("Multikill", Some("Faker"))];
    let acts = s.react_to_events("Faker", &evs);
    assert_eq!(acts, vec![(0, RecorderAction::StartFfmpeg), (1, RecorderAction::SaveFfmpegClip)]);
    assert_eq!(s.game_state, GameState::InProgress);
    assert_eq!(s.obs_state, ObsState::Recording);
    assert!(s.is_recording);
}

#[test]
fn any_game_data_marks_the_game_in_progress() {
    let mut s = AppStatus::new(RecordingMode::Obs);
    let acts = s.react_to_events("Faker", &vec![ev("ChampionKill", None)]);
    assert!(acts.is_empty());
    assert_eq!(s.game_state, GameState::InProgress);
    assert!(!s.is_recording);
}

#[test]
fn request_types_are_obs_names() {
    assert_eq!(ObsRequest::StartRecord.request_type(), "StartRecord");
    assert_eq!(ObsRequest::StopRecord.request_type(), "StopRecord");
    assert_eq!(ObsRequest::StartReplayBuffer.request_type(), "StartReplayBuffer");
    assert_eq!(ObsRequest::StopReplayBuffer.request_type(), "StopReplayBuffer");
    assert_eq!(ObsRequest::SaveReplayBuffer.request_type(), "SaveReplayBuffer");
}

#[test]
fn notices_name_what_the_recorder_does() {
    assert_eq!(RecorderAction::Obs(ObsRequest::StartRecord).notice(), "Recording started");
    assert_eq!(RecorderAction::Obs(ObsRequest::StopRecord).notice(), "Recording stopped");
    assert_eq!(RecorderAction::StartFfmpeg.notice(), "Replay buffer started");
    assert_eq!(RecorderAction::Obs(ObsRequest::StartReplayBuffer).notice(), "Replay buffer started");
    assert_eq!(RecorderAction::StopFfmpeg.notice(), "Replay buffer stopped");
    assert_eq!(RecorderAction::Obs(ObsRequest::StopReplayBuffer).notice(), "Replay buffer stopped");
    assert_eq!(RecorderAction::SaveFfmpegClip.notice(), "Replay saved");
    assert_eq!(RecorderAction::Obs(ObsRequest::SaveReplayBuffer).notice(), "Replay saved");
}
