//! The application's recording status and how commands and game events
//! change it, together with the recorder action each of them asks for.
use vstd::prelude::*;
use crate::text::{chars_of, same_text};
use crate::scan::{contains, contains_chars};

verus! {

/// Where the current game stands.
#[derive(Debug, Clone, Copy, PartialEq, Eq, Structural)]
pub enum GameState {
    NotStarted,
    InProgress,
    Finished,
}

/// What is known of OBS.
#[derive(Debug, Clone, Copy, PartialEq, Eq, Structural)]
pub enum ObsState {
    Disconnected,
    Recording,
    NotRecording,
    Error,
}

/// Which recorder does the recording: OBS over its WebSocket, or an ffmpeg
/// process started from a shell command.
#[derive(Debug, Clone, Copy, PartialEq, Eq, Structural)]
pub enum RecordingMode {
    Obs,
    Shell,
}

/// The status shown to the user.
#[derive(Debug, Clone, Copy, PartialEq, Eq, Structural)]
pub struct AppStatus {
    pub game_state: GameState,
    pub obs_state: ObsState,
    pub recording_mode: RecordingMode,
    pub is_recording: bool,
    pub replay_buffer_running: bool,
}

/// The OBS WebSocket requests the application sends.
#[derive(Debug, Clone, Copy, PartialEq, Eq, Structural)]
pub enum ObsRequest {
    StartRecord,
    StopRecord,
    StartReplayBuffer,
    StopReplayBuffer,
    SaveReplayBuffer,
}

/// What the recorder is asked to do.
#[derive(Debug, Clone, Copy, PartialEq, Eq, Structural)]
pub enum RecorderAction {
    /// Send this request to OBS.
    Obs(ObsRequest),
    /// Start the ffmpeg replay buffer.
    StartFfmpeg,
    /// Stop the ffmpeg replay buffer.
    StopFfmpeg,
    /// Save the ffmpeg replay buffer as a clip.
    SaveFfmpegClip,
}

/// A game event as the status reacts to it: its name and, for kills, the killer.
pub struct GameEvent {
    pub name: String,
    pub killer_name: Option<String>,
}

/// The `requestType` of an OBS request.
pub open spec fn request_type_spec(r: ObsRequest) -> Seq<char> {
    match r {
        ObsRequest::StartRecord => "StartRecord"@,
        ObsRequest::StopRecord => "StopRecord"@,
        ObsRequest::StartReplayBuffer => "StartReplayBuffer"@,
        ObsRequest::StopReplayBuffer => "StopReplayBuffer"@,
        ObsRequest::SaveReplayBuffer => "SaveReplayBuffer"@,
    }
}

impl ObsRequest {
    /// The `requestType` that OBS knows this request by.
    pub fn request_type(&self) -> (s: &'static str)
        ensures
            s@ == request_type_spec(*self),
    {
        match self {
            ObsRequest::StartRecord => "StartRecord",
            ObsRequest::StopRecord => "StopRecord",
            ObsRequest::StartReplayBuffer => "StartReplayBuffer",
            ObsRequest::StopReplayBuffer => "StopReplayBuffer",
            ObsRequest::SaveReplayBuffer => "SaveReplayBuffer",
        }
    }
}

/// The text of the desktop notification that tells the user what the
/// recorder now does.
pub open spec fn notice_spec(a: RecorderAction) -> Seq<char> {
    match a {
        RecorderAction::Obs(ObsRequest::StartRecord) => "Recording started"@,
        RecorderAction::Obs(ObsRequest::StopRecord) => "Recording stopped"@,
        RecorderAction::Obs(ObsRequest::StartReplayBuffer) => "Replay buffer started"@,
        RecorderAction::StartFfmpeg => "Replay buffer started"@,
        RecorderAction::Obs(ObsRequest::StopReplayBuffer) => "Replay buffer stopped"@,
        RecorderAction::StopFfmpeg => "Replay buffer stopped"@,
        RecorderAction::Obs(ObsRequest::SaveReplayBuffer) => "Replay saved"@,
        RecorderAction::SaveFfmpegClip => "Replay saved"@,
    }
}

impl RecorderAction {
    /// The notification text for this action, shown once it has been carried out.
    pub fn notice(&self) -> (s: &'static str)
        ensures
            s@ == notice_spec(*self),
    {
        match self {
            RecorderAction::Obs(ObsRequest::StartRecord) => "Recording started",
            RecorderAction::Obs(ObsRequest::StopRecord) => "Recording stopped",
            RecorderAction::Obs(ObsRequest::StartReplayBuffer) => "Replay buffer started",
            RecorderAction::StartFfmpeg => "Replay buffer started",
            RecorderAction::Obs(ObsRequest::StopReplayBuffer) => "Replay buffer stopped",
            RecorderAction::StopFfmpeg => "Replay buffer stopped",
            RecorderAction::Obs(ObsRequest::SaveReplayBuffer) => "Replay saved",
            RecorderAction::SaveFfmpegClip => "Replay saved",
        }
    }
}

/// The action that carries out an OBS request with the recorder of `mode`:
/// the request itself for OBS; for ffmpeg, starting, stopping or saving its
/// replay buffer.
pub open spec fn backend_action(mode: RecordingMode, req: ObsRequest) -> RecorderAction {
    match mode {
        RecordingMode::Obs => RecorderAction::Obs(req),
        RecordingMode::Shell => match req {
            ObsRequest::StartRecord => RecorderAction::StartFfmpeg,
            ObsRequest::StartReplayBuffer => RecorderAction::StartFfmpeg,
            ObsRequest::StopRecord => RecorderAction::StopFfmpeg,
            ObsRequest::StopReplayBuffer => RecorderAction::StopFfmpeg,
            ObsRequest::SaveReplayBuffer => RecorderAction::SaveFfmpegClip,
        },
    }
}

/// The status once a recording (a game) has started.
pub open spec fn recording_started(s: AppStatus) -> AppStatus {
    AppStatus {
        game_state: GameState::InProgress,
        obs_state: ObsState::Recording,
        is_recording: true,
        replay_buffer_running: false,
        ..s
    }
}

/// The status once a recording (a game) has ended.
pub open spec fn recording_stopped(s: AppStatus) -> AppStatus {
    AppStatus {
        game_state: GameState::Finished,
        obs_state: ObsState::NotRecording,
        is_recording: false,
        replay_buffer_running: false,
        ..s
    }
}

/// The status once the replay buffer has started.
pub open spec fn replay_started(s: AppStatus) -> AppStatus {
    AppStatus { is_recording: true, replay_buffer_running: true, ..s }
}

/// The status once the replay buffer has stopped.
pub open spec fn replay_stopped(s: AppStatus) -> AppStatus {
    AppStatus { is_recording: false, replay_buffer_running: false, ..s }
}

/// A game event by its name and killer, as views.
pub open spec fn event_view(e: GameEvent) -> (Seq<char>, Option<Seq<char>>) {
    (
        e.name@,
        match e.killer_name {
            Some(k) => Some(k@),
            None => None,
        },
    )
}

/// How one game event changes the status and what it asks of the recorder
/// of `mode`: a multikill whose killer name contains the active player's
/// name saves the replay buffer; the start of a game starts recording, its
/// end stops it; every other event only gets logged.
pub open spec fn event_reaction(
    s: AppStatus,
    mode: RecordingMode,
    active: Seq<char>,
    ev: (Seq<char>, Option<Seq<char>>),
) -> (AppStatus, Option<RecorderAction>) {
    if ev.0 == "Multikill"@ {
        match ev.1 {
            Some(k) => if contains(k, active) {
                (s, Some(backend_action(mode, ObsRequest::SaveReplayBuffer)))
            } else {
                (s, None)
            },
            None => (s, None),
        }
    } else if ev.0 == "GameStart"@ {
        (recording_started(s), Some(backend_action(mode, ObsRequest::StartRecord)))
    } else if ev.0 == "GameEnd"@ {
        (recording_stopped(s), Some(backend_action(mode, ObsRequest::StopRecord)))
    } else {
        (s, None)
    }
}

/// The status after a batch of events and the actions they ask for, each
/// with the position of the event that asked for it.
pub open spec fn react_all(
    s: AppStatus,
    mode: RecordingMode,
    active: Seq<char>,
    evs: Seq<(Seq<char>, Option<Seq<char>>)>,
) -> (AppStatus, Seq<(int, RecorderAction)>)
    decreases evs.len(),
{
    if evs.len() == 0 {
        (s, seq![])
    } else {
        let before = react_all(s, mode, active, evs.drop_last());
        let step = event_reaction(before.0, mode, active, evs.last());
        (
            step.0,
            match step.1 {
                Some(a) => before.1.push((evs.len() - 1, a)),
                None => before.1,
            },
        )
    }
}

/// The status in which a batch of new game data is received: a game that
/// had not started is now in progress.
pub open spec fn data_received(s: AppStatus) -> AppStatus {
    if s.game_state == GameState::NotStarted {
        AppStatus { game_state: GameState::InProgress, ..s }
    } else {
        s
    }
}

/// The views of a batch of game events.
pub open spec fn event_views(evs: Seq<GameEvent>) -> Seq<(Seq<char>, Option<Seq<char>>)> {
    evs.map_values(|e: GameEvent| event_view(e))
}

/// The recording mode alone decides the recorder: in OBS mode every action is
/// an OBS request, in shell mode none is.
pub proof fn law_backend_follows_mode(mode: RecordingMode, req: ObsRequest)
    ensures
        (backend_action(mode, req) is Obs) <==> mode == RecordingMode::Obs,
        mode == RecordingMode::Obs ==> backend_action(mode, req) == RecorderAction::Obs(req),
{
}

/// Stopping after starting leaves the status that stopping alone leaves, for
/// recordings and for the replay buffer; afterwards nothing records.
pub proof fn law_stop_undoes_start(s: AppStatus)
    ensures
        recording_stopped(recording_started(s)) == recording_stopped(s),
        replay_stopped(replay_started(s)) == replay_stopped(s),
        !recording_stopped(s).is_recording && !recording_stopped(s).replay_buffer_running,
        !replay_stopped(s).is_recording && !replay_stopped(s).replay_buffer_running,
{
}

/// Game events never change the recording mode, and every action they ask
/// for goes to the recorder of the mode in force, at the position of the event
/// that asked for it.
pub proof fn law_events_follow_mode(
    s: AppStatus,
    mode: RecordingMode,
    active: Seq<char>,
    evs: Seq<(Seq<char>, Option<Seq<char>>)>,
)
    ensures
        react_all(s, mode, active, evs).0.recording_mode == s.recording_mode,
        forall|k: int|
            0 <= k < react_all(s, mode, active, evs).1.len() ==> {
                let a = #[trigger] react_all(s, mode, active, evs).1[k];
                &&& (a.1 is Obs) <==> mode == RecordingMode::Obs
                &&& 0 <= a.0 < evs.len()
            },
    decreases evs.len(),
{
    if evs.len() > 0 {
        law_events_follow_mode(s, mode, active, evs.drop_last());
        let before = react_all(s, mode, active, evs.drop_last());
        let step = event_reaction(before.0, mode, active, evs.last());
        assert forall|k: int| 0 <= k < react_all(s, mode, active, evs).1.len() implies {
            let a = #[trigger] react_all(s, mode, active, evs).1[k];
            &&& (a.1 is Obs) <==> mode == RecordingMode::Obs
            &&& 0 <= a.0 < evs.len()
        } by {
            if k < before.1.len() {
                assert(react_all(s, mode, active, evs).1[k] == before.1[k]);
            } else {
                let req = if evs.last().0 == "Multikill"@ {
                    ObsRequest::SaveReplayBuffer
                } else if evs.last().0 == "GameStart"@ {
                    ObsRequest::StartRecord
                } else {
                    ObsRequest::StopRecord
                };
                law_backend_follows_mode(mode, req);
            }
        }
    }
}

/// A multikill by the active player saves the replay buffer, whatever else
/// the status holds; a multikill by anyone else asks for nothing.
pub proof fn law_multikill_saves_replay(
    s: AppStatus,
    mode: RecordingMode,
    active: Seq<char>,
    killer: Seq<char>,
)
    ensures
        contains(killer, active) ==> react_all(s, mode, active, seq![("Multikill"@, Some(killer))])
            == (s, seq![(0int, backend_action(mode, ObsRequest::SaveReplayBuffer))]),
        !contains(killer, active) ==> react_all(s, mode, active, seq![("Multikill"@, Some(killer))])
            == (s, Seq::<(int, RecorderAction)>::empty()),
{
    let ev: (Seq<char>, Option<Seq<char>>) = ("Multikill"@, Some(killer));
    let evs = seq![ev];
    let empty = Seq::<(Seq<char>, Option<Seq<char>>)>::empty();
    assert(evs.drop_last() =~= empty);
    assert(evs.last() == ev);
    let base = react_all(s, mode, active, empty);
    assert(base == (s, Seq::<(int, RecorderAction)>::empty()));
    assert(react_all(s, mode, active, evs.drop_last()) == base);
    let step = event_reaction(s, mode, active, ev);
    if contains(killer, active) {
        assert(step == (s, Some(backend_action(mode, ObsRequest::SaveReplayBuffer))));
        assert(base.1.push((0int, backend_action(mode, ObsRequest::SaveReplayBuffer))) =~= seq![
            (0int, backend_action(mode, ObsRequest::SaveReplayBuffer)),
        ]);
    } else {
        assert(step == (s, None::<RecorderAction>));
    }
}

/// What the commands show: starting the replay buffer shows the status
/// recording with the buffer running; stopping it shows neither; starting a
/// recording (a game) shows it recording, in progress and recording in OBS,
/// without the buffer; stopping it shows nothing recording, the game
/// finished and OBS not recording. Nothing else in the status changes.
pub proof fn law_commands_set_shown_status(s: AppStatus)
    ensures
        replay_started(s).is_recording,
        replay_started(s).replay_buffer_running,
        replay_started(s).game_state == s.game_state,
        replay_started(s).obs_state == s.obs_state,
        replay_started(s).recording_mode == s.recording_mode,
        !replay_stopped(s).is_recording,
        !replay_stopped(s).replay_buffer_running,
        replay_stopped(s).game_state == s.game_state,
        replay_stopped(s).obs_state == s.obs_state,
        replay_stopped(s).recording_mode == s.recording_mode,
        recording_started(s).is_recording,
        !recording_started(s).replay_buffer_running,
        recording_started(s).game_state == GameState::InProgress,
        recording_started(s).obs_state == ObsState::Recording,
        recording_started(s).recording_mode == s.recording_mode,
        !recording_stopped(s).is_recording,
        !recording_stopped(s).replay_buffer_running,
        recording_stopped(s).game_state == GameState::Finished,
        recording_stopped(s).obs_state == ObsState::NotRecording,
        recording_stopped(s).recording_mode == s.recording_mode,
{
}

/// Each command asks the recorder of its mode for the matching thing: OBS
/// gets the request itself; ffmpeg starts its buffer for either start,
/// stops it for either stop, and writes a clip for a save.
pub proof fn law_commands_ask_the_recorder(req: ObsRequest)
    ensures
        backend_action(RecordingMode::Obs, req) == RecorderAction::Obs(req),
        backend_action(RecordingMode::Shell, ObsRequest::StartRecord) == RecorderAction::StartFfmpeg,
        backend_action(RecordingMode::Shell, ObsRequest::StartReplayBuffer)
            == RecorderAction::StartFfmpeg,
        backend_action(RecordingMode::Shell, ObsRequest::StopRecord) == RecorderAction::StopFfmpeg,
        backend_action(RecordingMode::Shell, ObsRequest::StopReplayBuffer)
            == RecorderAction::StopFfmpeg,
        backend_action(RecordingMode::Shell, ObsRequest::SaveReplayBuffer)
            == RecorderAction::SaveFfmpegClip,
{
}

/// The user is told the same whichever recorder carries out a request on
/// the replay buffer (ffmpeg announces its buffer for a recording, too), and
/// the notices of starting, stopping and saving it differ.
pub proof fn law_notices_follow_requests(req: ObsRequest)
    requires
        req != ObsRequest::StartRecord,
        req != ObsRequest::StopRecord,
    ensures
        notice_spec(backend_action(RecordingMode::Obs, req)) == notice_spec(
            backend_action(RecordingMode::Shell, req),
        ),
        notice_spec(RecorderAction::StartFfmpeg) != notice_spec(RecorderAction::StopFfmpeg),
        notice_spec(RecorderAction::StartFfmpeg) != notice_spec(RecorderAction::SaveFfmpegClip),
        notice_spec(RecorderAction::StopFfmpeg) != notice_spec(RecorderAction::SaveFfmpegClip),
{
    reveal_strlit("Replay buffer started");
    reveal_strlit("Replay buffer stopped");
    reveal_strlit("Replay saved");
    assert("Replay buffer started"@[16] != "Replay buffer stopped"@[16]);
    assert("Replay buffer started"@.len() != "Replay saved"@.len());
    assert("Replay buffer stopped"@.len() != "Replay saved"@.len());
}

/// An event that is neither a multikill nor the start or end of a game is
/// only logged: it leaves the status as it is and asks for nothing.
pub proof fn law_other_events_are_only_logged(
    s: AppStatus,
    mode: RecordingMode,
    active: Seq<char>,
    name: Seq<char>,
    killer: Option<Seq<char>>,
)
    requires
        name != "Multikill"@,
        name != "GameStart"@,
        name != "GameEnd"@,
    ensures
        react_all(s, mode, active, seq![(name, killer)]) == (s, Seq::<(int, RecorderAction)>::empty()),
{
    let evs = seq![(name, killer)];
    let empty = Seq::<(Seq<char>, Option<Seq<char>>)>::empty();
    assert(evs.drop_last() =~= empty);
    assert(react_all(s, mode, active, empty) == (s, Seq::<(int, RecorderAction)>::empty()));
}

/// Whether an action saves the replay: OBS's `SaveReplayBuffer`, or an
/// ffmpeg clip.
pub open spec fn saves_replay(a: RecorderAction) -> bool {
    a == RecorderAction::Obs(ObsRequest::SaveReplayBuffer) || a == RecorderAction::SaveFfmpegClip
}

/// Whether an event is a multikill whose killer's name contains `active`.
pub open spec fn own_multikill(ev: (Seq<char>, Option<Seq<char>>), active: Seq<char>) -> bool {
    &&& ev.0 == "Multikill"@
    &&& match ev.1 {
        Some(killer) => contains(killer, active),
        None => false,
    }
}

/// In any batch of events, every action comes from a multikill or from the
/// start or end of a game, and a replay is saved only for a multikill whose
/// killer's name contains the active player's name.
pub proof fn law_only_own_multikills_save(
    s: AppStatus,
    mode: RecordingMode,
    active: Seq<char>,
    evs: Seq<(Seq<char>, Option<Seq<char>>)>,
)
    ensures
        forall|k: int|
            0 <= k < react_all(s, mode, active, evs).1.len() ==> {
                let a = #[trigger] react_all(s, mode, active, evs).1[k];
                &&& 0 <= a.0 < evs.len()
                &&& (evs[a.0].0 == "Multikill"@ || evs[a.0].0 == "GameStart"@ || evs[a.0].0
                    == "GameEnd"@)
                &&& saves_replay(a.1) ==> own_multikill(evs[a.0], active)
            },
    decreases evs.len(),
{
    reveal_strlit("Multikill");
    reveal_strlit("GameStart");
    reveal_strlit("GameEnd");
    assert("GameStart"@ != "Multikill"@) by {
        assert("GameStart"@[0] != "Multikill"@[0]);
    }
    assert("GameEnd"@ != "Multikill"@) by {
        assert("GameEnd"@.len() != "Multikill"@.len());
    }
    assert("GameEnd"@ != "GameStart"@) by {
        assert("GameEnd"@.len() != "GameStart"@.len());
    }
    if evs.len() > 0 {
        let init = evs.drop_last();
        law_only_own_multikills_save(s, mode, active, init);
        let before = react_all(s, mode, active, init);
        let r = react_all(s, mode, active, evs);
        assert forall|k: int| 0 <= k < r.1.len() implies {
            let a = #[trigger] r.1[k];
            &&& 0 <= a.0 < evs.len()
            &&& (evs[a.0].0 == "Multikill"@ || evs[a.0].0 == "GameStart"@ || evs[a.0].0
                == "GameEnd"@)
            &&& saves_replay(a.1) ==> own_multikill(evs[a.0], active)
        } by {
            if k < before.1.len() {
                assert(r.1[k] == before.1[k]);
                let a = before.1[k];
                assert(init[a.0] == evs[a.0]);
            } else {
                let a = r.1[k];
                assert(a.0 == evs.len() - 1);
                assert(evs[a.0] == evs.last());
            }
        }
    }
}

/// A game's start starts recording and its end stops it: the session's
/// events leave nothing recording and ask the recorder to start, then stop.
pub proof fn law_game_session(s: AppStatus, mode: RecordingMode, active: Seq<char>)
    ensures
        ({
            let r = react_all(s, mode, active, seq![("GameStart"@, None), ("GameEnd"@, None)]);
            &&& r.0 == recording_stopped(s)
            &&& r.1 == seq![
                (0int, backend_action(mode, ObsRequest::StartRecord)),
                (1int, backend_action(mode, ObsRequest::StopRecord)),
            ]
        }),
{
    reveal_strlit("Multikill");
    reveal_strlit("GameStart");
    reveal_strlit("GameEnd");
    let e0: (Seq<char>, Option<Seq<char>>) = ("GameStart"@, None);
    let e1: (Seq<char>, Option<Seq<char>>) = ("GameEnd"@, None);
    let evs = seq![e0, e1];
    assert(e0.0[0] != "Multikill"@[0]);
    assert(e1.0.len() != "Multikill"@.len());
    assert(e1.0.len() != "GameStart"@.len());
    assert(evs.drop_last() =~= seq![e0]);
    assert(seq![e0].drop_last() =~= Seq::<(Seq<char>, Option<Seq<char>>)>::empty());
    let empty = Seq::<(Seq<char>, Option<Seq<char>>)>::empty();
    let base = react_all(s, mode, active, empty);
    assert(base == (s, Seq::<(int, RecorderAction)>::empty()));
    assert(react_all(s, mode, active, seq![e0].drop_last()) == base);
    assert(seq![e0].last() == e0);
    let a0 = backend_action(mode, ObsRequest::StartRecord);
    let a1 = backend_action(mode, ObsRequest::StopRecord);
    assert(event_reaction(s, mode, active, e0) == (recording_started(s), Some(a0)));
    let r0 = react_all(s, mode, active, seq![e0]);
    assert(r0.0 == recording_started(s));
    assert(r0.1 =~= seq![(0int, a0)]);
    assert(react_all(s, mode, active, evs.drop_last()) == r0);
    assert(evs.last() == e1);
    assert(event_reaction(r0.0, mode, active, e1) == (recording_stopped(recording_started(s)), Some(a1)));
    let r = react_all(s, mode, active, evs);
    assert(r.1 =~= seq![(0int, a0), (1int, a1)]);
    assert(r.0 == recording_stopped(s));
}

impl AppStatus {
    /// The status at start-up: no game, OBS not connected, nothing recording.
    pub fn new(mode: RecordingMode) -> (s: AppStatus)
        ensures
            s == (AppStatus {
                game_state: GameState::NotStarted,
                obs_state: ObsState::Disconnected,
                recording_mode: mode,
                is_recording: false,
                replay_buffer_running: false,
            }),
    {
        AppStatus {
            game_state: GameState::NotStarted,
            obs_state: ObsState::Disconnected,
            recording_mode: mode,
            is_recording: false,
            replay_buffer_running: false,
        }
    }

    /// Chooses the recorder.
    pub fn set_recording_mode(&mut self, mode: RecordingMode)
        ensures
            *final(self) == (AppStatus { recording_mode: mode, ..*old(self) }),
    {
        self.recording_mode = mode;
    }

    /// A recording starts: the game is in progress and being recorded.
    pub fn start_recording(&mut self) -> (a: RecorderAction)
        ensures
            *final(self) == recording_started(*old(self)),
            a == backend_action(old(self).recording_mode, ObsRequest::StartRecord),
    {
        self.game_state = GameState::InProgress;
        self.obs_state = ObsState::Recording;
        self.is_recording = true;
        self.replay_buffer_running = false;
        match self.recording_mode {
            RecordingMode::Obs => RecorderAction::Obs(ObsRequest::StartRecord),
            RecordingMode::Shell => RecorderAction::StartFfmpeg,
        }
    }

    /// A recording stops: the game is finished and nothing records.
    pub fn stop_recording(&mut self) -> (a: RecorderAction)
        ensures
            *final(self) == recording_stopped(*old(self)),
            a == backend_action(old(self).recording_mode, ObsRequest::StopRecord),
    {
        self.game_state = GameState::Finished;
        self.obs_state = ObsState::NotRecording;
        self.is_recording = false;
        self.replay_buffer_running = false;
        match self.recording_mode {
            RecordingMode::Obs => RecorderAction::Obs(ObsRequest::StopRecord),
            RecordingMode::Shell => RecorderAction::StopFfmpeg,
        }
    }

    /// The replay buffer starts.
    pub fn start_replay_buffer(&mut self) -> (a: RecorderAction)
        ensures
            *final(self) == replay_started(*old(self)),
            a == backend_action(old(self).recording_mode, ObsRequest::StartReplayBuffer),
    {
        self.is_recording = true;
        self.replay_buffer_running = true;
        match self.recording_mode {
            RecordingMode::Obs => RecorderAction::Obs(ObsRequest::StartReplayBuffer),
            RecordingMode::Shell => RecorderAction::StartFfmpeg,
        }
    }

    /// The replay buffer stops.
    pub fn stop_replay_buffer(&mut self) -> (a: RecorderAction)
        ensures
            *final(self) == replay_stopped(*old(self)),
            a == backend_action(old(self).recording_mode, ObsRequest::StopReplayBuffer),
    {
        self.is_recording = false;
        self.replay_buffer_running = false;
        match self.recording_mode {
            RecordingMode::Obs => RecorderAction::Obs(ObsRequest::StopReplayBuffer),
            RecordingMode::Shell => RecorderAction::StopFfmpeg,
        }
    }

    /// Saving the replay buffer leaves the status as it is.
    pub fn save_replay_buffer(&self) -> (a: RecorderAction)
        ensures
            a == backend_action(self.recording_mode, ObsRequest::SaveReplayBuffer),
    {
        match self.recording_mode {
            RecordingMode::Obs => RecorderAction::Obs(ObsRequest::SaveReplayBuffer),
            RecordingMode::Shell => RecorderAction::SaveFfmpegClip,
        }
    }

    /// The ffmpeg replay buffer is started directly.
    pub fn start_ffmpeg_replay(&mut self)
        ensures
            *final(self) == (AppStatus { replay_buffer_running: true, ..*old(self) }),
    {
        self.replay_buffer_running = true;
    }

    /// The ffmpeg replay buffer is stopped directly.
    pub fn stop_ffmpeg_replay(&mut self)
        ensures
            *final(self) == (AppStatus { replay_buffer_running: false, ..*old(self) }),
    {
        self.replay_buffer_running = false;
    }

    /// Reacts to a batch of game events, in order, with the recorder chosen
    /// when the batch arrives; `active_name` is the active player's game name.
    /// Returns each action asked for with the position of its event.
    pub fn react_to_events(&mut self, active_name: &str, events: &Vec<GameEvent>) -> (acts: Vec<
        (usize, RecorderAction),
    >)
        ensures
            ({
                let r = react_all(
                    data_received(*old(self)),
                    old(self).recording_mode,
                    active_name@,
                    event_views(events@),
                );
                &&& *final(self) == r.0
                &&& acts@.len() == r.1.len()
                &&& forall|k: int|
                    0 <= k < acts@.len() ==> (#[trigger] acts@[k]).0 as int == r.1[k].0 && acts@[k].1
                        == r.1[k].1
            }),
    {
        if self.game_state == GameState::NotStarted {
            self.game_state = GameState::InProgress;
        }
        let mode = self.recording_mode;
        let active = chars_of(active_name);
        let mut acts: Vec<(usize, RecorderAction)> = Vec::new();
        let mut i: usize = 0;
        let ghost s0 = *self;
        let ghost evs = event_views(events@);
        assert(evs.take(0) =~= Seq::<(Seq<char>, Option<Seq<char>>)>::empty());
        while i < events.len()
            invariant
                i <= events@.len(),
                evs == event_views(events@),
                active@ == active_name@,
                ({
                    let r = react_all(s0, mode, active_name@, evs.take(i as int));
                    &&& *self == r.0
                    &&& acts@.len() == r.1.len()
                    &&& forall|k: int|
                        0 <= k < acts@.len() ==> (#[trigger] acts@[k]).0 as int == r.1[k].0
                            && acts@[k].1 == r.1[k].1
                }),
            decreases events.len() - i,
        {
            let ghost prev = evs.take(i as int);
            assert(evs.take(i + 1).drop_last() =~= prev);
            assert(evs.take(i + 1).last() == event_view(events@[i as int]));
            let ev = &events[i];
            let mut act: Option<RecorderAction> = None;
            if same_text(ev.name.as_str(), "Multikill") {
                match &ev.killer_name {
                    Some(k) => {
                        if contains_chars(&chars_of(k.as_str()), &active) {
                            act = Some(
                                match mode {
                                    RecordingMode::Obs => RecorderAction::Obs(
                                        ObsRequest::SaveReplayBuffer,
                                    ),
                                    RecordingMode::Shell => RecorderAction::SaveFfmpegClip,
                                },
                            );
                        }
                    },
                    None => {},
                }
            } else if same_text(ev.name.as_str(), "GameStart") {
                self.game_state = GameState::InProgress;
                self.obs_state = ObsState::Recording;
                self.is_recording = true;
                self.replay_buffer_running = false;
                act = Some(
                    match mode {
                        RecordingMode::Obs => RecorderAction::Obs(ObsRequest::StartRecord),
                        RecordingMode::Shell => RecorderAction::StartFfmpeg,
                    },
                );
            } else if same_text(ev.name.as_str(), "GameEnd") {
                self.game_state = GameState::Finished;
                self.obs_state = ObsState::NotRecording;
                self.is_recording = false;
                self.replay_buffer_running = false;
                act = Some(
                    match mode {
                        RecordingMode::Obs => RecorderAction::Obs(ObsRequest::StopRecord),
                        RecordingMode::Shell => RecorderAction::StopFfmpeg,
                    },
                );
            }
            match act {
                Some(a) => {
                    acts.push((i, a));
                },
                None => {},
            }
            i = i + 1;
        }
        assert(evs.take(i as int) =~= evs);
        acts
    }
}

} // verus!
