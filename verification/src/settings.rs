//! The user's settings and where clips are saved by default.
use vstd::prelude::*;
use crate::status::RecordingMode;
use crate::text::opt_view;

verus! {

/// The path made of `base` and the relative component `part`, with one `/`
/// between them unless `base` is empty or already ends with one.
pub open spec fn join_path(base: Seq<char>, part: Seq<char>) -> Seq<char> {
    if base.len() == 0 || base.last() == '/' {
        base + part
    } else {
        base + seq!['/'] + part
    }
}

/// Joins a relative component onto a directory path.
pub fn join_relative(base: &str, part: &str) -> (p: String)
    ensures
        p@ == join_path(base@, part@),
{
    let b = crate::text::chars_of(base);
    let mut p = base.to_owned();
    if b.len() == 0 || b[b.len() - 1] == '/' {
        p.append(part);
    } else {
        p.append("/");
        p.append(part);
        proof {
            reveal_strlit("/");
        }
    }
    p
}

/// `dirs::home_dir`: the user's home directory, if it can be found; what it
/// returns depends on the environment, so nothing is stated of it.
#[verifier::external_body]
fn home_dir_text() -> (h: Option<String>) {
    dirs::home_dir().map(|p| p.to_string_lossy().into_owned())
}

/// The default clip directory: `Movies` under the home directory, or under
/// the current directory when there is no home directory.
pub open spec fn save_dir_under(home: Option<Seq<char>>) -> Seq<char> {
    join_path(
        match home {
            Some(h) => h,
            None => "."@,
        },
        "Movies"@,
    )
}

/// The default clip directory for the given home directory.
pub fn default_save_dir_for(home: Option<String>) -> (d: String)
    ensures
        d@ == save_dir_under(opt_view(home)),
{
    match home {
        Some(h) => join_relative(h.as_str(), "Movies"),
        None => join_relative(".", "Movies"),
    }
}

/// The default clip directory of this user: `Movies` under whatever home
/// directory the environment gives.
pub fn default_save_dir() -> (d: String)
    ensures
        exists|h: Option<Seq<char>>| d@ == save_dir_under(h),
{
    let home = home_dir_text();
    let ghost h = opt_view(home);
    let d = default_save_dir_for(home);
    assert(d@ == save_dir_under(h));
    d
}

/// The application's settings.
#[derive(Debug, Clone)]
pub struct AppSettings {
    pub recording_mode: RecordingMode,
    pub segment_seconds: u32,
    pub fps: u32,
    pub video_source: String,
    pub audio_source: String,
    pub wrap_count: u32,
    pub bitrate: String,
    pub save_dir: String,
    /// The port of OBS's WebSocket server.
    pub obs_port: u16,
    /// The password of OBS's WebSocket server, where it asks for one.
    pub obs_password: Option<String>,
}

/// Whether these are the default settings, with `save_dir` as clip directory.
pub open spec fn is_default_settings(s: AppSettings, save_dir: Seq<char>) -> bool {
    &&& s.recording_mode == RecordingMode::Obs
    &&& s.segment_seconds == 6
    &&& s.fps == 30
    &&& s.video_source@ == "1"@
    &&& s.audio_source@ == "none"@
    &&& s.wrap_count == 11
    &&& s.bitrate@ == "20M"@
    &&& s.save_dir@ == save_dir
    &&& s.obs_port == 4455
    &&& s.obs_password is None
}

impl AppSettings {
    /// The default settings with the given clip directory.
    pub fn with_save_dir(save_dir: String) -> (s: AppSettings)
        ensures
            is_default_settings(s, save_dir@),
    {
        AppSettings {
            recording_mode: RecordingMode::Obs,
            segment_seconds: 6,
            fps: 30,
            video_source: "1".to_owned(),
            audio_source: "none".to_owned(),
            wrap_count: 11,
            bitrate: "20M".to_owned(),
            save_dir,
            obs_port: 4455,
            obs_password: None,
        }
    }
}

impl Default for AppSettings {
    /// OBS recording, six-second segments at 30 fps from video device `1`
    /// without audio, eleven segments at 20 Mbit/s, clips under `Movies`;
    /// OBS's WebSocket on its default port 4455, without a password.
    fn default() -> (s: AppSettings)
        ensures
            exists|h: Option<Seq<char>>| is_default_settings(s, save_dir_under(h)),
    {
        AppSettings::with_save_dir(default_save_dir())
    }
}

/// std's mutex, carried through as it is.
#[verifier::external_type_specification]
#[verifier::external_body]
#[verifier::reject_recursive_types(T)]
pub struct ExMutex<T: ?Sized>(std::sync::Mutex<T>);

/// The settings shared between the commands of the application.
pub struct SettingsState(pub std::sync::Arc<std::sync::Mutex<AppSettings>>);

/// The path of the settings file.
#[derive(Debug, Clone)]
pub struct SettingsPath(pub String);

} // verus!
