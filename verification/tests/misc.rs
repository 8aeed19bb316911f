use lol_clip_tool::db::{cleanup_orphan_clips, list_clips, DbPath};
use lol_clip_tool::lol::current_players;
use lol_clip_tool::notify::{
    greet, log_level, show_desktop_notice, show_notification_no_handle, DesktopNotice, LogLevel,
};
use lol_clip_tool::settings::{
    default_save_dir, default_save_dir_for, join_relative, AppSettings, SettingsPath,
};
use lol_clip_tool::status::RecordingMode;
use lol_clip_tool::scan::{lines_of, trim_chars};
use lol_clip_tool::text::{chars_of, same_text, string_of};
use lol_clip_tool::videos::{is_video_extension, sort_newest_first, SavedVideoInfo};

#[test]
fn greeting_text() {
    assert_eq!(greet("Tauri"), "Hello, Tauri! You've been greeted from Rust!");
    assert_eq!(greet(""), "Hello, ! You've been greeted from Rust!");
}

#[test]
fn log_levels_by_name() {
    assert_eq!(log_level(Some("error")), LogLevel::Error);
    assert_eq!(log_level(Some("warn")), LogLevel::Warn);
    assert_eq!(log_level(Some("warning")), LogLevel::Warn);
    assert_eq!(log_level(Some("debug")), LogLevel::Debug);
    assert_eq!(log_level(Some("trace")), LogLevel::Trace);
    assert_eq!(log_level(Some("info")), LogLevel::Info);
    assert_eq!(log_level(Some("ERROR")), LogLevel::Info);
    assert_eq!(log_level(None), LogLevel::Info);
}

#[test]
fn default_settings() {
    let s = AppSettings::default();
    assert_eq!(s.recording_mode, RecordingMode::Obs);
    assert_eq!((s.segment_seconds, s.fps, s.wrap_count), (6, 30, 11));
    assert_eq!(s.video_source, "1");
    assert_eq!(s.audio_source, "none");
    assert_eq!(s.bitrate, "20M");
    assert!(s.save_dir.ends_with("/Movies"));
    assert_eq!(s.save_dir, default_save_dir());
    assert_eq!(s.obs_port, 4455);
    assert_eq!(s.obs_password, None);
    let t = AppSettings::with_save_dir("/x".to_string());
    assert_eq!(t.save_dir, "/x");
    let p = SettingsPath("/cfg/settings.json".to_string());
    assert_eq!(p.0, "/cfg/settings.json");
}

#[test]
fn save_dir_under_home_or_current_directory() {
    assert_eq!(default_save_dir_for(Some("/home/u".to_string())), "/home/u/Movies");
    assert_eq!(default_save_dir_for(Some("/home/u/".to_string())), "/home/u/Movies");
    assert_eq!(default_save_dir_for(None), "./Movies");
    assert_eq!(default_save_dir_for(Some(String::new())), "Movies");
}

#[test]
fn joining_paths() {
    assert_eq!(join_relative("/tmp", "a.txt"), "/tmp/a.txt");
    assert_eq!(join_relative("/", "a"), "/a");
    assert_eq!(join_relative("", "a"), "a");
}

#[test]
fn text_helpers() {
    assert_eq!(trim_chars(&chars_of("\u{3000} x y\t\u{85}")), vec!['x', ' ', 'y']);
    assert_eq!(trim_chars(&chars_of("\u{200b}x")), vec!['\u{200b}', 'x']);
    assert_eq!(trim_chars(&chars_of(" \n ")), Vec::<char>::new());
    let ls: Vec<String> = lines_of(&chars_of("a\r\nb\n\nc\r")).iter().map(string_of).collect();
    assert_eq!(ls, vec!["a", "b", "", "c\r"]);
    assert!(lines_of(&chars_of("")).is_empty());
    assert_eq!(chars_of("aé😀"), vec!['a', 'é', '😀']);
    assert_eq!(string_of(&vec!['x', 'ÿ']), "xÿ");
    assert!(same_text("abc", "abc") && !same_text("abc", "abd") && !same_text("ab", "abc"));
}

fn video(name: &str, modified: &str) -> SavedVideoInfo {
    SavedVideoInfo {
        path: format!("/clips/{}", name),
        name: name.to_string(),
        modified: modified.to_string(),
        size: 1,
    }
}

#[test]
fn clips_are_listed_newest_first_and_ties_keep_order() {
    let files = vec![
        video("a.mp4", "2024-01-01 10:00:00"),
        video("b.mp4", "2024-03-01 09:00:00"),
        video("c.mp4", "2024-01-01 10:00:00"),
        video("d.mp4", "2023-12-31 23:59:59"),
        video("e.mp4", "2024-03-01 09:00:00"),
    ];
    let sorted = sort_newest_first(files);
    let names: Vec<&str> = sorted.iter().map(|v| v.name.as_str()).collect();
    assert_eq!(names, vec!["b.mp4", "e.mp4", "a.mp4", "c.mp4", "d.mp4"]);
    assert!(sort_newest_first(Vec::new()).is_empty());
}

#[test]
fn only_mp4_files_are_clips() {
    assert!(is_video_extension(Some("mp4")));
    assert!(!is_video_extension(Some("MP4")));
    assert!(!is_video_extension(Some("json")));
    assert!(!is_video_extension(None));
}

#[test]
fn clip_database_is_empty() {
    let db = DbPath("/data/clips.db".to_string());
    assert_eq!(list_clips(&db.0), Ok(Vec::new()));
    assert_eq!(cleanup_orphan_clips(&db.0), Ok(()));
}

#[test]
fn notification_failure_is_reported_as_text() {
    if let Err(e) = show_notification_no_handle("LOL Replay", "LOL Replay is running") {
        assert!(!e.is_empty());
    }
}

#[test]
fn notice_keeps_title_and_text_apart() {
    let n = DesktopNotice::new("LOL Replay", "Replay saved");
    assert_eq!(n.summary, "LOL Replay");
    assert_eq!(n.body, "Replay saved");
    if let Err(e) = show_desktop_notice(&n) {
        assert!(!e.is_empty());
    }
}

#[test]
fn players_are_listed_in_game_order() {
    assert!(current_players(None).is_empty());
    let roster = vec![
        ("Alpha".to_string(), "Ahri".to_string()),
        ("Beta".to_string(), "Garen".to_string()),
    ];
    let ps = current_players(Some(&roster));
    assert_eq!(ps.len(), 2);
    assert_eq!((ps[0].name.as_str(), ps[0].champion.as_str()), ("Alpha", "Ahri"));
    assert_eq!((ps[1].name.as_str(), ps[1].champion.as_str()), ("Beta", "Garen"));
}
