use lol_clip_tool::ffmpeg::{start_step, ChildStatus, FfmpegProcess, StartStep};
use lol_clip_tool::settings::AppSettings;
use lol_clip_tool::status::RecordingMode;

fn proc_with(save_dir: &str) -> FfmpegProcess {
    FfmpegProcess::with_save_dir("ffmpeg".to_string(), save_dir.to_string())
}

#[test]
fn fresh_process_has_default_settings() {
    let p = proc_with("/home/u/Movies");
    assert!(p.ram_dir.is_none() && p.ram_device.is_none());
    assert_eq!(p.ffmpeg_path, "ffmpeg");
    assert_eq!((p.segment_seconds, p.fps, p.wrap_count), (6, 30, 11));
    assert_eq!((p.video_source.as_str(), p.audio_source.as_str()), ("1", "none"));
    assert_eq!(p.bitrate, "20M");
    assert!(!p.is_running());
}

#[test]
fn new_process_saves_under_movies() {
    let p = FfmpegProcess::new("ffmpeg".to_string());
    assert!(p.save_dir.ends_with("Movies"));
}

#[test]
fn start_builds_the_segment_recorder_command() {
    let p = proc_with("/home/u/Movies");
    let l = p.launch();
    assert_eq!(l.dir, "/tmp/lol_obs_clip/replay");
    assert_eq!(l.save_trigger, "/tmp/lol_obs_clip/replay/.trigger_save");
    assert_eq!(l.quit_trigger, "/tmp/lol_obs_clip/replay/.trigger_quit");
    let expected: Vec<&str> = vec![
        "-f", "avfoundation", "-pixel_format", "nv12", "-framerate", "60", "-i", "1:none", "-vf",
        "fps=30,format=yuv420p", "-c:v", "h264_videotoolbox", "-realtime", "1", "-bf", "0", "-b:v",
        "20M", "-g", "180", "-keyint_min", "180", "-sc_threshold", "0", "-force_key_frames",
        "expr:gte(t,n_forced*6-0.1)", "-an", "-f", "segment", "-segment_time", "6",
        "-segment_format", "ts", "-segment_wrap", "11", "-segment_list",
        "/tmp/lol_obs_clip/replay/list.m3u8", "-segment_list_size", "11", "-segment_list_type",
        "m3u8", "-segment_list_flags", "+live", "/tmp/lol_obs_clip/replay/seg%03d.ts",
    ];
    assert_eq!(l.args, expected);
}

#[test]
fn overrides_change_only_what_is_given() {
    let mut p = proc_with("/clips");
    p.apply_overrides(Some(4), Some("2".to_string()), None, Some(60), None, Some("8M".to_string()));
    assert_eq!((p.segment_seconds, p.fps, p.wrap_count), (4, 60, 11));
    assert_eq!((p.video_source.as_str(), p.audio_source.as_str()), ("2", "none"));
    assert_eq!(p.bitrate, "8M");
    let l = p.launch();
    assert_eq!(l.args[5], "120");
    assert_eq!(l.args[7], "2:none");
    assert_eq!(l.args[19], "240");
    assert_eq!(l.args[25], "expr:gte(t,n_forced*4-0.1)");
}

#[test]
fn settings_are_taken_over() {
    let mut p = proc_with("/clips");
    let s = AppSettings {
        recording_mode: RecordingMode::Shell,
        segment_seconds: 3,
        fps: 24,
        video_source: "0".to_string(),
        audio_source: "1".to_string(),
        wrap_count: 5,
        bitrate: "10M".to_string(),
        save_dir: "/data/clips".to_string(),
        obs_port: 4460,
        obs_password: Some("secret".to_string()),
    };
    p.apply_settings(&s);
    assert_eq!((p.segment_seconds, p.fps, p.wrap_count), (3, 24, 5));
    assert_eq!(p.video_source, "0");
    assert_eq!(p.audio_source, "1");
    assert_eq!(p.bitrate, "10M");
    assert_eq!(p.save_dir, "/data/clips");
    assert_eq!(p.ffmpeg_path, "ffmpeg");
}

#[test]
fn setters_set_one_field() {
    let mut p = proc_with("/clips");
    p.set_ffmpeg_path("/opt/ffmpeg".to_string());
    p.set_save_dir("/other".to_string());
    p.set_segment_seconds(2);
    p.set_fps(10);
    p.set_wrap_count(3);
    p.set_bitrate("1M".to_string());
    p.set_video_source("v".to_string());
    p.set_audio_source("a".to_string());
    assert_eq!(p.ffmpeg_path, "/opt/ffmpeg");
    assert_eq!(p.save_dir, "/other");
    assert_eq!((p.segment_seconds, p.fps, p.wrap_count), (2, 10, 3));
    assert_eq!((p.bitrate.as_str(), p.video_source.as_str(), p.audio_source.as_str()), ("1M", "v", "a"));
}

#[test]
fn saving_without_a_running_buffer_fails() {
    let p = proc_with("/clips");
    assert_eq!(p.save().err(), Some("ffmpeg not running".to_string()));
    assert_eq!(p.save_plan_at("x").err(), Some("ffmpeg not running".to_string()));
}

#[test]
fn save_plan_copies_the_buffered_segments() {
    let mut p = proc_with("/home/u/Movies");
    p.set_running_dir("/tmp/lol_obs_clip/replay".to_string());
    assert!(p.is_running());
    let plan = p.save_plan_at("20240131_235959").ok().unwrap();
    assert_eq!(plan.out_dir, "/home/u/Movies");
    assert_eq!(plan.out_path, "/home/u/Movies/replay_20240131_235959.mp4");
    assert_eq!(
        plan.args,
        vec![
            "-nostdin", "-y", "-live_start_index", "-10", "-i",
            "/tmp/lol_obs_clip/replay/list.m3u8", "-t", "60", "-c", "copy", "-movflags",
            "+faststart", "/home/u/Movies/replay_20240131_235959.mp4",
        ]
    );
}

#[test]
fn save_plan_with_one_segment_and_a_huge_wrap() {
    let mut p = proc_with("clips/");
    p.set_running_dir("seg".to_string());
    p.set_wrap_count(1);
    let plan = p.save_plan_at("s").ok().unwrap();
    assert_eq!(plan.args[3], "0");
    assert_eq!(plan.args[5], "seg/list.m3u8");
    assert_eq!(plan.args[7], "0");
    assert_eq!(plan.out_path, "clips/replay_s.mp4");
    p.set_wrap_count(0x8000_0002);
    p.set_segment_seconds(1);
    let plan = p.save_plan_at("s").ok().unwrap();
    assert_eq!(plan.args[3], "2147483647");
    assert_eq!(plan.args[7], "2147483649");
}

#[test]
fn save_names_the_clip_after_the_local_time() {
    let mut p = proc_with("/clips");
    p.set_running_dir("/seg".to_string());
    let plan = p.save().ok().unwrap();
    let name = plan.out_path.strip_prefix("/clips/replay_").unwrap();
    let stamp = name.strip_suffix(".mp4").unwrap();
    assert_eq!(stamp.len(), 15);
    assert_eq!(&stamp[8..9], "_");
    assert!(stamp.chars().filter(|c| c.is_ascii_digit()).count() == 14);
    assert_eq!(plan.args.last().unwrap(), &plan.out_path);
}

#[test]
fn stop_clears_the_running_directory() {
    let mut p = proc_with("/clips");
    assert_eq!(p.stop(), None);
    p.set_running_dir("/seg".to_string());
    p.ram_device = Some("disk4".to_string());
    assert_eq!(p.stop(), Some("/seg".to_string()));
    assert!(p.ram_dir.is_none() && p.ram_device.is_none());
}

#[test]
fn metadata_window_with_default_settings() {
    let p = proc_with("/clips");
    assert_eq!(p.clip_lookback_seconds(), 60);
}

#[test]
fn metadata_window_follows_the_clip_length() {
    let mut p = proc_with("/clips");
    p.wrap_count = 5;
    assert_eq!(p.clip_lookback_seconds(), 24);
    p.wrap_count = 1;
    assert_eq!(p.clip_lookback_seconds(), 0);
}

#[test]
fn starting_keeps_a_running_process_and_relaunches_an_exited_one() {
    assert_eq!(start_step(ChildStatus::Absent), StartStep::Launch);
    assert_eq!(start_step(ChildStatus::Running), StartStep::KeepRunning);
    assert_eq!(start_step(ChildStatus::Exited), StartStep::Restart);
}

#[test]
fn saving_after_stop_fails() {
    let mut p = proc_with("/clips");
    p.set_running_dir("/seg".to_string());
    assert!(p.save_plan_at("t").is_ok());
    p.stop();
    assert_eq!(p.save_plan_at("t").err(), Some("ffmpeg not running".to_string()));
}

#[test]
fn clip_reads_the_playlist_the_recorder_writes() {
    let mut p = proc_with("/clips");
    let launch = p.launch();
    p.set_running_dir(launch.dir.clone());
    let plan = p.save_plan_at("t").ok().unwrap();
    assert_eq!(plan.args[5], launch.args[36]);
    assert_eq!(launch.args[34], "11");
    assert_eq!(plan.args[3], "-10");
}

#[test]
fn large_counts_are_written_in_full() {
    let mut p = proc_with("/clips");
    p.set_wrap_count(4294967295);
    p.set_fps(0);
    p.set_segment_seconds(4294967295);
    let l = p.launch();
    assert_eq!(l.args[34], "4294967295");
    assert_eq!(l.args[30], "4294967295");
    assert_eq!(l.args[5], "0");
    assert_eq!(l.args[19], "0");
}

#[test]
fn current_stamp_has_the_clip_stamp_shape() {
    let s: Vec<char> = lol_clip_tool::clock::current_stamp().chars().collect();
    let n = s.len();
    assert!(n >= 15);
    assert_eq!(s[n - 7], '_');
    for (i, c) in s.iter().enumerate() {
        if i != n - 7 && (i >= n - 11 || i > 0 || *c != '+') {
            assert!(c.is_ascii_digit() || (i == 0 && (*c == '+' || *c == '-')));
        }
    }
}

#[test]
fn starting_a_running_buffer_launches_nothing() {
    let mut p = proc_with("/clips");
    let (step, launch) = p.start(ChildStatus::Absent);
    assert_eq!(step, StartStep::Launch);
    let launch = launch.unwrap();
    assert_eq!(launch.dir, "/tmp/lol_obs_clip/replay");
    assert_eq!(launch.args, p.launch().args);
    p.set_running_dir(launch.dir.clone());
    let before = (p.ram_dir.clone(), p.segment_seconds, p.wrap_count);
    let (step, again) = p.start(ChildStatus::Running);
    assert_eq!(step, StartStep::KeepRunning);
    assert!(again.is_none());
    assert_eq!((p.ram_dir.clone(), p.segment_seconds, p.wrap_count), before);
    let (step, relaunch) = p.start(ChildStatus::Exited);
    assert_eq!(step, StartStep::Restart);
    assert!(relaunch.is_some());
}
