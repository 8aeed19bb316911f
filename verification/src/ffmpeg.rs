//! The ffmpeg replay buffer: its settings, the command line that records a
//! rolling set of segments, and the command line that saves them as a clip.
use vstd::prelude::*;
use crate::text::{decimal_digits, signed_decimal, u32_decimal, i32_decimal, opt_view};
use crate::settings::{join_path, join_relative, save_dir_under, default_save_dir, is_default_settings, AppSettings};
use crate::clock::{is_clip_stamp, read_clock, ClockStamp};
use crate::obs::{json_string, record_directory_message_spec};
use crate::scan::{contains, matches_at};

verus! {

/// The state of the ffmpeg replay buffer and the settings it records with.
pub struct FfmpegProcess {
    pub ram_device: Option<String>,
    pub ram_dir: Option<String>,
    pub ffmpeg_path: String,
    pub segment_seconds: u32,
    pub video_source: String,
    pub audio_source: String,
    pub fps: u32,
    pub wrap_count: u32,
    pub bitrate: String,
    pub save_dir: String,
}

/// What is needed to launch the recording process.
pub struct FfmpegLaunch {
    /// The directory that holds the segments; it is made afresh.
    pub dir: String,
    /// The arguments of the ffmpeg command.
    pub args: Vec<String>,
    /// A file whose appearance in `dir` asks for the buffer to be saved.
    pub save_trigger: String,
    /// A file whose appearance in `dir` asks for the process to stop.
    pub quit_trigger: String,
}

/// What is needed to save the buffer as a clip.
pub struct SavePlan {
    /// The directory the clip goes to; it is created if missing.
    pub out_dir: String,
    /// The clip's path.
    pub out_path: String,
    /// The arguments of the ffmpeg command that writes the clip.
    pub args: Vec<String>,
    /// The reading of the clock the clip is named by, when the plan was made
    /// for the current time.
    pub stamp: Option<ClockStamp>,
}

/// The views of a sequence of strings.
pub open spec fn texts(v: Seq<String>) -> Seq<Seq<char>> {
    v.map_values(|s: String| s@)
}

/// The directory where the segments are written.
pub open spec fn segment_dir() -> Seq<char> {
    "/tmp/lol_obs_clip/replay"@
}

/// Whether the process state holds these settings; the other fields are as in `p`.
pub open spec fn holds_settings(q: FfmpegProcess, p: FfmpegProcess, s: AppSettings) -> bool {
    &&& q.segment_seconds == s.segment_seconds
    &&& q.video_source@ == s.video_source@
    &&& q.audio_source@ == s.audio_source@
    &&& q.fps == s.fps
    &&& q.wrap_count == s.wrap_count
    &&& q.bitrate@ == s.bitrate@
    &&& q.save_dir@ == s.save_dir@
    &&& q.ffmpeg_path == p.ffmpeg_path
    &&& q.ram_dir == p.ram_dir
    &&& q.ram_device == p.ram_device
}

/// Whether `p` is a freshly made process state with the given program and
/// clip directory.
pub open spec fn is_fresh(p: FfmpegProcess, ffmpeg_path: Seq<char>, save_dir: Seq<char>) -> bool {
    &&& p.ram_device is None
    &&& p.ram_dir is None
    &&& p.ffmpeg_path@ == ffmpeg_path
    &&& p.segment_seconds == 6
    &&& p.video_source@ == "1"@
    &&& p.audio_source@ == "none"@
    &&& p.fps == 30
    &&& p.wrap_count == 11
    &&& p.bitrate@ == "20M"@
    &&& p.save_dir@ == save_dir
}

/// The recording command line: an avfoundation capture at twice the frame
/// rate, scaled to `fps`, encoded with one key frame per segment, and cut
/// into `wrap_count` rotating transport-stream segments with a live playlist.
pub open spec fn record_args(p: FfmpegProcess, dir: Seq<char>) -> Seq<Seq<char>> {
    let gop = decimal_digits((p.fps * p.segment_seconds) as nat);
    let wrap = decimal_digits(p.wrap_count as nat);
    let seg = decimal_digits(p.segment_seconds as nat);
    seq![
        "-f"@,
        "avfoundation"@,
        "-pixel_format"@,
        "nv12"@,
        "-framerate"@,
        decimal_digits((p.fps * 2) as nat),
        "-i"@,
        p.video_source@ + ":"@ + p.audio_source@,
        "-vf"@,
        "fps="@ + decimal_digits(p.fps as nat) + ",format=yuv420p"@,
        "-c:v"@,
        "h264_videotoolbox"@,
        "-realtime"@,
        "1"@,
        "-bf"@,
        "0"@,
        "-b:v"@,
        p.bitrate@,
        "-g"@,
        gop,
        "-keyint_min"@,
        gop,
        "-sc_threshold"@,
        "0"@,
        "-force_key_frames"@,
        "expr:gte(t,n_forced*"@ + seg + "-0.1)"@,
        "-an"@,
        "-f"@,
        "segment"@,
        "-segment_time"@,
        seg,
        "-segment_format"@,
        "ts"@,
        "-segment_wrap"@,
        wrap,
        "-segment_list"@,
        join_path(dir, "list.m3u8"@),
        "-segment_list_size"@,
        wrap,
        "-segment_list_type"@,
        "m3u8"@,
        "-segment_list_flags"@,
        "+live"@,
        join_path(dir, "seg%03d.ts"@),
    ]
}

/// The recording command line can be written without overflow.
pub open spec fn can_record(p: FfmpegProcess) -> bool {
    p.fps * 2 <= u32::MAX && p.fps * p.segment_seconds <= u32::MAX
}

/// `wrap_count` read as a 32-bit signed integer.
pub open spec fn wrap_as_i32(w: u32) -> int {
    if w <= i32::MAX {
        w as int
    } else {
        w - 0x1_0000_0000
    }
}

/// The first playlist entry to read back: as many segments before the live
/// edge as the buffer keeps, less one.
pub open spec fn live_start_offset(w: u32) -> int {
    -(wrap_as_i32(w) - 1)
}

/// The clip length in seconds: every kept segment but the one being written.
pub open spec fn clip_seconds(p: FfmpegProcess) -> int {
    p.segment_seconds * (p.wrap_count - 1)
}

/// Saving can compute its numbers without overflow.
pub open spec fn can_save(p: FfmpegProcess) -> bool {
    &&& p.wrap_count >= 1
    &&& p.wrap_count != 0x8000_0000
    &&& p.wrap_count != 0x8000_0001
    &&& clip_seconds(p) <= u32::MAX
}

/// The clip's file name for a time stamp.
pub open spec fn clip_file_name(stamp: Seq<char>) -> Seq<char> {
    "replay_"@ + stamp + ".mp4"@
}

/// The command line that copies the buffered segments into an MP4 clip.
pub open spec fn save_args(p: FfmpegProcess, dir: Seq<char>, out: Seq<char>) -> Seq<Seq<char>> {
    seq![
        "-nostdin"@,
        "-y"@,
        "-live_start_index"@,
        signed_decimal(live_start_offset(p.wrap_count)),
        "-i"@,
        join_path(dir, "list.m3u8"@),
        "-t"@,
        decimal_digits(clip_seconds(p) as nat),
        "-c"@,
        "copy"@,
        "-movflags"@,
        "+faststart"@,
        out,
    ]
}

/// Saving while the buffer runs in `dir`, at time stamp `stamp`.
pub open spec fn save_plan_spec(p: FfmpegProcess, dir: Seq<char>, stamp: Seq<char>) -> (
    Seq<char>,
    Seq<char>,
    Seq<Seq<char>>,
) {
    let out = join_path(p.save_dir@, clip_file_name(stamp));
    (p.save_dir@, out, save_args(p, dir, out))
}

/// A clip is cut from the playlist the recorder writes: with the buffer
/// running in the segment directory, saving reads the `-segment_list` that
/// starting named, starts `wrap_count - 1` segments before the live edge of
/// the `wrap_count` segments kept, and lasts that many segments.
pub proof fn law_save_reads_recorded_playlist(p: FfmpegProcess, stamp: Seq<char>)
    requires
        can_record(p),
        can_save(p),
        p.wrap_count <= i32::MAX,
    ensures
        ({
            let rec = record_args(p, segment_dir());
            let save = save_plan_spec(p, segment_dir(), stamp).2;
            &&& rec[35] == "-segment_list"@
            &&& save[4] == "-i"@
            &&& save[5] == rec[36]
            &&& rec[33] == "-segment_wrap"@
            &&& rec[34] == decimal_digits(p.wrap_count as nat)
            &&& save[3] == signed_decimal(-(p.wrap_count - 1))
            &&& save[7] == decimal_digits((p.segment_seconds * (p.wrap_count - 1)) as nat)
        }),
{
}

/// The recording command carries the process's settings: the capture
/// frame rate is twice `fps`, the input is `video_source:audio_source`, the
/// filter keeps `fps` frames a second, the bitrate is `bitrate`, a keyframe
/// comes every `fps * segment_seconds` frames, each segment lasts
/// `segment_seconds`, and `wrap_count` segments are kept and listed in the
/// playlist of `dir`.
pub proof fn law_recording_command_carries_settings(p: FfmpegProcess, dir: Seq<char>)
    ensures
        ({
            let a = record_args(p, dir);
            &&& a.len() == 44
            &&& a[4] == "-framerate"@ && a[5] == decimal_digits((p.fps * 2) as nat)
            &&& a[6] == "-i"@ && a[7] == p.video_source@ + ":"@ + p.audio_source@
            &&& a[8] == "-vf"@ && a[9] == "fps="@ + decimal_digits(p.fps as nat) + ",format=yuv420p"@
            &&& a[16] == "-b:v"@ && a[17] == p.bitrate@
            &&& a[18] == "-g"@ && a[19] == decimal_digits((p.fps * p.segment_seconds) as nat)
            &&& a[20] == "-keyint_min"@ && a[21] == a[19]
            &&& a[29] == "-segment_time"@ && a[30] == decimal_digits(p.segment_seconds as nat)
            &&& a[33] == "-segment_wrap"@ && a[34] == decimal_digits(p.wrap_count as nat)
            &&& a[35] == "-segment_list"@ && a[36] == join_path(dir, "list.m3u8"@)
            &&& a[37] == "-segment_list_size"@ && a[38] == decimal_digits(p.wrap_count as nat)
            &&& a[43] == join_path(dir, "seg%03d.ts"@)
        }),
{
}

/// One clip per save: plans made at different clock readings name
/// different files in the clip directory, so a later save never overwrites
/// an earlier clip.
pub proof fn law_each_stamp_names_its_own_clip(p: FfmpegProcess, dir: Seq<char>, a: Seq<char>, b: Seq<char>)
    requires
        a != b,
    ensures
        save_plan_spec(p, dir, a).1 != save_plan_spec(p, dir, b).1,
{
    reveal_strlit("replay_");
    let base = p.save_dir@;
    let pre = if base.len() == 0 || base.last() == '/' {
        base
    } else {
        base + seq!['/']
    };
    let oa = save_plan_spec(p, dir, a).1;
    let ob = save_plan_spec(p, dir, b).1;
    assert(oa =~= pre + "replay_"@ + a + ".mp4"@);
    assert(ob =~= pre + "replay_"@ + b + ".mp4"@);
    if a.len() == b.len() {
        assert(!(a =~= b));
        let i = choose|i: int| 0 <= i < a.len() && a[i] != b[i];
        let k = pre.len() + 7 + i;
        assert(oa[k] == a[i]);
        assert(ob[k] == b[i]);
    } else {
        assert(oa.len() != ob.len());
    }
}

/// A freshly made recorder and the default settings agree: six-second
/// segments at 30 fps from video device `1` without audio, eleven segments
/// kept, 20 Mbit/s, and the same clip directory; taking the default settings
/// over changes nothing in a fresh recorder.
pub proof fn law_fresh_recorder_has_default_settings(
    p: FfmpegProcess,
    s: AppSettings,
    ffmpeg_path: Seq<char>,
    save_dir: Seq<char>,
)
    requires
        is_fresh(p, ffmpeg_path, save_dir),
        is_default_settings(s, save_dir),
    ensures
        p.segment_seconds == 6 && s.segment_seconds == 6,
        p.fps == 30 && s.fps == 30,
        p.wrap_count == 11 && s.wrap_count == 11,
        p.bitrate@ == "20M"@ && s.bitrate@ == "20M"@,
        p.video_source@ == "1"@ && s.video_source@ == "1"@,
        p.audio_source@ == "none"@ && s.audio_source@ == "none"@,
        holds_settings(p, p, s),
        !(p.ram_dir is Some),
{
}

/// The events stored beside a clip reach back as far as the clip lasts: the
/// window of `clip_lookback_seconds`, `clip_seconds`, is the length that
/// saving hands to ffmpeg with `-t`, every kept segment but the one being
/// written.
pub proof fn law_metadata_window_is_clip_length(p: FfmpegProcess, dir: Seq<char>, stamp: Seq<char>)
    ensures
        ({
            let save = save_plan_spec(p, dir, stamp).2;
            &&& save[6] == "-t"@
            &&& save[7] == decimal_digits(clip_seconds(p) as nat)
            &&& clip_seconds(p) == p.segment_seconds * (p.wrap_count - 1)
        }),
{
}

/// OBS recordings and ffmpeg clips go to one directory: the directory handed
/// to OBS is the one ffmpeg clips are saved in once it is set as `save_dir`.
pub proof fn law_one_clip_directory(p: FfmpegProcess, dir: String, running: Seq<char>, stamp: Seq<char>)
    ensures
        ({
            let q = FfmpegProcess { save_dir: dir, ..p };
            let plan = save_plan_spec(q, running, stamp);
            &&& plan.0 == dir@
            &&& plan.1 == join_path(dir@, clip_file_name(stamp))
            &&& contains(record_directory_message_spec(dir@), json_string(dir@))
        }),
{
    let head = "{\"d\":{\"requestData\":{\"recordDirectory\":"@;
    let m = record_directory_message_spec(dir@);
    let j = json_string(dir@);
    assert(m.subrange(head.len() as int, (head.len() + j.len()) as int) =~= j);
    assert(matches_at(m, j, head.len() as int));
}

/// What is known of the recording process when starting is asked for.
#[derive(Debug, Clone, Copy, PartialEq, Eq, Structural)]
pub enum ChildStatus {
    /// No process was launched.
    Absent,
    /// The launched process still runs.
    Running,
    /// The launched process has exited.
    Exited,
}

/// What starting does, given the recording process.
#[derive(Debug, Clone, Copy, PartialEq, Eq, Structural)]
pub enum StartStep {
    /// The process runs already: nothing to do.
    KeepRunning,
    /// The process has exited: stop what is left of it, then launch anew.
    Restart,
    /// Launch the process.
    Launch,
}

/// What starting does for each state of the recording process.
pub open spec fn start_step_spec(child: ChildStatus) -> StartStep {
    match child {
        ChildStatus::Absent => StartStep::Launch,
        ChildStatus::Running => StartStep::KeepRunning,
        ChildStatus::Exited => StartStep::Restart,
    }
}

/// Whether `l` launches the recording process of `p`: the segment
/// directory, the recording arguments, and the two trigger files in it.
pub open spec fn is_launch(l: FfmpegLaunch, p: FfmpegProcess) -> bool {
    &&& l.dir@ == segment_dir()
    &&& texts(l.args@) == record_args(p, segment_dir())
    &&& l.save_trigger@ == join_path(segment_dir(), ".trigger_save"@)
    &&& l.quit_trigger@ == join_path(segment_dir(), ".trigger_quit"@)
}

/// A running process is kept, an exited one is cleaned up and launched
/// again, and without one a process is launched.
pub fn start_step(child: ChildStatus) -> (s: StartStep)
    ensures
        s == start_step_spec(child),
{
    match child {
        ChildStatus::Absent => StartStep::Launch,
        ChildStatus::Running => StartStep::KeepRunning,
        ChildStatus::Exited => StartStep::Restart,
    }
}

impl FfmpegProcess {
    /// A stopped replay buffer with the default settings and the given clip directory.
    pub fn with_save_dir(ffmpeg_path: String, save_dir: String) -> (p: Self)
        ensures
            is_fresh(p, ffmpeg_path@, save_dir@),
    {
        FfmpegProcess {
            ram_device: None,
            ram_dir: None,
            ffmpeg_path,
            segment_seconds: 6,
            video_source: "1".to_owned(),
            audio_source: "none".to_owned(),
            fps: 30,
            wrap_count: 11,
            bitrate: "20M".to_owned(),
            save_dir,
        }
    }

    /// A stopped replay buffer with the default settings, saving under the
    /// user's `Movies` directory.
    pub fn new(ffmpeg_path: String) -> (p: Self)
        ensures
            exists|h: Option<Seq<char>>| is_fresh(p, ffmpeg_path@, save_dir_under(h)),
    {
        Self::with_save_dir(ffmpeg_path, default_save_dir())
    }

    /// Sets the length of one segment, in seconds.
    pub fn set_segment_seconds(&mut self, secs: u32)
        ensures
            *final(self) == (FfmpegProcess { segment_seconds: secs, ..*old(self) }),
    {
        self.segment_seconds = secs;
    }

    /// Sets the video capture device.
    pub fn set_video_source(&mut self, src: String)
        ensures
            *final(self) == (FfmpegProcess { video_source: src, ..*old(self) }),
    {
        self.video_source = src;
    }

    /// Sets the ffmpeg program to run.
    pub fn set_ffmpeg_path(&mut self, path: String)
        ensures
            *final(self) == (FfmpegProcess { ffmpeg_path: path, ..*old(self) }),
    {
        self.ffmpeg_path = path;
    }

    /// Sets the audio capture device.
    pub fn set_audio_source(&mut self, src: String)
        ensures
            *final(self) == (FfmpegProcess { audio_source: src, ..*old(self) }),
    {
        self.audio_source = src;
    }

    /// Sets the output frame rate.
    pub fn set_fps(&mut self, fps: u32)
        ensures
            *final(self) == (FfmpegProcess { fps: fps, ..*old(self) }),
    {
        self.fps = fps;
    }

    /// Sets how many segments the buffer keeps.
    pub fn set_wrap_count(&mut self, wrap: u32)
        ensures
            *final(self) == (FfmpegProcess { wrap_count: wrap, ..*old(self) }),
    {
        self.wrap_count = wrap;
    }

    /// Sets the encoding bit rate.
    pub fn set_bitrate(&mut self, bitrate: String)
        ensures
            *final(self) == (FfmpegProcess { bitrate: bitrate, ..*old(self) }),
    {
        self.bitrate = bitrate;
    }

    /// Sets the clip directory.
    pub fn set_save_dir(&mut self, dir: String)
        ensures
            *final(self) == (FfmpegProcess { save_dir: dir, ..*old(self) }),
    {
        self.save_dir = dir;
    }

    /// Takes over the recording settings of the application settings.
    pub fn apply_settings(&mut self, settings: &AppSettings)
        ensures
            holds_settings(*final(self), *old(self), *settings),
    {
        self.set_segment_seconds(settings.segment_seconds);
        self.set_video_source(settings.video_source.clone());
        self.set_audio_source(settings.audio_source.clone());
        self.set_fps(settings.fps);
        self.set_wrap_count(settings.wrap_count);
        self.set_bitrate(settings.bitrate.clone());
        self.set_save_dir(settings.save_dir.clone());
    }

    /// Takes over the settings that are given; the others stay.
    pub fn apply_overrides(
        &mut self,
        segment_seconds: Option<u32>,
        video_source: Option<String>,
        audio_source: Option<String>,
        fps: Option<u32>,
        wrap_count: Option<u32>,
        bitrate: Option<String>,
    )
        ensures
            final(self).segment_seconds == match segment_seconds {
                Some(v) => v,
                None => old(self).segment_seconds,
            },
            final(self).video_source == match video_source {
                Some(v) => v,
                None => old(self).video_source,
            },
            final(self).audio_source == match audio_source {
                Some(v) => v,
                None => old(self).audio_source,
            },
            final(self).fps == match fps {
                Some(v) => v,
                None => old(self).fps,
            },
            final(self).wrap_count == match wrap_count {
                Some(v) => v,
                None => old(self).wrap_count,
            },
            final(self).bitrate == match bitrate {
                Some(v) => v,
                None => old(self).bitrate,
            },
            final(self).save_dir == old(self).save_dir,
            final(self).ffmpeg_path == old(self).ffmpeg_path,
            final(self).ram_dir == old(self).ram_dir,
            final(self).ram_device == old(self).ram_device,
    {
        if let Some(sec) = segment_seconds {
            self.set_segment_seconds(sec);
        }
        if let Some(v) = video_source {
            self.set_video_source(v);
        }
        if let Some(a) = audio_source {
            self.set_audio_source(a);
        }
        if let Some(f) = fps {
            self.set_fps(f);
        }
        if let Some(w) = wrap_count {
            self.set_wrap_count(w);
        }
        if let Some(b) = bitrate {
            self.set_bitrate(b);
        }
    }

    /// Whether the replay buffer runs.
    pub fn is_running(&self) -> (b: bool)
        ensures
            b == self.ram_dir is Some,
    {
        self.ram_dir.is_some()
    }

    /// Starting the replay buffer, given the state of the recording process.
    /// A process that still runs is left alone: the step is to keep it, and
    /// nothing is launched, so starting twice does what starting once does.
    /// Otherwise the process is launched (after cleaning up an exited one)
    /// with what `launch` gives.
    pub fn start(&self, child: ChildStatus) -> (r: (StartStep, Option<FfmpegLaunch>))
        requires
            child != ChildStatus::Running ==> can_record(*self),
        ensures
            r.0 == start_step_spec(child),
            r.1 is None <==> child == ChildStatus::Running,
            r.1 matches Some(l) ==> is_launch(l, *self),
    {
        let step = start_step(child);
        match step {
            StartStep::KeepRunning => (step, None),
            _ => (step, Some(self.launch())),
        }
    }

    /// What launching the replay buffer runs: the segment directory, the
    /// ffmpeg arguments, and the two trigger files watched in that directory.
    pub fn launch(&self) -> (l: FfmpegLaunch)
        requires
            can_record(*self),
        ensures
            is_launch(l, *self),
    {
        let dir = "/tmp/lol_obs_clip/replay";
        let gop: u32 = self.fps * self.segment_seconds;
        let mut args: Vec<String> = Vec::new();
        args.push("-f".to_owned());
        args.push("avfoundation".to_owned());
        args.push("-pixel_format".to_owned());
        args.push("nv12".to_owned());
        args.push("-framerate".to_owned());
        args.push(u32_decimal(self.fps * 2));
        args.push("-i".to_owned());
        args.push(self.video_source.clone().concat(":").concat(self.audio_source.as_str()));
        args.push("-vf".to_owned());
        args.push("fps=".to_owned().concat(u32_decimal(self.fps).as_str()).concat(",format=yuv420p"));
        args.push("-c:v".to_owned());
        args.push("h264_videotoolbox".to_owned());
        args.push("-realtime".to_owned());
        args.push("1".to_owned());
        args.push("-bf".to_owned());
        args.push("0".to_owned());
        args.push("-b:v".to_owned());
        args.push(self.bitrate.clone());
        args.push("-g".to_owned());
        args.push(u32_decimal(gop));
        args.push("-keyint_min".to_owned());
        args.push(u32_decimal(gop));
        args.push("-sc_threshold".to_owned());
        args.push("0".to_owned());
        args.push("-force_key_frames".to_owned());
        args.push(
            "expr:gte(t,n_forced*".to_owned().concat(u32_decimal(self.segment_seconds).as_str()).concat(
                "-0.1)",
            ),
        );
        args.push("-an".to_owned());
        args.push("-f".to_owned());
        args.push("segment".to_owned());
        args.push("-segment_time".to_owned());
        args.push(u32_decimal(self.segment_seconds));
        args.push("-segment_format".to_owned());
        args.push("ts".to_owned());
        args.push("-segment_wrap".to_owned());
        args.push(u32_decimal(self.wrap_count));
        args.push("-segment_list".to_owned());
        args.push(join_relative(dir, "list.m3u8"));
        args.push("-segment_list_size".to_owned());
        args.push(u32_decimal(self.wrap_count));
        args.push("-segment_list_type".to_owned());
        args.push("m3u8".to_owned());
        args.push("-segment_list_flags".to_owned());
        args.push("+live".to_owned());
        args.push(join_relative(dir, "seg%03d.ts"));
        assert(texts(args@) =~= record_args(*self, segment_dir()));
        FfmpegLaunch {
            dir: dir.to_owned(),
            args,
            save_trigger: join_relative(dir, ".trigger_save"),
            quit_trigger: join_relative(dir, ".trigger_quit"),
        }
    }

    /// The replay buffer now runs, writing its segments to `dir`.
    pub fn set_running_dir(&mut self, dir: String)
        ensures
            *final(self) == (FfmpegProcess { ram_dir: Some(dir), ..*old(self) }),
    {
        self.ram_dir = Some(dir);
    }

    /// Stopping: the buffer no longer runs; returns the segment directory to
    /// delete, if there was one.
    pub fn stop(&mut self) -> (dir: Option<String>)
        ensures
            dir == old(self).ram_dir,
            *final(self) == (FfmpegProcess { ram_dir: None, ram_device: None, ..*old(self) }),
    {
        let dir = self.ram_dir.take();
        self.ram_device = None;
        dir
    }

    /// What saving the buffer at time stamp `stamp` runs; an error when the
    /// buffer does not run.
    pub fn save_plan_at(&self, stamp: &str) -> (r: Result<SavePlan, String>)
        requires
            self.ram_dir is Some ==> can_save(*self),
        ensures
            match r {
                Ok(plan) => self.ram_dir is Some && plan.stamp is None && ({
                    let spec = save_plan_spec(*self, self.ram_dir->Some_0@, stamp@);
                    &&& plan.out_dir@ == spec.0
                    &&& plan.out_path@ == spec.1
                    &&& texts(plan.args@) == spec.2
                }),
                Err(e) => self.ram_dir is None && e@ == "ffmpeg not running"@,
            },
    {
        let dir = match &self.ram_dir {
            Some(d) => d.clone(),
            None => {
                return Err("ffmpeg not running".to_owned());
            },
        };
        let w: i64 = if self.wrap_count <= 0x7fff_ffff {
            self.wrap_count as i64
        } else {
            self.wrap_count as i64 - 0x1_0000_0000
        };
        let offset: i32 = (1 - w) as i32;
        let dur: u32 = self.segment_seconds * (self.wrap_count - 1);
        let name = "replay_".to_owned().concat(stamp).concat(".mp4");
        let out = join_relative(self.save_dir.as_str(), name.as_str());
        let mut args: Vec<String> = Vec::new();
        args.push("-nostdin".to_owned());
        args.push("-y".to_owned());
        args.push("-live_start_index".to_owned());
        args.push(i32_decimal(offset));
        args.push("-i".to_owned());
        args.push(join_relative(dir.as_str(), "list.m3u8"));
        args.push("-t".to_owned());
        args.push(u32_decimal(dur));
        args.push("-c".to_owned());
        args.push("copy".to_owned());
        args.push("-movflags".to_owned());
        args.push("+faststart".to_owned());
        args.push(out.clone());
        assert(texts(args@) =~= save_args(*self, dir@, out@));
        Ok(SavePlan { out_dir: self.save_dir.clone(), out_path: out, args, stamp: None })
    }

    /// What saving the buffer now runs, named by a reading of the local
    /// clock taken for this save (a `YYYYMMDD_HHMMSS` stamp), which the plan
    /// carries; an error when the buffer does not run.
    pub fn save(&self) -> (r: Result<SavePlan, String>)
        requires
            self.ram_dir is Some ==> can_save(*self),
        ensures
            match r {
                Ok(plan) => self.ram_dir is Some && plan.stamp is Some && ({
                    let now = plan.stamp->Some_0.text();
                    let spec = save_plan_spec(*self, self.ram_dir->Some_0@, now);
                    &&& is_clip_stamp(now)
                    &&& plan.out_dir@ == spec.0
                    &&& plan.out_path@ == spec.1
                    &&& texts(plan.args@) == spec.2
                }),
                Err(e) => self.ram_dir is None && e@ == "ffmpeg not running"@,
            },
    {
        let now = read_clock();
        match self.save_plan_at(now.as_str()) {
            Ok(plan) => Ok(SavePlan { stamp: Some(now), ..plan }),
            Err(e) => Err(e),
        }
    }

    /// How far back, in seconds, the events stored beside a clip reach: the
    /// length of the clip that `save` cuts.
    pub fn clip_lookback_seconds(&self) -> (s: u32)
        requires
            self.wrap_count >= 1,
            clip_seconds(*self) <= u32::MAX,
        ensures
            s == clip_seconds(*self),
    {
        self.segment_seconds * (self.wrap_count - 1)
    }
}

} // verus!
