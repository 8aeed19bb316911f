//! Capture devices read from the listings that ffmpeg (avfoundation, dshow),
//! `arecord -l` and `v4l2-ctl --list-devices` print.
use vstd::prelude::*;
use crate::text::{chars_of, string_of};
use crate::scan::{
    contains, find, matches_at, matches_at_exec, find_chars, lines, lines_of, slice_chars, starts_with, trim, trim_chars, trim_end_char,
    trim_end_char_chars, views, contains_chars,
};

verus! {

/// One capture device, numbered in the order of its listing.
pub struct DeviceInfo {
    pub index: i32,
    pub name: String,
}

/// The video and the audio devices of one listing.
pub struct DeviceList {
    pub video: Vec<DeviceInfo>,
    pub audio: Vec<DeviceInfo>,
}

/// What a finished external command handed back.
pub struct CommandOutput {
    pub success: bool,
    pub stdout: String,
    pub stderr: String,
}

/// The part of a listing that the lines being read belong to.
#[derive(PartialEq, Eq, Structural, Clone, Copy)]
pub enum Section {
    Unset,
    Video,
    Audio,
}

/// The two listing formats with section headers.
#[derive(PartialEq, Eq, Structural, Clone, Copy)]
pub enum HeaderFormat {
    AvFoundation,
    DirectShow,
}

/// The names of a device list, in order.
pub open spec fn names_of(v: Seq<DeviceInfo>) -> Seq<Seq<char>> {
    v.map_values(|d: DeviceInfo| d.name@)
}

/// Every device carries its position in the list as its index.
pub open spec fn numbered(v: Seq<DeviceInfo>) -> bool {
    forall|k: int| 0 <= k < v.len() ==> #[trigger] v[k].index == k as i32
}

/// The list holds exactly the given names, numbered from zero.
pub open spec fn lists(v: Seq<DeviceInfo>, names: Seq<Seq<char>>) -> bool {
    names_of(v) == names && numbered(v)
}

/// The header line that opens the video section.
pub open spec fn video_header(f: HeaderFormat) -> Seq<char> {
    match f {
        HeaderFormat::AvFoundation => "AVFoundation video devices"@,
        HeaderFormat::DirectShow => "DirectShow video devices"@,
    }
}

/// The header line that opens the audio section.
pub open spec fn audio_header(f: HeaderFormat) -> Seq<char> {
    match f {
        HeaderFormat::AvFoundation => "AVFoundation audio devices"@,
        HeaderFormat::DirectShow => "DirectShow audio devices"@,
    }
}

/// avfoundation prints `[AVFoundation indev @ 0x..] [0] Name`: the name is
/// what follows the `]` that closes the bracket after `] [`, trimmed.
pub open spec fn bracket_name(t: Seq<char>) -> Option<Seq<char>> {
    match find(t, seq![']', ' ', '[']) {
        Some(pos) => {
            let rest = t.skip(pos + 3);
            match find(rest, seq![']']) {
                Some(e) => Some(trim(rest.skip(e + 1))),
                None => None,
            }
        },
        None => None,
    }
}

/// dshow prints `[dshow @ 0x..] "Name" (video)`: the name is what stands
/// between the first two double quotes.
pub open spec fn quoted_name(t: Seq<char>) -> Option<Seq<char>> {
    match find(t, seq!['"']) {
        Some(start) => {
            match find(t.skip(start + 1), seq!['"']) {
                Some(e) => Some(t.subrange(start + 1, start + 1 + e)),
                None => None,
            }
        },
        None => None,
    }
}

/// The device name that a (trimmed) listing line gives, if any.
pub open spec fn device_name(f: HeaderFormat, t: Seq<char>) -> Option<Seq<char>> {
    match f {
        HeaderFormat::AvFoundation => bracket_name(t),
        HeaderFormat::DirectShow => quoted_name(t),
    }
}

/// Reading one line: a header switches the section; a device line adds its
/// name to the current section; anything else, or a device line before any
/// header, changes nothing.
pub open spec fn header_step(
    f: HeaderFormat,
    st: (Section, Seq<Seq<char>>, Seq<Seq<char>>),
    line: Seq<char>,
) -> (Section, Seq<Seq<char>>, Seq<Seq<char>>) {
    let t = trim(line);
    if contains(t, video_header(f)) {
        (Section::Video, st.1, st.2)
    } else if contains(t, audio_header(f)) {
        (Section::Audio, st.1, st.2)
    } else {
        match device_name(f, t) {
            Some(n) => match st.0 {
                Section::Video => (st.0, st.1.push(n), st.2),
                Section::Audio => (st.0, st.1, st.2.push(n)),
                Section::Unset => st,
            },
            None => st,
        }
    }
}

/// The state after reading all the given lines, from no section and no devices.
pub open spec fn header_scan(f: HeaderFormat, ls: Seq<Seq<char>>) -> (
    Section,
    Seq<Seq<char>>,
    Seq<Seq<char>>,
)
    decreases ls.len(),
{
    if ls.len() == 0 {
        (Section::Unset, seq![], seq![])
    } else {
        header_step(f, header_scan(f, ls.drop_last()), ls.last())
    }
}

/// The sound cards of an `arecord -l` listing: the trimmed lines that begin with `card`.
pub open spec fn arecord_cards(ls: Seq<Seq<char>>) -> Seq<Seq<char>>
    decreases ls.len(),
{
    if ls.len() == 0 {
        seq![]
    } else {
        let before = arecord_cards(ls.drop_last());
        let t = trim(ls.last());
        if starts_with(t, "card"@) {
            before.push(t)
        } else {
            before
        }
    }
}

/// Whether a line of `v4l2-ctl --list-devices` is indented.
pub open spec fn indented(l: Seq<char>) -> bool {
    l.len() > 0 && (l[0] == ' ' || l[0] == '\t')
}

/// The video devices of a `v4l2-ctl --list-devices` listing: every non-blank
/// line that is not indented, without its trailing colons, trimmed.
pub open spec fn v4l2_devices(ls: Seq<Seq<char>>) -> Seq<Seq<char>>
    decreases ls.len(),
{
    if ls.len() == 0 {
        seq![]
    } else {
        let before = v4l2_devices(ls.drop_last());
        let l = ls.last();
        if trim(l).len() == 0 || indented(l) {
            before
        } else {
            before.push(trim(trim_end_char(l, ':')))
        }
    }
}

/// Appends a device with the next index.
fn push_device(v: &mut Vec<DeviceInfo>, name: Vec<char>)
    requires
        numbered(old(v)@),
    ensures
        numbered(final(v)@),
        names_of(final(v)@) == names_of(old(v)@).push(name@),
{
    let index: i32 = v.len() as i32;
    let ghost before = v@;
    v.push(DeviceInfo { index, name: string_of(&name) });
    assert(names_of(v@) =~= names_of(before).push(name@));
}

/// The device name of one trimmed line of a listing with section headers.
fn device_name_exec(f: HeaderFormat, t: &Vec<char>) -> (r: Option<Vec<char>>)
    ensures
        match r {
            Some(n) => device_name(f, t@) == Some(n@),
            None => device_name(f, t@) is None,
        },
{
    match f {
        HeaderFormat::AvFoundation => {
            let open = vec![']', ' ', '['];
            assert(open@ =~= seq![']', ' ', '[']);
            match find_chars(t, &open, 0) {
                Some(pos) => {
                    assert(matches_at(t@, open@, pos as int));
                    assert(open@.len() == 3);
                    assert(t@.len() == t.len());
                    let rest = slice_chars(t, pos + 3, t.len());
                    assert(rest@ =~= t@.skip(pos + 3));
                    let close = vec![']'];
                    assert(close@ =~= seq![']']);
                    match find_chars(&rest, &close, 0) {
                        Some(e) => {
                            assert(matches_at(rest@, close@, e as int));
                            let after = slice_chars(&rest, e + 1, rest.len());
                            assert(after@ =~= rest@.skip(e + 1));
                            Some(trim_chars(&after))
                        },
                        None => None,
                    }
                },
                None => None,
            }
        },
        HeaderFormat::DirectShow => {
            let quote = vec!['"'];
            assert(quote@ =~= seq!['"']);
            match find_chars(t, &quote, 0) {
                Some(start) => {
                    assert(matches_at(t@, quote@, start as int));
                    assert(quote@.len() == 1);
                    assert(t@.len() == t.len());
                    let rest = slice_chars(t, start + 1, t.len());
                    assert(rest@ =~= t@.skip(start + 1));
                    match find_chars(&rest, &quote, 0) {
                        Some(e) => {
                            assert(matches_at(rest@, quote@, e as int));
                            assert(rest@.len() == rest.len());
                            let name = slice_chars(t, start + 1, start + 1 + e);
                            assert(name@ =~= t@.subrange(start + 1, start + 1 + e));
                            Some(name)
                        },
                        None => None,
                    }
                },
                None => None,
            }
        },
    }
}

/// Reads a listing with section headers, line by line.
fn scan_with_headers(f: HeaderFormat, text: &str) -> (d: DeviceList)
    ensures
        lists(d.video@, header_scan(f, lines(text@)).1),
        lists(d.audio@, header_scan(f, lines(text@)).2),
{
    let chars = chars_of(text);
    let ls = lines_of(&chars);
    let (vh, ah) = match f {
        HeaderFormat::AvFoundation => (
            chars_of("AVFoundation video devices"),
            chars_of("AVFoundation audio devices"),
        ),
        HeaderFormat::DirectShow => (
            chars_of("DirectShow video devices"),
            chars_of("DirectShow audio devices"),
        ),
    };
    let mut section = Section::Unset;
    let mut video: Vec<DeviceInfo> = Vec::new();
    let mut audio: Vec<DeviceInfo> = Vec::new();
    let mut i: usize = 0;
    assert(views(ls@).take(0) =~= Seq::<Seq<char>>::empty());
    assert(names_of(video@) =~= Seq::<Seq<char>>::empty());
    assert(names_of(audio@) =~= Seq::<Seq<char>>::empty());
    while i < ls.len()
        invariant
            i <= ls@.len(),
            views(ls@) == lines(text@),
            vh@ == video_header(f),
            ah@ == audio_header(f),
            numbered(video@),
            numbered(audio@),
            header_scan(f, views(ls@).take(i as int)) == (section, names_of(video@), names_of(audio@)),
        decreases ls.len() - i,
    {
        let ghost before = header_scan(f, views(ls@).take(i as int));
        assert(views(ls@).take(i + 1).drop_last() =~= views(ls@).take(i as int));
        assert(views(ls@).take(i + 1).last() == ls@[i as int]@);
        let t = trim_chars(&ls[i]);
        if contains_chars(&t, &vh) {
            section = Section::Video;
        } else if contains_chars(&t, &ah) {
            section = Section::Audio;
        } else {
            match device_name_exec(f, &t) {
                Some(n) => match section {
                    Section::Video => push_device(&mut video, n),
                    Section::Audio => push_device(&mut audio, n),
                    Section::Unset => {},
                },
                None => {},
            }
        }
        i = i + 1;
    }
    assert(views(ls@).take(i as int) =~= views(ls@));
    DeviceList { video, audio }
}

/// The devices of an ffmpeg avfoundation listing (`-list_devices true`, on
/// standard error): lines after the `AVFoundation video devices` header are
/// video devices, lines after `AVFoundation audio devices` audio ones.
pub fn parse_avfoundation_devices(text: &str) -> (d: DeviceList)
    ensures
        lists(d.video@, header_scan(HeaderFormat::AvFoundation, lines(text@)).1),
        lists(d.audio@, header_scan(HeaderFormat::AvFoundation, lines(text@)).2),
{
    scan_with_headers(HeaderFormat::AvFoundation, text)
}

/// The devices of an ffmpeg dshow listing, under the `DirectShow video
/// devices` and `DirectShow audio devices` headers.
pub fn parse_directshow_devices(text: &str) -> (d: DeviceList)
    ensures
        lists(d.video@, header_scan(HeaderFormat::DirectShow, lines(text@)).1),
        lists(d.audio@, header_scan(HeaderFormat::DirectShow, lines(text@)).2),
{
    scan_with_headers(HeaderFormat::DirectShow, text)
}

/// The devices of a Linux machine: sound cards from `arecord -l`, video
/// devices from `v4l2-ctl --list-devices`.
pub fn parse_linux_devices(arecord: &str, v4l2: &str) -> (d: DeviceList)
    ensures
        lists(d.audio@, arecord_cards(lines(arecord@))),
        lists(d.video@, v4l2_devices(lines(v4l2@))),
{
    let card = chars_of("card");
    let audio_lines = lines_of(&chars_of(arecord));
    let mut audio: Vec<DeviceInfo> = Vec::new();
    let mut i: usize = 0;
    assert(views(audio_lines@).take(0) =~= Seq::<Seq<char>>::empty());
    assert(names_of(audio@) =~= Seq::<Seq<char>>::empty());
    while i < audio_lines.len()
        invariant
            i <= audio_lines@.len(),
            card@ == "card"@,
            numbered(audio@),
            arecord_cards(views(audio_lines@).take(i as int)) == names_of(audio@),
        decreases audio_lines.len() - i,
    {
        assert(views(audio_lines@).take(i + 1).drop_last() =~= views(audio_lines@).take(i as int));
        assert(views(audio_lines@).take(i + 1).last() == audio_lines@[i as int]@);
        let t = trim_chars(&audio_lines[i]);
        if matches_at_exec(&t, &card, 0) {
            push_device(&mut audio, t);
        }
        i = i + 1;
    }
    assert(views(audio_lines@).take(i as int) =~= views(audio_lines@));

    let video_lines = lines_of(&chars_of(v4l2));
    let mut video: Vec<DeviceInfo> = Vec::new();
    let mut j: usize = 0;
    assert(views(video_lines@).take(0) =~= Seq::<Seq<char>>::empty());
    assert(names_of(video@) =~= Seq::<Seq<char>>::empty());
    while j < video_lines.len()
        invariant
            j <= video_lines@.len(),
            numbered(video@),
            v4l2_devices(views(video_lines@).take(j as int)) == names_of(video@),
        decreases video_lines.len() - j,
    {
        assert(views(video_lines@).take(j + 1).drop_last() =~= views(video_lines@).take(j as int));
        assert(views(video_lines@).take(j + 1).last() == video_lines@[j as int]@);
        let line = &video_lines[j];
        let blank = trim_chars(line).len() == 0;
        let indent = line.len() > 0 && (line[0] == ' ' || line[0] == '\t');
        if !blank && !indent {
            let name = trim_chars(&trim_end_char_chars(line, ':'));
            push_device(&mut video, name);
        }
        j = j + 1;
    }
    assert(views(video_lines@).take(j as int) =~= views(video_lines@));
    DeviceList { video, audio }
}

/// The result of a listing command: its standard error when it failed.
pub fn check_command(out: &CommandOutput) -> (r: Result<(), String>)
    ensures
        match r {
            Ok(_) => out.success,
            Err(e) => !out.success && e@ == out.stderr@,
        },
{
    if out.success {
        Ok(())
    } else {
        Err(out.stderr.clone())
    }
}

/// The device list from `ffmpeg -f avfoundation -list_devices true -i ""`,
/// which prints its listing on standard error. A run that reports success is
/// answered with its standard error as the error.
pub fn macos_device_list(out: &CommandOutput) -> (r: Result<DeviceList, String>)
    ensures
        match r {
            Err(e) => out.success && e@ == out.stderr@,
            Ok(d) => !out.success && lists(d.video@, header_scan(HeaderFormat::AvFoundation, lines(out.stderr@)).1)
                && lists(d.audio@, header_scan(HeaderFormat::AvFoundation, lines(out.stderr@)).2),
        },
{
    if out.success {
        Err(out.stderr.clone())
    } else {
        Ok(parse_avfoundation_devices(out.stderr.as_str()))
    }
}

/// The device list from `ffmpeg -list_devices true -f dshow -i dummy`: a
/// failed run is answered with its standard error.
pub fn windows_device_list(out: &CommandOutput) -> (r: Result<DeviceList, String>)
    ensures
        match r {
            Err(e) => !out.success && e@ == out.stderr@,
            Ok(d) => out.success && lists(d.video@, header_scan(HeaderFormat::DirectShow, lines(out.stderr@)).1)
                && lists(d.audio@, header_scan(HeaderFormat::DirectShow, lines(out.stderr@)).2),
        },
{
    if !out.success {
        Err(out.stderr.clone())
    } else {
        Ok(parse_directshow_devices(out.stderr.as_str()))
    }
}

} // verus!
