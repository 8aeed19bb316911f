use lol_clip_tool::devices::{
    check_command, macos_device_list, parse_avfoundation_devices, parse_directshow_devices,
    parse_linux_devices, windows_device_list, CommandOutput, DeviceInfo,
};

fn names(v: &[DeviceInfo]) -> Vec<(i32, String)> {
    v.iter().map(|d| (d.index, d.name.clone())).collect()
}

const AVFOUNDATION: &str = "[AVFoundation indev @ 0x7f8e4c004a00] AVFoundation video devices:\n\
[AVFoundation indev @ 0x7f8e4c004a00] [0] FaceTime HD Camera\n\
[AVFoundation indev @ 0x7f8e4c004a00] [1] Capture screen 0\n\
[AVFoundation indev @ 0x7f8e4c004a00] AVFoundation audio devices:\n\
[AVFoundation indev @ 0x7f8e4c004a00] [0] MacBook Pro Microphone\r\n\
[AVFoundation indev @ 0x7f8e4c004a00] [1]   BlackHole 2ch  \n\
: Input/output error\n";

#[test]
fn avfoundation_listing_is_split_into_video_and_audio() {
    let d = parse_avfoundation_devices(AVFOUNDATION);
    assert_eq!(
        names(&d.video),
        vec![(0, "FaceTime HD Camera".to_string()), (1, "Capture screen 0".to_string())]
    );
    assert_eq!(
        names(&d.audio),
        vec![(0, "MacBook Pro Microphone".to_string()), (1, "BlackHole 2ch".to_string())]
    );
}

#[test]
fn avfoundation_device_lines_before_any_header_are_ignored() {
    let text = "[x] [0] Stray\nAVFoundation audio devices:\n[x] [0] Mic";
    let d = parse_avfoundation_devices(text);
    assert!(d.video.is_empty());
    assert_eq!(names(&d.audio), vec![(0, "Mic".to_string())]);
}

#[test]
fn avfoundation_line_without_closing_bracket_is_ignored() {
    let text = "AVFoundation video devices:\n[x] [0 no close\n[x] [1] Cam";
    let d = parse_avfoundation_devices(text);
    assert_eq!(names(&d.video), vec![(0, "Cam".to_string())]);
}

#[test]
fn empty_listing_has_no_devices() {
    let d = parse_avfoundation_devices("");
    assert!(d.video.is_empty() && d.audio.is_empty());
}

const DSHOW: &str = "[dshow @ 000001] DirectShow video devices (some may be both video and audio devices)\n\
[dshow @ 000001]  \"Integrated Camera\"\n\
[dshow @ 000001]     Alternative name \"@device_pnp_camera\"\n\
[dshow @ 000001] DirectShow audio devices\n\
[dshow @ 000001]  \"Microphone (Realtek Audio)\"\n\
dummy: Immediate exit requested\n";

#[test]
fn directshow_listing_takes_every_quoted_name() {
    let d = parse_directshow_devices(DSHOW);
    assert_eq!(
        names(&d.video),
        vec![(0, "Integrated Camera".to_string()), (1, "@device_pnp_camera".to_string())]
    );
    assert_eq!(names(&d.audio), vec![(0, "Microphone (Realtek Audio)".to_string())]);
}

#[test]
fn directshow_line_with_one_quote_is_ignored() {
    let d = parse_directshow_devices("DirectShow audio devices\n \"unterminated\n \"Mic\"");
    assert_eq!(names(&d.audio), vec![(0, "Mic".to_string())]);
}

const ARECORD: &str = "**** List of CAPTURE Hardware Devices ****\n\
card 0: PCH [HDA Intel PCH], device 0: ALC257 Analog [ALC257 Analog]\n\
  Subdevices: 1/1\n\
  Subdevice #0: subdevice #0\n  card 1: USB [USB Audio], device 0: USB Audio [USB Audio]\n";

const V4L2: &str = "Integrated Camera: Integrated C (usb-0000:00:14.0-6):\n\
\t/dev/video0\n\
\t/dev/video1\n\
\n\
Dummy video device (0x0000) (platform:v4l2loopback-000):\n  /dev/video2\n";

#[test]
fn linux_listings_give_cards_and_video_devices() {
    let d = parse_linux_devices(ARECORD, V4L2);
    assert_eq!(
        names(&d.audio),
        vec![
            (0, "card 0: PCH [HDA Intel PCH], device 0: ALC257 Analog [ALC257 Analog]".to_string()),
            (1, "card 1: USB [USB Audio], device 0: USB Audio [USB Audio]".to_string()),
        ]
    );
    assert_eq!(
        names(&d.video),
        vec![
            (0, "Integrated Camera: Integrated C (usb-0000:00:14.0-6)".to_string()),
            (1, "Dummy video device (0x0000) (platform:v4l2loopback-000)".to_string()),
        ]
    );
}

fn out(success: bool, stdout: &str, stderr: &str) -> CommandOutput {
    CommandOutput { success, stdout: stdout.to_string(), stderr: stderr.to_string() }
}

#[test]
fn failed_command_answers_with_its_stderr() {
    assert_eq!(check_command(&out(false, "", "no such device")), Err("no such device".to_string()));
    assert_eq!(check_command(&out(true, "x", "y")), Ok(()));
}

#[test]
fn macos_listing_is_read_from_a_run_that_reports_failure() {
    let r = macos_device_list(&out(false, "", AVFOUNDATION)).ok().unwrap();
    assert_eq!(r.video.len(), 2);
    assert_eq!(r.audio.len(), 2);
    let e = macos_device_list(&out(true, "", "listing")).err().unwrap();
    assert_eq!(e, "listing");
}

#[test]
fn windows_listing_needs_a_successful_run() {
    let r = windows_device_list(&out(true, "", DSHOW)).ok().unwrap();
    assert_eq!(r.video.len(), 2);
    assert_eq!(r.audio.len(), 1);
    let e = windows_device_list(&out(false, "", "dshow failed")).err().unwrap();
    assert_eq!(e, "dshow failed");
}
