use clipforge::command::{
    capture_intent_from, capture_invocation, overlay_export_invocation, trim_invocation,
    CaptureIntent, CaptureSource, Invocation, OverlayExportIntent, TrimIntent,
};
use clipforge::devices::{parse_devices, DeviceKind, DeviceRecord};
use clipforge::error::MediaError;
use clipforge::placement::{overlay_x, overlay_y, Corner, OverlaySize, OVERLAY_MARGIN};
use clipforge::session::RecordingSession;
use clipforge::text::{decimal_text, seconds_from_millis, trim_bounds};

const LISTING: &str = "ffmpeg version 6.0 Copyright (c) 2000-2023\n\
[AVFoundation indev @ 0x7f8] AVFoundation video devices:\n\
[AVFoundation indev @ 0x7f8] [0] FaceTime HD Camera\n\
[AVFoundation indev @ 0x7f8] [1] Capture screen 0\n\
[AVFoundation indev @ 0x7f8] AVFoundation audio devices:\n\
[AVFoundation indev @ 0x7f8] [0] MacBook Pro Microphone\n\
: Input/output error\n";

fn args(inv: &Invocation) -> Vec<&str> {
    inv.args.iter().map(|a| a.as_str()).collect()
}

fn summary(devices: &[DeviceRecord]) -> Vec<(u32, String, &'static str)> {
    devices.iter().map(|d| (d.index, d.name.clone(), d.kind.label())).collect()
}

#[test]
fn top_right_offset_is_measured_from_the_right_edge() {
    assert_eq!(overlay_x(Corner::TopRight, 1920, 320, 20), 1580);
    assert_eq!(overlay_x(Corner::TopLeft, 1920, 320, 20), 20);
    assert_eq!(overlay_x(Corner::BottomRight, 1920, 320, OVERLAY_MARGIN), 1580);
}

#[test]
fn bottom_offset_is_measured_from_the_bottom_edge() {
    assert_eq!(overlay_y(Corner::BottomLeft, 1080, 240, 20), 820);
    assert_eq!(overlay_y(Corner::TopRight, 1080, 240, 20), 20);
}

#[test]
fn numbers_are_written_in_decimal() {
    assert_eq!(decimal_text(0), "0");
    assert_eq!(decimal_text(7), "7");
    assert_eq!(decimal_text(1580), "1580");
    assert_eq!(decimal_text(u64::MAX), "18446744073709551615");
}

#[test]
fn milliseconds_are_written_as_shortest_seconds() {
    assert_eq!(seconds_from_millis(0), "0");
    assert_eq!(seconds_from_millis(10_000), "10");
    assert_eq!(seconds_from_millis(2_500), "2.5");
    assert_eq!(seconds_from_millis(10), "0.01");
    assert_eq!(seconds_from_millis(1_234), "1.234");
    assert_eq!(seconds_from_millis(3_120), "3.12");
}

#[test]
fn trim_bounds_skip_white_space() {
    let chars: Vec<char> = " \t ab c \u{3000}".chars().collect();
    assert_eq!(trim_bounds(&chars, 0, chars.len()), (3, 7));
    let blank: Vec<char> = "   ".chars().collect();
    let (a, b) = trim_bounds(&blank, 0, 3);
    assert_eq!(a, b);
}

#[test]
fn listing_yields_devices_in_order() {
    let devices = parse_devices(LISTING);
    assert_eq!(
        summary(&devices),
        vec![
            (0, "FaceTime HD Camera".to_string(), "webcam"),
            (1, "Capture screen 0".to_string(), "screen"),
            (0, "MacBook Pro Microphone".to_string(), "audio"),
        ]
    );
}

#[test]
fn parsing_twice_gives_the_same_devices() {
    assert_eq!(summary(&parse_devices(LISTING)), summary(&parse_devices(LISTING)));
}

#[test]
fn empty_listing_gives_no_devices() {
    assert!(parse_devices("").is_empty());
    assert!(parse_devices("ffmpeg version 6.0\nnothing here\n").is_empty());
}

#[test]
fn lines_before_any_section_are_ignored() {
    assert!(parse_devices("[3] Stray device\nAVFoundation video devices:\n").is_empty());
}

#[test]
fn headers_match_regardless_of_case() {
    let devices = parse_devices("AVFOUNDATION Audio Devices:\r\n[2] USB Mic\r\n");
    assert_eq!(summary(&devices), vec![(2, "USB Mic".to_string(), "audio")]);
}

#[test]
fn malformed_brackets_do_not_stop_the_line() {
    let text = "avfoundation video devices:\n[x] [ [-1] [+7] Odd Camera\n[9 no close\n[5]\n";
    let devices = parse_devices(text);
    assert_eq!(
        summary(&devices),
        vec![(7, "Odd Camera".to_string(), "webcam"), (5, "Device 5".to_string(), "webcam")]
    );
}

#[test]
fn out_of_range_index_is_skipped() {
    let devices = parse_devices("avfoundation video devices:\n[4294967296] Big [3] Cam\n");
    assert_eq!(summary(&devices), vec![(3, "Cam".to_string(), "webcam")]);
}

#[test]
fn screen_phrase_marks_screens_in_the_audio_section() {
    let devices = parse_devices("avfoundation audio devices:\n[4] CAPTURE SCREEN 1\n");
    assert_eq!(devices[0].kind, DeviceKind::Screen);
}

#[test]
fn corners_and_sizes_parse_by_name() {
    assert_eq!(Corner::parse("bottom-right"), Some(Corner::BottomRight));
    assert_eq!(Corner::parse("top-left"), Some(Corner::TopLeft));
    assert_eq!(Corner::parse("middle"), None);
    assert_eq!(OverlaySize::parse("large"), Some(OverlaySize::Large));
    assert_eq!(OverlaySize::parse("huge"), None);
}

#[test]
fn screen_request_uses_default_screen() {
    let intent = capture_intent_from("/tmp/a.mp4".to_string(), "screen", None, None, None, None)
        .unwrap();
    assert_eq!(intent.source, CaptureSource::Screen { screen: 4 });
    let inv = capture_invocation(&intent);
    assert_eq!(inv.program, "ffmpeg");
    assert_eq!(
        args(&inv),
        vec![
            "-f", "avfoundation", "-framerate", "30", "-i", "4:0", "-c:v", "libx264",
            "-preset", "ultrafast", "-crf", "23", "-c:a", "aac", "-b:a", "128k", "/tmp/a.mp4",
        ]
    );
}

#[test]
fn webcam_request_captures_at_720p() {
    let intent = capture_intent_from("w.mp4".to_string(), "webcam", None, Some(1), None, None)
        .unwrap();
    let inv = capture_invocation(&intent);
    assert_eq!(&args(&inv)[..8], &["-f", "avfoundation", "-framerate", "30", "-video_size", "1280x720", "-i", "1:0"]);
}

#[test]
fn pip_request_overlays_the_webcam() {
    let intent = capture_intent_from(
        "p.mp4".to_string(),
        "pip",
        Some(5),
        Some(0),
        Some("bottom-right"),
        Some("medium"),
    )
    .unwrap();
    assert_eq!(
        intent.source,
        CaptureSource::PictureInPicture {
            screen: 5,
            webcam: 0,
            corner: Corner::BottomRight,
            size: OverlaySize::Medium,
        }
    );
    let inv = capture_invocation(&intent);
    let a = args(&inv);
    assert_eq!(a[5], "5:0");
    assert_eq!(a[13], "0:0");
    assert_eq!(a[14], "-filter_complex");
    assert_eq!(
        a[15],
        "[1:v]scale=320:240[webcam];[0:v][webcam]overlay=W-overlay_w-20:H-overlay_h-20:enable='between(t,0,999999)'"
    );
    assert_eq!(a.last(), Some(&"p.mp4"));
}

#[test]
fn unknown_request_names_are_invalid() {
    let r = capture_intent_from("x".to_string(), "audio", None, None, None, None);
    assert!(matches!(r, Err(MediaError::InvalidArgument(_))));
    let r = capture_intent_from("x".to_string(), "pip", None, None, Some("center"), None);
    assert!(matches!(r, Err(MediaError::InvalidArgument(_))));
    let r = capture_intent_from("x".to_string(), "pip", None, None, None, Some("huge"));
    assert!(matches!(r, Err(MediaError::InvalidArgument(_))));
}

#[test]
fn trim_reencodes_the_window() {
    let t = TrimIntent {
        input_path: "in.mov".to_string(),
        output_path: "out.mp4".to_string(),
        start_ms: 1_500,
        end_ms: 4_000,
    };
    let inv = trim_invocation(&t).unwrap();
    assert_eq!(
        args(&inv),
        vec![
            "-i", "in.mov", "-ss", "1.5", "-t", "2.5", "-c:v", "libx264", "-c:a", "aac",
            "-preset", "medium", "-y", "out.mp4",
        ]
    );
}

#[test]
fn trim_rejects_empty_window() {
    let t = TrimIntent {
        input_path: "in.mov".to_string(),
        output_path: "out.mp4".to_string(),
        start_ms: 4_000,
        end_ms: 4_000,
    };
    assert!(matches!(trim_invocation(&t), Err(MediaError::InvalidArgument(_))));
}

fn pip_export(corner: Corner) -> OverlayExportIntent {
    OverlayExportIntent {
        main_path: "main.mov".to_string(),
        pip_path: "cam.mov".to_string(),
        output_path: "final.mp4".to_string(),
        main_start_ms: 0,
        main_end_ms: 10_000,
        pip_start_ms: 2_000,
        pip_end_ms: 8_000,
        corner,
    }
}

#[test]
fn pip_export_overlays_bottom_right_for_main_window() {
    let inv = overlay_export_invocation(&pip_export(Corner::BottomRight)).unwrap();
    assert_eq!(inv.program, "ffmpeg");
    assert_eq!(
        args(&inv),
        vec![
            "-ss", "0", "-i", "main.mov", "-t", "10", "-ss", "2", "-i", "cam.mov", "-t", "6",
            "-filter_complex",
            "[1:v]scale=320:240,setpts=PTS-STARTPTS[pip];[0:v][pip]overlay=W-overlay_w-20:H-overlay_h-20:enable='between(t,0,10)'[v]",
            "-map", "[v]", "-map", "0:a", "-c:v", "libx264", "-preset", "medium", "-crf", "23",
            "-c:a", "aac", "-b:a", "128k", "-y", "final.mp4",
        ]
    );
}

#[test]
fn pip_export_top_left_uses_margins() {
    let inv = overlay_export_invocation(&pip_export(Corner::TopLeft)).unwrap();
    assert!(args(&inv)[13].contains("overlay=20:20:"));
}

#[test]
fn pip_export_rejects_reversed_window() {
    let mut e = pip_export(Corner::TopRight);
    e.pip_end_ms = 1_000;
    assert!(matches!(overlay_export_invocation(&e), Err(MediaError::InvalidArgument(_))));
}

#[test]
fn second_start_is_refused_while_recording() {
    let mut session: RecordingSession<u32> = RecordingSession::new();
    assert!(!session.is_recording());
    let screen = capture_intent_from("s.mp4".to_string(), "screen", Some(4), None, None, None)
        .unwrap();
    let inv = session.begin_start(&screen).unwrap();
    assert_eq!(args(&inv)[5], "4:0");
    let msg = session.complete_start(&screen.output_path, Ok(77)).unwrap();
    assert_eq!(msg, "Recording started to: s.mp4");
    assert!(session.is_recording());
    let webcam = capture_intent_from("w.mp4".to_string(), "webcam", None, None, None, None)
        .unwrap();
    assert!(matches!(session.begin_start(&webcam), Err(MediaError::AlreadyRecording)));
    assert!(session.is_recording());
    assert_eq!(session.stop().unwrap(), 77);
    assert!(!session.is_recording());
}

#[test]
fn stop_while_idle_is_refused() {
    let mut session: RecordingSession<u32> = RecordingSession::new();
    assert!(matches!(session.stop(), Err(MediaError::NoActiveRecording)));
    assert!(!session.is_recording());
}

#[test]
fn failed_spawn_leaves_session_idle() {
    let mut session: RecordingSession<u32> = RecordingSession::new();
    let intent = CaptureIntent { output_path: "a.mp4".to_string(), source: CaptureSource::Screen { screen: 1 } };
    assert!(session.begin_start(&intent).is_ok());
    let r = session.complete_start(&intent.output_path, Err(MediaError::ExternalToolUnavailable("no ffmpeg".to_string())));
    assert!(matches!(r, Err(MediaError::ExternalToolUnavailable(_))));
    assert!(!session.is_recording());
    assert!(session.begin_start(&intent).is_ok());
}

#[test]
fn exited_process_is_dropped_on_settle() {
    let mut session: RecordingSession<u32> = RecordingSession::new();
    let intent = CaptureIntent { output_path: "a.mp4".to_string(), source: CaptureSource::Screen { screen: 1 } };
    session.complete_start(&intent.output_path, Ok(3)).unwrap();
    let h = session.stop().unwrap();
    assert!(session.settle(h, false));
    assert!(session.is_recording());
    let h = session.stop().unwrap();
    assert!(!session.settle(h, true));
    assert!(!session.is_recording());
}

#[test]
fn error_messages() {
    assert_eq!(MediaError::AlreadyRecording.message(), "Already recording");
    assert_eq!(MediaError::NoActiveRecording.message(), "No active recording");
    assert_eq!(MediaError::ExternalToolFailed("bad".to_string()).message(), "FFmpeg error: bad");
    assert_eq!(MediaError::InvalidArgument("x".to_string()).message(), "x");
    assert_eq!(MediaError::Io("disk".to_string()).message(), "disk");
}
