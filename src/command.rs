use vstd::prelude::*;

use crate::error::MediaError;
use crate::placement::{Corner, OverlaySize};
use crate::text::{decimal, decimal_text, same_text, seconds_from_millis, seconds_text};

verus! {

/// A program to run and the arguments to hand it.
#[derive(Clone, Debug)]
pub struct Invocation {
    pub program: String,
    pub args: Vec<String>,
}

pub open spec fn strings_view(v: Seq<String>) -> Seq<Seq<char>> {
    v.map_values(|s: String| s@)
}

impl View for Invocation {
    type V = (Seq<char>, Seq<Seq<char>>);

    open spec fn view(&self) -> (Seq<char>, Seq<Seq<char>>) {
        (self.program@, strings_view(self.args@))
    }
}

/// The program that every invocation runs.
pub open spec fn encoder() -> Seq<char> {
    "ffmpeg"@
}

/// Which devices a recording captures.
#[derive(Clone, Copy, Debug, PartialEq, Eq, Structural)]
pub enum CaptureSource {
    Screen { screen: u32 },
    Webcam { webcam: u32 },
    PictureInPicture { screen: u32, webcam: u32, corner: Corner, size: OverlaySize },
}

/// A recording to start: what to capture and where to write it.
#[derive(Clone, Debug)]
pub struct CaptureIntent {
    pub output_path: String,
    pub source: CaptureSource,
}

/// A clip to cut out of a recording and encode anew; times in milliseconds.
#[derive(Clone, Debug)]
pub struct TrimIntent {
    pub input_path: String,
    pub output_path: String,
    pub start_ms: u64,
    pub end_ms: u64,
}

/// Two clips to composite, the second as an overlay in a corner of the first;
/// times in milliseconds.
#[derive(Clone, Debug)]
pub struct OverlayExportIntent {
    pub main_path: String,
    pub pip_path: String,
    pub output_path: String,
    pub main_start_ms: u64,
    pub main_end_ms: u64,
    pub pip_start_ms: u64,
    pub pip_end_ms: u64,
    pub corner: Corner,
}

/// The encoder's name for capture device `index` with the default audio input.
pub open spec fn device_input(index: u32) -> Seq<char> {
    decimal(index as nat) + ":0"@
}

/// Encoding settings shared by every recording, ending with the output file.
pub open spec fn capture_tail(out: Seq<char>) -> Seq<Seq<char>> {
    seq![
        "-c:v"@,
        "libx264"@,
        "-preset"@,
        "ultrafast"@,
        "-crf"@,
        "23"@,
        "-c:a"@,
        "aac"@,
        "-b:a"@,
        "128k"@,
        out,
    ]
}

/// Filter that scales the webcam and lays it over the screen at `corner` throughout.
pub open spec fn capture_filter(corner: Corner) -> Seq<char> {
    "[1:v]scale=320:240[webcam];[0:v][webcam]overlay="@ + corner.x_expr() + ":"@
        + corner.y_expr() + ":enable='between(t,0,999999)'"@
}

/// The encoder arguments that record `source` into `out`.
pub open spec fn capture_args(source: CaptureSource, out: Seq<char>) -> Seq<Seq<char>> {
    match source {
        CaptureSource::Screen { screen } => seq![
            "-f"@,
            "avfoundation"@,
            "-framerate"@,
            "30"@,
            "-i"@,
            device_input(screen),
        ] + capture_tail(out),
        CaptureSource::Webcam { webcam } => seq![
            "-f"@,
            "avfoundation"@,
            "-framerate"@,
            "30"@,
            "-video_size"@,
            "1280x720"@,
            "-i"@,
            device_input(webcam),
        ] + capture_tail(out),
        CaptureSource::PictureInPicture { screen, webcam, corner, .. } => seq![
            "-f"@,
            "avfoundation"@,
            "-framerate"@,
            "30"@,
            "-i"@,
            device_input(screen),
            "-f"@,
            "avfoundation"@,
            "-framerate"@,
            "30"@,
            "-video_size"@,
            "640x480"@,
            "-i"@,
            device_input(webcam),
            "-filter_complex"@,
            capture_filter(corner),
        ] + capture_tail(out),
    }
}

fn push_arg(v: &mut Vec<String>, s: &str)
    ensures
        strings_view(final(v)@) == strings_view(old(v)@).push(s@),
{
    v.push(String::from_str(s));
    assert(strings_view(final(v)@) =~= strings_view(old(v)@).push(s@));
}

fn push_owned(v: &mut Vec<String>, s: String)
    ensures
        strings_view(final(v)@) == strings_view(old(v)@).push(s@),
{
    let ghost sv = s@;
    v.push(s);
    assert(strings_view(final(v)@) =~= strings_view(old(v)@).push(sv));
}

fn device_input_text(index: u32) -> (r: String)
    ensures
        r@ == device_input(index),
{
    let mut s = decimal_text(index as u64);
    s.append(":0");
    s
}

fn capture_filter_text(corner: Corner) -> (r: String)
    ensures
        r@ == capture_filter(corner),
{
    let mut s = String::from_str("[1:v]scale=320:240[webcam];[0:v][webcam]overlay=");
    s.append(corner.x_filter_expr());
    s.append(":");
    s.append(corner.y_filter_expr());
    s.append(":enable='between(t,0,999999)'");
    s
}

/// The invocation that starts the recording `intent` describes.
pub fn capture_invocation(intent: &CaptureIntent) -> (r: Invocation)
    ensures
        r@ == (encoder(), capture_args(intent.source, intent.output_path@)),
{
    let mut args: Vec<String> = Vec::new();
    push_arg(&mut args, "-f");
    push_arg(&mut args, "avfoundation");
    push_arg(&mut args, "-framerate");
    push_arg(&mut args, "30");
    match intent.source {
        CaptureSource::Screen { screen } => {
            push_arg(&mut args, "-i");
            push_owned(&mut args, device_input_text(screen));
        },
        CaptureSource::Webcam { webcam } => {
            push_arg(&mut args, "-video_size");
            push_arg(&mut args, "1280x720");
            push_arg(&mut args, "-i");
            push_owned(&mut args, device_input_text(webcam));
        },
        CaptureSource::PictureInPicture { screen, webcam, corner, .. } => {
            push_arg(&mut args, "-i");
            push_owned(&mut args, device_input_text(screen));
            push_arg(&mut args, "-f");
            push_arg(&mut args, "avfoundation");
            push_arg(&mut args, "-framerate");
            push_arg(&mut args, "30");
            push_arg(&mut args, "-video_size");
            push_arg(&mut args, "640x480");
            push_arg(&mut args, "-i");
            push_owned(&mut args, device_input_text(webcam));
            push_arg(&mut args, "-filter_complex");
            push_owned(&mut args, capture_filter_text(corner));
        },
    }
    push_arg(&mut args, "-c:v");
    push_arg(&mut args, "libx264");
    push_arg(&mut args, "-preset");
    push_arg(&mut args, "ultrafast");
    push_arg(&mut args, "-crf");
    push_arg(&mut args, "23");
    push_arg(&mut args, "-c:a");
    push_arg(&mut args, "aac");
    push_arg(&mut args, "-b:a");
    push_arg(&mut args, "128k");
    push_owned(&mut args, intent.output_path.clone());
    assert(strings_view(args@) =~= capture_args(intent.source, intent.output_path@));
    Invocation { program: String::from_str("ffmpeg"), args }
}

/// Screen captured when a request names none.
pub const DEFAULT_SCREEN: u32 = 4;

/// Webcam captured when a request names none.
pub const DEFAULT_WEBCAM: u32 = 0;

/// The capture source that a request names, or `None` for an unknown recording type,
/// corner or size class. An absent corner is the top left, an absent size small.
pub open spec fn requested_source(
    kind: Seq<char>,
    screen: Option<u32>,
    webcam: Option<u32>,
    corner: Option<Seq<char>>,
    size: Option<Seq<char>>,
) -> Option<CaptureSource> {
    let s = match screen { Some(i) => i, None => DEFAULT_SCREEN };
    let w = match webcam { Some(i) => i, None => DEFAULT_WEBCAM };
    if kind == "screen"@ {
        Some(CaptureSource::Screen { screen: s })
    } else if kind == "webcam"@ {
        Some(CaptureSource::Webcam { webcam: w })
    } else if kind == "pip"@ {
        let c = match corner {
            None => Some(Corner::TopLeft),
            Some(t) => if exists|c: Corner| c.name_spec() == t {
                Some(choose|c: Corner| c.name_spec() == t)
            } else {
                None
            },
        };
        let z = match size {
            None => Some(OverlaySize::Small),
            Some(t) => if exists|z: OverlaySize| z.name_spec() == t {
                Some(choose|z: OverlaySize| z.name_spec() == t)
            } else {
                None
            },
        };
        match (c, z) {
            (Some(c), Some(z)) => Some(
                CaptureSource::PictureInPicture { screen: s, webcam: w, corner: c, size: z },
            ),
            _ => None,
        }
    } else {
        None
    }
}

pub open spec fn opt_view(o: Option<&str>) -> Option<Seq<char>> {
    match o {
        Some(t) => Some(t@),
        None => None,
    }
}

proof fn lemma_corner_names_distinct(c: Corner, d: Corner)
    ensures
        c.name_spec() == d.name_spec() ==> c == d,
{
    reveal_strlit("top-left");
    reveal_strlit("top-right");
    reveal_strlit("bottom-left");
    reveal_strlit("bottom-right");
    if c != d {
        assert(c.name_spec().len() != d.name_spec().len() || c.name_spec()[0] != d.name_spec()[0]
            || c.name_spec()[c.name_spec().len() - 1] != d.name_spec()[d.name_spec().len() - 1]);
    }
}

proof fn lemma_size_names_distinct(z: OverlaySize, y: OverlaySize)
    ensures
        z.name_spec() == y.name_spec() ==> z == y,
{
    reveal_strlit("small");
    reveal_strlit("medium");
    reveal_strlit("large");
    if z != y {
        assert(z.name_spec()[0] != y.name_spec()[0]);
    }
}

/// Reads a recording request as the user interface sends it.
pub fn capture_intent_from(
    output_path: String,
    recording_type: &str,
    screen_index: Option<u32>,
    webcam_index: Option<u32>,
    pip_position: Option<&str>,
    pip_size: Option<&str>,
) -> (r: Result<CaptureIntent, MediaError>)
    ensures
        match requested_source(
            recording_type@,
            screen_index,
            webcam_index,
            opt_view(pip_position),
            opt_view(pip_size),
        ) {
            Some(src) => r matches Ok(i) && i.source == src && i.output_path@ == output_path@,
            None => r matches Err(MediaError::InvalidArgument(_)),
        },
{
    let s = match screen_index {
        Some(i) => i,
        None => DEFAULT_SCREEN,
    };
    let w = match webcam_index {
        Some(i) => i,
        None => DEFAULT_WEBCAM,
    };
    let source = if same_text(recording_type, "screen") {
        CaptureSource::Screen { screen: s }
    } else if same_text(recording_type, "webcam") {
        CaptureSource::Webcam { webcam: w }
    } else if same_text(recording_type, "pip") {
        let corner = match pip_position {
            None => Corner::TopLeft,
            Some(t) => match Corner::parse(t) {
                Some(c) => {
                    proof {
                        let d = choose|d: Corner| d.name_spec() == t@;
                        lemma_corner_names_distinct(c, d);
                    }
                    c
                },
                None => {
                    return Err(MediaError::InvalidArgument(String::from_str("Invalid PiP position")));
                },
            },
        };
        let size = match pip_size {
            None => OverlaySize::Small,
            Some(t) => match OverlaySize::parse(t) {
                Some(z) => {
                    proof {
                        let y = choose|y: OverlaySize| y.name_spec() == t@;
                        lemma_size_names_distinct(z, y);
                    }
                    z
                },
                None => {
                    return Err(MediaError::InvalidArgument(String::from_str("Invalid PiP size")));
                },
            },
        };
        CaptureSource::PictureInPicture { screen: s, webcam: w, corner, size }
    } else {
        return Err(MediaError::InvalidArgument(String::from_str("Invalid recording type")));
    };
    Ok(CaptureIntent { output_path, source })
}

/// A time window that ends after it starts.
pub open spec fn valid_window(start_ms: u64, end_ms: u64) -> bool {
    start_ms < end_ms
}

/// The encoder arguments that cut `[start, end)` out of `input` and encode it into `out`,
/// replacing any file there.
pub open spec fn trim_args(t: TrimIntent) -> Seq<Seq<char>> {
    seq![
        "-i"@,
        t.input_path@,
        "-ss"@,
        seconds_text(t.start_ms as nat),
        "-t"@,
        seconds_text((t.end_ms - t.start_ms) as nat),
        "-c:v"@,
        "libx264"@,
        "-c:a"@,
        "aac"@,
        "-preset"@,
        "medium"@,
        "-y"@,
        t.output_path@,
    ]
}

/// The invocation that exports the clip `intent` describes; an error where its window
/// does not end after it starts.
pub fn trim_invocation(intent: &TrimIntent) -> (r: Result<Invocation, MediaError>)
    ensures
        valid_window(intent.start_ms, intent.end_ms) ==> (r matches Ok(inv) && inv@ == (
            encoder(),
            trim_args(*intent),
        )),
        !valid_window(intent.start_ms, intent.end_ms) ==> r matches Err(
            MediaError::InvalidArgument(_),
        ),
{
    if intent.end_ms <= intent.start_ms {
        return Err(MediaError::InvalidArgument(String::from_str("End time must be after start time")));
    }
    let mut args: Vec<String> = Vec::new();
    push_arg(&mut args, "-i");
    push_owned(&mut args, intent.input_path.clone());
    push_arg(&mut args, "-ss");
    push_owned(&mut args, seconds_from_millis(intent.start_ms));
    push_arg(&mut args, "-t");
    push_owned(&mut args, seconds_from_millis(intent.end_ms - intent.start_ms));
    push_arg(&mut args, "-c:v");
    push_arg(&mut args, "libx264");
    push_arg(&mut args, "-c:a");
    push_arg(&mut args, "aac");
    push_arg(&mut args, "-preset");
    push_arg(&mut args, "medium");
    push_arg(&mut args, "-y");
    push_owned(&mut args, intent.output_path.clone());
    assert(strings_view(args@) =~= trim_args(*intent));
    Ok(Invocation { program: String::from_str("ffmpeg"), args })
}

/// Filter that scales the overlay clip, restarts its clock, and lays it over the main
/// clip at `corner` while the main clip of `main_ms` milliseconds plays.
pub open spec fn export_filter(corner: Corner, main_ms: nat) -> Seq<char> {
    "[1:v]scale=320:240,setpts=PTS-STARTPTS[pip];[0:v][pip]overlay="@ + corner.x_expr() + ":"@
        + corner.y_expr() + ":enable='between(t,0,"@ + seconds_text(main_ms) + ")'[v]"@
}

/// The encoder arguments that composite the two clips of `e`.
pub open spec fn overlay_export_args(e: OverlayExportIntent) -> Seq<Seq<char>> {
    let main_ms = (e.main_end_ms - e.main_start_ms) as nat;
    seq![
        "-ss"@,
        seconds_text(e.main_start_ms as nat),
        "-i"@,
        e.main_path@,
        "-t"@,
        seconds_text(main_ms),
        "-ss"@,
        seconds_text(e.pip_start_ms as nat),
        "-i"@,
        e.pip_path@,
        "-t"@,
        seconds_text((e.pip_end_ms - e.pip_start_ms) as nat),
        "-filter_complex"@,
        export_filter(e.corner, main_ms),
        "-map"@,
        "[v]"@,
        "-map"@,
        "0:a"@,
        "-c:v"@,
        "libx264"@,
        "-preset"@,
        "medium"@,
        "-crf"@,
        "23"@,
        "-c:a"@,
        "aac"@,
        "-b:a"@,
        "128k"@,
        "-y"@,
        e.output_path@,
    ]
}

fn export_filter_text(corner: Corner, main_ms: u64) -> (r: String)
    ensures
        r@ == export_filter(corner, main_ms as nat),
{
    let mut s = String::from_str("[1:v]scale=320:240,setpts=PTS-STARTPTS[pip];[0:v][pip]overlay=");
    s.append(corner.x_filter_expr());
    s.append(":");
    s.append(corner.y_filter_expr());
    s.append(":enable='between(t,0,");
    s.append(seconds_from_millis(main_ms).as_str());
    s.append(")'[v]");
    s
}

/// The invocation that composites the clips `intent` describes; an error where either
/// window does not end after it starts.
pub fn overlay_export_invocation(intent: &OverlayExportIntent) -> (r: Result<Invocation, MediaError>)
    ensures
        valid_window(intent.main_start_ms, intent.main_end_ms) && valid_window(
            intent.pip_start_ms,
            intent.pip_end_ms,
        ) ==> (r matches Ok(inv) && inv@ == (encoder(), overlay_export_args(*intent))),
        !(valid_window(intent.main_start_ms, intent.main_end_ms) && valid_window(
            intent.pip_start_ms,
            intent.pip_end_ms,
        )) ==> r matches Err(MediaError::InvalidArgument(_)),
{
    if intent.main_end_ms <= intent.main_start_ms || intent.pip_end_ms <= intent.pip_start_ms {
        return Err(MediaError::InvalidArgument(String::from_str("End time must be after start time")));
    }
    let main_ms = intent.main_end_ms - intent.main_start_ms;
    let mut args: Vec<String> = Vec::new();
    push_arg(&mut args, "-ss");
    push_owned(&mut args, seconds_from_millis(intent.main_start_ms));
    push_arg(&mut args, "-i");
    push_owned(&mut args, intent.main_path.clone());
    push_arg(&mut args, "-t");
    push_owned(&mut args, seconds_from_millis(main_ms));
    push_arg(&mut args, "-ss");
    push_owned(&mut args, seconds_from_millis(intent.pip_start_ms));
    push_arg(&mut args, "-i");
    push_owned(&mut args, intent.pip_path.clone());
    push_arg(&mut args, "-t");
    push_owned(&mut args, seconds_from_millis(intent.pip_end_ms - intent.pip_start_ms));
    push_arg(&mut args, "-filter_complex");
    push_owned(&mut args, export_filter_text(intent.corner, main_ms));
    push_arg(&mut args, "-map");
    push_arg(&mut args, "[v]");
    push_arg(&mut args, "-map");
    push_arg(&mut args, "0:a");
    push_arg(&mut args, "-c:v");
    push_arg(&mut args, "libx264");
    push_arg(&mut args, "-preset");
    push_arg(&mut args, "medium");
    push_arg(&mut args, "-crf");
    push_arg(&mut args, "23");
    push_arg(&mut args, "-c:a");
    push_arg(&mut args, "aac");
    push_arg(&mut args, "-b:a");
    push_arg(&mut args, "128k");
    push_arg(&mut args, "-y");
    push_owned(&mut args, intent.output_path.clone());
    assert(strings_view(args@) =~= overlay_export_args(*intent));
    Ok(Invocation { program: String::from_str("ffmpeg"), args })
}

} // verus!
