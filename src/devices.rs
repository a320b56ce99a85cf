use vstd::prelude::*;

use crate::text::{
    chars_of, contains_folded, decimal, decimal_text, find_folded, parse_u32, parse_u32_at, trim,
    trim_bounds,
};

verus! {

broadcast use vstd::string::group_string_axioms;

/// What a capture device records.
#[derive(Clone, Copy, Debug, PartialEq, Eq, Structural)]
pub enum DeviceKind {
    Screen,
    Webcam,
    Audio,
}

impl DeviceKind {
    /// The name the user interface knows the kind by.
    pub fn label(&self) -> (r: &'static str)
        ensures
            r@ == self.label_spec(),
    {
        match self {
            DeviceKind::Screen => "screen",
            DeviceKind::Webcam => "webcam",
            DeviceKind::Audio => "audio",
        }
    }

    pub open spec fn label_spec(&self) -> Seq<char> {
        match self {
            DeviceKind::Screen => "screen"@,
            DeviceKind::Webcam => "webcam"@,
            DeviceKind::Audio => "audio"@,
        }
    }
}

/// One device of the encoder's catalog.
#[derive(Clone, Debug)]
pub struct DeviceRecord {
    pub index: u32,
    pub name: String,
    pub kind: DeviceKind,
}

impl View for DeviceRecord {
    type V = (u32, Seq<char>, DeviceKind);

    open spec fn view(&self) -> (u32, Seq<char>, DeviceKind) {
        (self.index, self.name@, self.kind)
    }
}

/// Which part of the catalog listing a line belongs to.
#[derive(Clone, Copy, Debug, PartialEq, Eq, Structural)]
pub enum Section {
    Preamble,
    Video,
    Audio,
}

pub open spec fn video_header() -> Seq<char> {
    "avfoundation video devices"@
}

pub open spec fn audio_header() -> Seq<char> {
    "avfoundation audio devices"@
}

/// The phrase by which the encoder names a screen capture device.
pub open spec fn screen_phrase() -> Seq<char> {
    "capture screen"@
}

/// Splits off lines at each `\n`: the completed lines and the unfinished last one.
pub open spec fn split_lines(t: Seq<char>) -> (Seq<Seq<char>>, Seq<char>)
    decreases t.len(),
{
    if t.len() == 0 {
        (seq![], seq![])
    } else {
        let (done, cur) = split_lines(t.drop_last());
        if t.last() == '\n' {
            (done.push(cur), seq![])
        } else {
            (done, cur.push(t.last()))
        }
    }
}

/// The lines of `t`, as `str::lines` gives them: split at `\n`, with no empty last
/// line after a final `\n`, and a `\r` before the `\n` removed.
pub open spec fn text_lines(t: Seq<char>) -> Seq<Seq<char>> {
    let (done, cur) = split_lines(t);
    let all = if cur.len() == 0 { done } else { done.push(cur) };
    all.map_values(|l: Seq<char>| strip_cr(l))
}

pub open spec fn strip_cr(l: Seq<char>) -> Seq<char> {
    if l.len() > 0 && l.last() == '\r' { l.drop_last() } else { l }
}

/// Position of the first `]` at or after `q`, or the length of the line.
pub open spec fn next_close(line: Seq<char>, q: int) -> int
    decreases line.len() - q,
{
    if q < 0 || q >= line.len() {
        line.len() as int
    } else if line[q] == ']' {
        q
    } else {
        next_close(line, q + 1)
    }
}

/// A device entry that opens with the `[` at `p`: the integer between it and the next
/// `]`, and where the text after that `]` starts.
pub open spec fn entry_at(line: Seq<char>, p: int) -> Option<(u32, int)> {
    if 0 <= p < line.len() && line[p] == '[' {
        let q = next_close(line, p + 1);
        if q < line.len() {
            match parse_u32(line.subrange(p + 1, q)) {
                Some(v) => Some((v, q + 1)),
                None => None,
            }
        } else {
            None
        }
    } else {
        None
    }
}

/// The first device entry that opens at or after `p`.
pub open spec fn first_entry(line: Seq<char>, p: int) -> Option<(u32, int)>
    decreases line.len() - p,
{
    if p < 0 || p >= line.len() {
        None
    } else if entry_at(line, p) is Some {
        entry_at(line, p)
    } else {
        first_entry(line, p + 1)
    }
}

/// The device that a line inside a section describes, if any.
pub open spec fn line_device(section: Section, line: Seq<char>) -> Option<
    (u32, Seq<char>, DeviceKind),
> {
    match first_entry(line, 0) {
        None => None,
        Some((index, ns)) => {
            let rest = line.subrange(ns, line.len() as int);
            let name = if ns < line.len() {
                trim(rest)
            } else {
                "Device "@ + decimal(index as nat)
            };
            let kind = if contains_folded(rest, screen_phrase()) {
                DeviceKind::Screen
            } else if section == Section::Audio {
                DeviceKind::Audio
            } else {
                DeviceKind::Webcam
            };
            Some((index, name, kind))
        },
    }
}

/// The scan's state after one more line.
pub open spec fn catalog_step(
    state: (Section, Seq<(u32, Seq<char>, DeviceKind)>),
    line: Seq<char>,
) -> (Section, Seq<(u32, Seq<char>, DeviceKind)>) {
    if contains_folded(line, video_header()) {
        (Section::Video, state.1)
    } else if contains_folded(line, audio_header()) {
        (Section::Audio, state.1)
    } else if state.0 == Section::Preamble {
        state
    } else {
        match line_device(state.0, line) {
            Some(d) => (state.0, state.1.push(d)),
            None => state,
        }
    }
}

/// The scan's state after the given lines, from the preamble with no devices.
pub open spec fn catalog_scan(lines: Seq<Seq<char>>) -> (
    Section,
    Seq<(u32, Seq<char>, DeviceKind)>,
)
    decreases lines.len(),
{
    if lines.len() == 0 {
        (Section::Preamble, seq![])
    } else {
        catalog_step(catalog_scan(lines.drop_last()), lines.last())
    }
}

/// The devices that a catalog listing names, in the order of their lines.
pub open spec fn catalog(text: Seq<char>) -> Seq<(u32, Seq<char>, DeviceKind)> {
    catalog_scan(text_lines(text)).1
}

pub open spec fn records_view(v: Seq<DeviceRecord>) -> Seq<(u32, Seq<char>, DeviceKind)> {
    v.map_values(|d: DeviceRecord| d@)
}

proof fn lemma_scan_push(lines: Seq<Seq<char>>, line: Seq<char>)
    ensures
        catalog_scan(lines.push(line)) == catalog_step(catalog_scan(lines), line),
{
    assert(lines.push(line).drop_last() =~= lines);
}

/// Global position of the first `]` in `chars[q..end]`, or `end`.
fn close_from(chars: &Vec<char>, start: usize, end: usize, q: usize) -> (r: usize)
    requires
        start <= q <= end <= chars.len(),
    ensures
        start <= q <= r <= end,
        r - start == next_close(chars@.subrange(start as int, end as int), q - start),
{
    let ghost line = chars@.subrange(start as int, end as int);
    let mut k = q;
    while k < end && chars[k] != ']'
        invariant
            start <= q <= k <= end <= chars.len(),
            line == chars@.subrange(start as int, end as int),
            next_close(line, k - start) == next_close(line, q - start),
        decreases end - k,
    {
        assert(line[k - start] == chars@[k as int]);
        k = k + 1;
    }
    if k < end {
        assert(line[k - start] == chars@[k as int]);
    }
    k
}

/// The first device entry of the line `chars[start..end]` that opens at or after `p0`,
/// with the global position where its trailing text starts.
fn entry_from(chars: &Vec<char>, start: usize, end: usize, p0: usize) -> (r: Option<(u32, usize)>)
    requires
        start <= p0 <= end <= chars.len(),
    ensures
        match r {
            None => first_entry(chars@.subrange(start as int, end as int), p0 - start) is None,
            Some((v, ns)) => start <= ns <= end && first_entry(
                chars@.subrange(start as int, end as int),
                p0 - start,
            ) == Some((v, ns - start)),
        },
{
    let ghost line = chars@.subrange(start as int, end as int);
    let mut p = p0;
    while p < end
        invariant
            start <= p0 <= p <= end <= chars.len(),
            line == chars@.subrange(start as int, end as int),
            first_entry(line, p - start) == first_entry(line, p0 - start),
        decreases end - p,
    {
        assert(line[p - start] == chars@[p as int]);
        if chars[p] == '[' {
            let q = close_from(chars, start, end, p + 1);
            if q < end {
                assert(chars@.subrange(p + 1, q as int) =~= line.subrange(
                    p + 1 - start,
                    q - start,
                ));
                match parse_u32_at(chars, p + 1, q) {
                    Some(v) => {
                        return Some((v, q + 1));
                    },
                    None => {},
                }
            }
        }
        p = p + 1;
    }
    None
}

/// Folds the line `chars[start..end]` (without a final `\r`) into the scan's state.
fn scan_line(
    text: &str,
    chars: &Vec<char>,
    start: usize,
    end: usize,
    headers: &(Vec<char>, Vec<char>, Vec<char>),
    section: &mut Section,
    devices: &mut Vec<DeviceRecord>,
)
    requires
        text@ == chars@,
        start <= end <= chars.len(),
        headers.0@ == video_header(),
        headers.1@ == audio_header(),
        headers.2@ == screen_phrase(),
    ensures
        (*final(section), records_view(final(devices)@)) == catalog_step(
            (*old(section), records_view(old(devices)@)),
            strip_cr(chars@.subrange(start as int, end as int)),
        ),
{
    let ghost raw = chars@.subrange(start as int, end as int);
    let mut end = end;
    if end > start && chars[end - 1] == '\r' {
        end = end - 1;
    }
    let ghost line = chars@.subrange(start as int, end as int);
    assert(line =~= strip_cr(raw));
    if find_folded(chars, start, end, &headers.0) {
        *section = Section::Video;
        return ;
    }
    if find_folded(chars, start, end, &headers.1) {
        *section = Section::Audio;
        return ;
    }
    if *section == Section::Preamble {
        return ;
    }
    match entry_from(chars, start, end, start) {
        None => {},
        Some((index, ns)) => {
            assert(chars@.subrange(ns as int, end as int) =~= line.subrange(
                ns - start,
                line.len() as int,
            ));
            let name = if ns < end {
                let (a, b) = trim_bounds(chars, ns, end);
                text.substring_char(a, b).to_owned()
            } else {
                proof {
                    reveal_strlit("Device ");
                }
                let mut s = String::from_str("Device ");
                s.append(decimal_text(index as u64).as_str());
                s
            };
            let kind = if find_folded(chars, ns, end, &headers.2) {
                DeviceKind::Screen
            } else if *section == Section::Audio {
                DeviceKind::Audio
            } else {
                DeviceKind::Webcam
            };
            let ghost before = devices@;
            devices.push(DeviceRecord { index, name, kind });
            assert(records_view(devices@) =~= records_view(before).push(
                (index, name@, kind),
            ));
        },
    }
}

/// Reads the encoder's device listing: every device line of the video and audio
/// sections, in order. Never fails; a listing without devices gives an empty list.
pub fn parse_devices(text: &str) -> (r: Vec<DeviceRecord>)
    ensures
        records_view(r@) == catalog(text@),
{
    proof {
        reveal_strlit("avfoundation video devices");
        reveal_strlit("avfoundation audio devices");
        reveal_strlit("capture screen");
    }
    let headers = (
        chars_of("avfoundation video devices"),
        chars_of("avfoundation audio devices"),
        chars_of("capture screen"),
    );
    let chars = chars_of(text);
    let n = chars.len();
    let mut section = Section::Preamble;
    let mut devices: Vec<DeviceRecord> = Vec::new();
    let mut start: usize = 0;
    let mut i: usize = 0;
    let ghost mut done: Seq<Seq<char>> = seq![];
    assert(chars@.take(0) =~= seq![]);
    while i < n
        invariant
            n == chars.len(),
            text@ == chars@,
            start <= i <= n,
            headers.0@ == video_header(),
            headers.1@ == audio_header(),
            headers.2@ == screen_phrase(),
            split_lines(chars@.take(i as int)) == (done, chars@.subrange(start as int, i as int)),
            (section, records_view(devices@)) == catalog_scan(
                done.map_values(|l: Seq<char>| strip_cr(l)),
            ),
        decreases n - i,
    {
        assert(chars@.take(i + 1).drop_last() =~= chars@.take(i as int));
        if chars[i] == '\n' {
            let ghost cur = chars@.subrange(start as int, i as int);
            scan_line(text, &chars, start, i, &headers, &mut section, &mut devices);
            proof {
                lemma_scan_push(done.map_values(|l: Seq<char>| strip_cr(l)), strip_cr(cur));
                assert(done.push(cur).map_values(|l: Seq<char>| strip_cr(l)) =~= done.map_values(
                    |l: Seq<char>| strip_cr(l),
                ).push(strip_cr(cur)));
                done = done.push(cur);
            }
            start = i + 1;
            assert(chars@.subrange(start as int, start as int) =~= seq![]);
        } else {
            assert(chars@.subrange(start as int, i + 1) =~= chars@.subrange(
                start as int,
                i as int,
            ).push(chars@[i as int]));
        }
        i = i + 1;
    }
    assert(chars@.take(n as int) =~= chars@);
    if start < n {
        let ghost cur = chars@.subrange(start as int, n as int);
        scan_line(text, &chars, start, n, &headers, &mut section, &mut devices);
        proof {
            lemma_scan_push(done.map_values(|l: Seq<char>| strip_cr(l)), strip_cr(cur));
            assert(done.push(cur).map_values(|l: Seq<char>| strip_cr(l)) =~= done.map_values(
                |l: Seq<char>| strip_cr(l),
            ).push(strip_cr(cur)));
        }
    }
    devices
}

/// Scanning more lines never drops, changes or reorders the devices already found:
/// devices come out in the order of the lines that name them.
pub proof fn lemma_scan_keeps_order(lines: Seq<Seq<char>>, more: Seq<Seq<char>>)
    ensures
        catalog_scan(lines).1.len() <= catalog_scan(lines + more).1.len(),
        catalog_scan(lines).1 == catalog_scan(lines + more).1.take(
            catalog_scan(lines).1.len() as int,
        ),
    decreases more.len(),
{
    if more.len() == 0 {
        assert(lines + more =~= lines);
        assert(catalog_scan(lines).1.take(catalog_scan(lines).1.len() as int) =~= catalog_scan(
            lines,
        ).1);
    } else {
        assert((lines + more).drop_last() =~= lines + more.drop_last());
        lemma_scan_keeps_order(lines, more.drop_last());
        let before = catalog_scan(lines + more.drop_last()).1;
        let after = catalog_scan(lines + more).1;
        let n = catalog_scan(lines).1.len() as int;
        if after != before {
            assert(after.take(n) =~= before.take(n));
        }
    }
}

/// A `[` whose body up to the next `]` is no integer does not end the scan of its line:
/// the search goes on from the next character.
pub proof fn lemma_malformed_bracket_skipped(line: Seq<char>, p: int)
    requires
        0 <= p < line.len(),
        line[p] == '[',
        parse_u32(line.subrange(p + 1, next_close(line, p + 1))) is None,
    ensures
        first_entry(line, p) == first_entry(line, p + 1),
{
}

/// Lines with no bracketed integer add no device, wherever they stand.
pub proof fn lemma_line_without_entry_adds_nothing(
    state: (Section, Seq<(u32, Seq<char>, DeviceKind)>),
    line: Seq<char>,
)
    requires
        first_entry(line, 0) is None,
    ensures
        catalog_step(state, line).1 == state.1,
{
}

/// Two parses of the same listing give the same devices.
pub proof fn lemma_parse_repeatable(
    text1: &str,
    text2: &str,
    first: Seq<DeviceRecord>,
    second: Seq<DeviceRecord>,
)
    requires
        text1@ == text2@,
        records_view(first) == catalog(text1@),
        records_view(second) == catalog(text2@),
    ensures
        records_view(first) == records_view(second),
{
}

} // verus!
