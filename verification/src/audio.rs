//! The choice of microphone and playback device: which nodes of the sound
//! server are devices, which of them the system has as defaults, and what
//! a choice in the menu selects.

use crate::flow::{push_line, texts};
use crate::model::{text_view, AudioDevice, PwNode};
use crate::split::{lines, lines_of, views};
use crate::text::{chars_of, contains, contains_seq, same_chars, string_of, trim, trimmed};
use vstd::prelude::*;
use vstd::string::StringExecFns;

verus! {

/// A device as contracts see it.
pub struct DeviceView {
    pub name: Seq<char>,
    pub description: Seq<char>,
}

impl View for AudioDevice {
    type V = DeviceView;

    open spec fn view(&self) -> DeviceView {
        DeviceView { name: self.name@, description: self.description@ }
    }
}

/// The devices of `v` as contracts see them, in order.
pub open spec fn device_views(v: Seq<AudioDevice>) -> Seq<DeviceView> {
    Seq::new(v.len(), |i: int| v[i]@)
}

/// What kind of device a node is.
#[derive(Clone, Copy, Debug, PartialEq, Eq, Structural)]
pub enum DeviceKind {
    Source,
    Sink,
}

/// The device that a node stands for, with its kind. A node is a device
/// where it has a media class, a name and a description; it is a source
/// where the class names `Audio/Source`, else a sink where the class names
/// `Audio/Sink`.
pub open spec fn device_of(node: PwNode) -> Option<(DeviceKind, DeviceView)> {
    match (node.info.media_class, node.info.name, node.info.description) {
        (Some(class), Some(name), Some(description)) => {
            let device = DeviceView { name: name@, description: description@ };
            if contains_seq(class@, "Audio/Source"@) {
                Some((DeviceKind::Source, device))
            } else if contains_seq(class@, "Audio/Sink"@) {
                Some((DeviceKind::Sink, device))
            } else {
                None
            }
        },
        _ => None,
    }
}

/// The devices of one kind among the first `n` nodes, in the order of the
/// nodes.
pub open spec fn devices_among(nodes: Seq<PwNode>, kind: DeviceKind, n: int) -> Seq<DeviceView>
    decreases n,
{
    if n <= 0 || n > nodes.len() {
        Seq::empty()
    } else {
        match device_of(nodes[n - 1]) {
            Some((k, device)) => if k == kind {
                devices_among(nodes, kind, n - 1).push(device)
            } else {
                devices_among(nodes, kind, n - 1)
            },
            None => devices_among(nodes, kind, n - 1),
        }
    }
}

/// Sorts the nodes of the sound server into sources and sinks.
pub fn list_devices(nodes: &Vec<PwNode>) -> (r: (Vec<AudioDevice>, Vec<AudioDevice>))
    ensures
        device_views(r.0@) == devices_among(nodes@, DeviceKind::Source, nodes@.len() as int),
        device_views(r.1@) == devices_among(nodes@, DeviceKind::Sink, nodes@.len() as int),
{
    let mut sources: Vec<AudioDevice> = Vec::new();
    let mut sinks: Vec<AudioDevice> = Vec::new();
    let source_mark = chars_of("Audio/Source");
    let sink_mark = chars_of("Audio/Sink");
    let mut i: usize = 0;
    assert(device_views(sources@) =~= devices_among(nodes@, DeviceKind::Source, 0));
    assert(device_views(sinks@) =~= devices_among(nodes@, DeviceKind::Sink, 0));
    while i < nodes.len()
        invariant
            i <= nodes.len(),
            source_mark@ == "Audio/Source"@,
            sink_mark@ == "Audio/Sink"@,
            device_views(sources@) == devices_among(nodes@, DeviceKind::Source, i as int),
            device_views(sinks@) == devices_among(nodes@, DeviceKind::Sink, i as int),
        decreases nodes.len() - i,
    {
        let info = &nodes[i].info;
        let ghost old_sources = device_views(sources@);
        let ghost old_sinks = device_views(sinks@);
        match (&info.media_class, &info.name, &info.description) {
            (Some(class), Some(name), Some(description)) => {
                let device = AudioDevice { name: name.clone(), description: description.clone() };
                let class = chars_of(class.as_str());
                if contains(&class, &source_mark) {
                    sources.push(device);
                    assert(device_views(sources@) =~= old_sources.push(device@));
                } else if contains(&class, &sink_mark) {
                    sinks.push(device);
                    assert(device_views(sinks@) =~= old_sinks.push(device@));
                }
            },
            _ => {},
        }
        i += 1;
    }
    (sources, sinks)
}

/// The pattern of a line that marks a default device in the status report
/// of the session manager: a bar, a star, the device's number, and its
/// description in front of the volume.
pub const DEFAULT_MARK: &'static str = "│\\s+\\*\\s+\\d+\\.\\s+(.*?)\\s+\\[vol:";

/// What the first group of a pattern captures at the pattern's first match
/// in a text, as `regex` finds it: nothing where the pattern is no regular
/// expression; no text where it does not match or the group takes no part.
pub uninterp spec fn first_group(pattern: Seq<char>, text: Seq<char>) -> Option<
    Option<Seq<char>>,
>;

/// The view of what a search gave.
pub open spec fn capture_view(r: Option<Option<String>>) -> Option<Option<Seq<char>>> {
    match r {
        Some(g) => Some(text_view(g)),
        None => None,
    }
}

/// Compiles `pattern` with `regex::Regex::new`, searches `text` with
/// `Regex::captures` and takes the first group with `Captures::get`.
/// Nothing is claimed about what matches, only that the answer depends on
/// pattern and text alone.
#[verifier::external_body]
fn capture_first(pattern: &str, text: &str) -> (r: Option<Option<String>>)
    ensures
        capture_view(r) == first_group(pattern@, text@),
{
    regex::Regex::new(pattern).ok().map(
        |re| re.captures(text).and_then(|c| c.get(1)).map(|m| m.as_str().to_string()),
    )
}

/// The description of the default device that a line of the status report
/// marks: what the pattern captures, without the white space around it.
pub open spec fn marked_description(line: Seq<char>) -> Option<Seq<char>> {
    match first_group(DEFAULT_MARK@, line) {
        Some(Some(text)) => Some(trimmed(text)),
        _ => None,
    }
}

/// The description that a search on a line gave.
pub fn read_mark(found: Option<Option<String>>) -> (r: Option<String>)
    ensures
        text_view(r) == match capture_view(found) {
            Some(Some(text)) => Some(trimmed(text)),
            _ => None,
        },
{
    match found {
        Some(Some(text)) => Some(string_of(&trim(&chars_of(text.as_str())))),
        _ => None,
    }
}

/// Where the reading of a status report stands: the section it is in, and
/// the default devices found so far.
pub struct Reading {
    pub in_sinks: bool,
    pub in_sources: bool,
    pub sink: Option<String>,
    pub source: Option<String>,
}

/// A `Reading` as contracts see it.
pub struct ReadingView {
    pub in_sinks: bool,
    pub in_sources: bool,
    pub sink: Option<Seq<char>>,
    pub source: Option<Seq<char>>,
}

impl View for Reading {
    type V = ReadingView;

    open spec fn view(&self) -> ReadingView {
        ReadingView {
            in_sinks: self.in_sinks,
            in_sources: self.in_sources,
            sink: text_view(self.sink),
            source: text_view(self.source),
        }
    }
}

/// The reading before the first line.
pub open spec fn reading_start() -> ReadingView {
    ReadingView { in_sinks: false, in_sources: false, sink: None, source: None }
}

/// The reading after one more line. A heading opens or closes a section;
/// any other line that marks a default device names the default of the
/// section it stands in; `mark` is what the line marks.
pub open spec fn read_line(r: ReadingView, line: Seq<char>, mark: Option<Seq<char>>)
    -> ReadingView {
    if contains_seq(line, "Sinks:"@) {
        ReadingView { in_sinks: true, in_sources: false, ..r }
    } else if contains_seq(line, "Sources:"@) {
        ReadingView { in_sinks: false, in_sources: true, ..r }
    } else if contains_seq(line, "Filters:"@) || contains_seq(line, "Streams:"@) {
        ReadingView { in_sinks: false, in_sources: false, ..r }
    } else {
        match mark {
            Some(description) => ReadingView {
                sink: if r.in_sinks {
                    Some(description)
                } else {
                    r.sink
                },
                source: if r.in_sources {
                    Some(description)
                } else {
                    r.source
                },
                ..r
            },
            None => r,
        }
    }
}

/// The reading after the first `n` of the given lines.
pub open spec fn read_lines(all: Seq<Seq<char>>, n: int) -> ReadingView
    decreases n,
{
    if n <= 0 || n > all.len() {
        reading_start()
    } else {
        read_line(read_lines(all, n - 1), all[n - 1], marked_description(all[n - 1]))
    }
}

/// Takes one more line into the reading.
pub fn take_line(r: Reading, line: &Vec<char>, mark: Option<String>) -> (next: Reading)
    ensures
        next@ == read_line(r@, line@, text_view(mark)),
{
    let mut r = r;
    if contains(line, &chars_of("Sinks:")) {
        r.in_sinks = true;
        r.in_sources = false;
    } else if contains(line, &chars_of("Sources:")) {
        r.in_sinks = false;
        r.in_sources = true;
    } else if contains(line, &chars_of("Filters:")) || contains(line, &chars_of("Streams:")) {
        r.in_sinks = false;
        r.in_sources = false;
    } else {
        match mark {
            Some(description) => {
                if r.in_sinks && r.in_sources {
                    r.sink = Some(description.clone());
                    r.source = Some(description);
                } else if r.in_sinks {
                    r.sink = Some(description);
                } else if r.in_sources {
                    r.source = Some(description);
                }
            },
            None => {},
        }
    }
    r
}

/// Reads the descriptions of the default sink and the default source out
/// of the status report of the session manager; of several marks in a
/// section the last counts.
pub fn default_descriptions(status: &str) -> (r: (Option<String>, Option<String>))
    ensures
        text_view(r.0) == read_lines(lines(status@), lines(status@).len() as int).sink,
        text_view(r.1) == read_lines(lines(status@), lines(status@).len() as int).source,
{
    let all = lines_of(&chars_of(status));
    let mut reading = Reading { in_sinks: false, in_sources: false, sink: None, source: None };
    let mut i: usize = 0;
    while i < all.len()
        invariant
            i <= all.len(),
            views(all@) == lines(status@),
            reading@ == read_lines(lines(status@), i as int),
        decreases all.len() - i,
    {
        assert(views(all@)[i as int] == all@[i as int]@);
        let line = string_of(&all[i]);
        let mark = read_mark(capture_first(DEFAULT_MARK, line.as_str()));
        reading = take_line(reading, &all[i], mark);
        i += 1;
    }
    (reading.sink, reading.source)
}

/// The entry of the device menu that stands for the system's default.
pub open spec fn system_default() -> Seq<char> {
    "Use System Default"@
}

/// The name of the first of the first `n` devices with this description.
pub open spec fn name_for(devices: Seq<DeviceView>, description: Seq<char>, n: int) -> Option<
    Seq<char>,
>
    decreases n,
{
    if n <= 0 || n > devices.len() {
        None
    } else {
        match name_for(devices, description, n - 1) {
            Some(name) => Some(name),
            None => if devices[n - 1].description == description {
                Some(devices[n - 1].name)
            } else {
                None
            },
        }
    }
}

/// The name that the system's default stands for: that of the device with
/// the default's description, else that of the first device, else none.
pub open spec fn default_name(devices: Seq<DeviceView>, default: Option<Seq<char>>) -> Seq<char> {
    let first = if devices.len() > 0 {
        devices[0].name
    } else {
        Seq::empty()
    };
    match default {
        Some(description) => match name_for(devices, description, devices.len() as int) {
            Some(name) => name,
            None => first,
        },
        None => first,
    }
}

/// The name of the device that a menu entry selects: for the system's
/// default its name, for a description the first device that has it.
pub open spec fn selection(
    devices: Seq<DeviceView>,
    default: Option<Seq<char>>,
    choice: Seq<char>,
) -> Option<Seq<char>> {
    if choice == system_default() {
        Some(default_name(devices, default))
    } else {
        name_for(devices, choice, devices.len() as int)
    }
}

/// The entries of the device menu: the system's default, then the
/// descriptions of the devices.
pub open spec fn menu_of(devices: Seq<DeviceView>) -> Seq<Seq<char>> {
    seq![system_default()] + Seq::new(devices.len(), |i: int| devices[i].description)
}

/// The entries of the device menu.
pub fn device_options(devices: &Vec<AudioDevice>) -> (v: Vec<String>)
    ensures
        texts(v@) == menu_of(device_views(devices@)),
{
    let mut v: Vec<String> = Vec::new();
    push_line(&mut v, String::from_str("Use System Default"));
    let mut i: usize = 0;
    while i < devices.len()
        invariant
            i <= devices.len(),
            texts(v@).len() == i + 1,
            texts(v@)[0] == system_default(),
            forall|j: int| 0 <= j < i ==> texts(v@)[j + 1] == devices@[j].description@,
        decreases devices.len() - i,
    {
        push_line(&mut v, devices[i].description.clone());
        i += 1;
    }
    assert(texts(v@) =~= menu_of(device_views(devices@)));
    v
}

/// Finds the name of the first device with this description.
pub fn find_device(devices: &Vec<AudioDevice>, description: &str) -> (r: Option<String>)
    ensures
        text_view(r) == name_for(device_views(devices@), description@, devices@.len() as int),
{
    let wanted = chars_of(description);
    let mut i: usize = 0;
    while i < devices.len()
        invariant
            i <= devices.len(),
            wanted@ == description@,
            name_for(device_views(devices@), description@, i as int) is None,
        decreases devices.len() - i,
    {
        assert(device_views(devices@)[i as int] == devices@[i as int]@);
        if same_chars(&chars_of(devices[i].description.as_str()), &wanted) {
            proof {
                lemma_name_for_stays(
                    device_views(devices@),
                    description@,
                    i + 1,
                    devices@.len() as int,
                );
            }
            return Some(devices[i].name.clone());
        }
        i += 1;
    }
    None
}

/// Once a device is found among the first `n`, it is the one found among
/// more.
pub proof fn lemma_name_for_stays(
    devices: Seq<DeviceView>,
    description: Seq<char>,
    n: int,
    m: int,
)
    requires
        0 <= n <= m <= devices.len(),
        name_for(devices, description, n) is Some,
    ensures
        name_for(devices, description, m) == name_for(devices, description, n),
    decreases m - n,
{
    if n < m {
        lemma_name_for_stays(devices, description, n, m - 1);
    }
}

/// Finds the name of the device that a menu entry selects; `default` is
/// the description of the system's default, where one was found.
pub fn select_device(devices: &Vec<AudioDevice>, default: Option<&str>, choice: &str) -> (r:
    Option<String>)
    ensures
        text_view(r) == selection(
            device_views(devices@),
            match default {
                Some(d) => Some(d@),
                None => None,
            },
            choice@,
        ),
{
    if !same_chars(&chars_of(choice), &chars_of("Use System Default")) {
        return find_device(devices, choice);
    }
    let found = match default {
        Some(description) => find_device(devices, description),
        None => None,
    };
    match found {
        Some(name) => Some(name),
        None => {
            if devices.len() > 0 {
                assert(device_views(devices@)[0] == devices@[0]@);
                Some(devices[0].name.clone())
            } else {
                Some(String::new())
            }
        },
    }
}

} // verus!
