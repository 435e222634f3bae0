//! Capture devices by name: which names mean a monitor of the system's
//! output, which devices are listed, and which one a request gets.
//!
//! The audio host lists its input devices in some order; a device is known
//! here by its position in that list and by its name, or by `None` where the
//! host could not tell the name.

use crate::models::{DeviceInfo, DeviceInfoView};
use crate::text::{
    contains, contains_text, decimal, lowercase, push_decimal, same_text, split, split_text,
    starts_with, Separator,
};
use vstd::prelude::*;
use vstd::string::{StrSliceExecFns, StringExecFns};
use vstd::utf8::encode_utf8;

verus! {

/// Whether a name in lowercase is that of a monitor or loopback device, by
/// the patterns of PipeWire and PulseAudio, of WASAPI, and of the virtual
/// devices of macOS.
pub open spec fn monitor_name(lower: Seq<char>) -> bool {
    ||| contains_text(lower, ".monitor"@)
    ||| contains_text(lower, "monitor of"@)
    ||| contains_text(lower, "loopback"@)
    ||| ("alsa_output"@.is_prefix_of(lower) && contains_text(lower, "monitor"@))
    ||| (contains_text(lower, "sink"@) && contains_text(lower, "monitor"@))
    ||| contains_text(lower, "stereo mix"@)
    ||| contains_text(lower, "what u hear"@)
    ||| contains_text(lower, "blackhole"@)
}

/// Whether a name in lowercase is that of a monitor or loopback device.
pub fn is_monitor_name(lower: &str) -> (monitor: bool)
    ensures
        monitor == monitor_name(lower@),
{
    if contains(lower, ".monitor") || contains(lower, "monitor of") || contains(lower, "loopback") {
        return true;
    }
    if starts_with(lower, "alsa_output") && contains(lower, "monitor") {
        return true;
    }
    if contains(lower, "sink") && contains(lower, "monitor") {
        return true;
    }
    if contains(lower, "stereo mix") || contains(lower, "what u hear") {
        return true;
    }
    if contains(lower, "blackhole") || contains(lower, "loopback") {
        return true;
    }
    false
}

/// Whether a device name is that of a monitor or loopback device, in any
/// mix of upper and lower case.
pub fn is_monitor_device(name: &str) -> (monitor: bool)
    ensures
        monitor == monitor_name(lowercase(name@)),
{
    let lower = name.to_lowercase();
    is_monitor_name(lower.as_str())
}

/// Whether a name is that of a low-level ALSA device, which is left out of
/// the list.
pub open spec fn is_low_level(name: Seq<char>) -> bool {
    ||| "hw:"@.is_prefix_of(name)
    ||| "plughw:"@.is_prefix_of(name)
    ||| "sysdefault:"@.is_prefix_of(name)
    ||| "front:"@.is_prefix_of(name)
}

/// The name under which the device at `index` is listed: its own, or
/// `Device` and its position where the host could not tell it.
pub open spec fn listed_name(name: Option<Seq<char>>, index: nat) -> Seq<char> {
    match name {
        Some(name) => name,
        None => "Device "@ + decimal(index),
    }
}

/// The list made of the devices that the host names, in its order: every
/// device but the low-level ones, each with its position at the host.
pub open spec fn listed(names: Seq<Option<Seq<char>>>) -> Seq<DeviceInfoView>
    decreases names.len(),
{
    if names.len() == 0 {
        Seq::empty()
    } else {
        let before = listed(names.drop_last());
        let index = (names.len() - 1) as nat;
        let name = listed_name(names.last(), index);
        if is_low_level(name) {
            before
        } else {
            before.push(
                DeviceInfoView {
                    name,
                    index: index as usize,
                    is_monitor: monitor_name(lowercase(name)),
                    is_default: false,
                },
            )
        }
    }
}

/// Lists the input devices that the host names, in its order, without the
/// low-level ALSA devices. `names` holds for each device of the host its
/// name, or `None` where the host could not tell it.
pub fn list_all_devices(names: &Vec<Option<String>>) -> (devices: Vec<DeviceInfo>)
    ensures
        devices.deep_view() == listed(names.deep_view()),
{
    let mut devices: Vec<DeviceInfo> = Vec::new();
    let mut index: usize = 0;
    while index < names.len()
        invariant
            index <= names.len(),
            devices.deep_view() == listed(names.deep_view().take(index as int)),
        decreases names.len() - index,
    {
        let name = match &names[index] {
            Some(name) => name.clone(),
            None => {
                let mut name = String::from_str("Device ");
                push_decimal(&mut name, index as u64);
                name
            },
        };
        assert(names.deep_view().take(index + 1).drop_last() =~= names.deep_view().take(
            index as int,
        ));
        let skipped = starts_with(name.as_str(), "hw:") || starts_with(name.as_str(), "plughw:")
            || starts_with(name.as_str(), "sysdefault:") || starts_with(name.as_str(), "front:");
        if !skipped {
            let is_monitor = is_monitor_device(name.as_str());
            let device = DeviceInfo { name, index, is_monitor, is_default: false };
            devices.push(device);
        }
        index = index + 1;
    }
    assert(names.deep_view().take(index as int) =~= names.deep_view());
    devices
}

/// The monitors among `devices`, in their order.
pub open spec fn monitors_of(devices: Seq<DeviceInfoView>) -> Seq<DeviceInfoView>
    decreases devices.len(),
{
    if devices.len() == 0 {
        Seq::empty()
    } else if devices.last().is_monitor {
        monitors_of(devices.drop_last()).push(devices.last())
    } else {
        monitors_of(devices.drop_last())
    }
}

/// Keeps the devices that can capture what the system plays: the monitors
/// and loopback devices, in their order.
pub fn get_monitor_devices(devices: Vec<DeviceInfo>) -> (monitors: Vec<DeviceInfo>)
    ensures
        monitors.deep_view() == monitors_of(devices.deep_view()),
{
    let mut monitors: Vec<DeviceInfo> = Vec::new();
    let mut i: usize = 0;
    while i < devices.len()
        invariant
            i <= devices.len(),
            monitors.deep_view() == monitors_of(devices.deep_view().take(i as int)),
        decreases devices.len() - i,
    {
        assert(devices.deep_view().take(i + 1).drop_last() =~= devices.deep_view().take(i as int));
        if devices[i].is_monitor {
            let device = DeviceInfo {
                name: devices[i].name.clone(),
                index: devices[i].index,
                is_monitor: devices[i].is_monitor,
                is_default: devices[i].is_default,
            };
            monitors.push(device);
        }
        i = i + 1;
    }
    assert(devices.deep_view().take(i as int) =~= devices.deep_view());
    monitors
}

/// Whether a name is that of an ALSA hardware device, which no search by
/// name ever picks.
pub open spec fn is_hardware(name: Seq<char>) -> bool {
    "hw:"@.is_prefix_of(name) || "plughw:"@.is_prefix_of(name)
}

/// The name of a device for the searches that take a device without a name
/// for one with the empty name.
pub open spec fn name_or_empty(name: Option<Seq<char>>) -> Seq<char> {
    match name {
        Some(name) => name,
        None => Seq::empty(),
    }
}

/// A rule that a device name meets or not.
pub enum Rule {
    /// The name holds `.monitor`.
    MonitorSuffix,
    /// The name holds `pipewire`.
    Pipewire,
    /// The name holds `pulse`.
    Pulse,
    /// The name is `default`.
    Default,
    /// The name, in lowercase, is that of a monitor or loopback device.
    Monitor,
    /// The name holds this text as it stands.
    Holds(Seq<char>),
    /// The device is no hardware device and its name, in lowercase, holds
    /// this text, which is not empty.
    HoldsLowercase(Seq<char>),
    /// The device is no hardware device and its name, in lowercase, holds
    /// one of these texts.
    HoldsOneOf(Seq<Seq<char>>),
}

impl Rule {
    /// Whether a device with this name meets the rule. The first four
    /// rules and `Holds` pass over a device without a name; the others
    /// take it for one with the empty name.
    pub open spec fn fits(self, name: Option<Seq<char>>) -> bool {
        match self {
            Rule::MonitorSuffix => name.is_some() && contains_text(name.unwrap(), ".monitor"@),
            Rule::Pipewire => name.is_some() && contains_text(name.unwrap(), "pipewire"@),
            Rule::Pulse => name.is_some() && contains_text(name.unwrap(), "pulse"@),
            Rule::Default => name.is_some() && name.unwrap() == "default"@,
            Rule::Monitor => monitor_name(lowercase(name_or_empty(name))),
            Rule::Holds(text) => name.is_some() && contains_text(name.unwrap(), text),
            Rule::HoldsLowercase(text) => {
                &&& !is_hardware(name_or_empty(name))
                &&& text.len() > 0
                &&& contains_text(lowercase(name_or_empty(name)), text)
            },
            Rule::HoldsOneOf(texts) => {
                &&& !is_hardware(name_or_empty(name))
                &&& exists|k: int|
                    0 <= k < texts.len() && contains_text(
                        lowercase(name_or_empty(name)),
                        #[trigger] texts[k],
                    )
            },
        }
    }
}

/// The position of the first device that meets `rule`.
pub open spec fn first_fit(names: Seq<Option<Seq<char>>>, rule: Rule) -> Option<int>
    decreases names.len(),
{
    if names.len() == 0 {
        None
    } else {
        match first_fit(names.drop_last(), rule) {
            Some(at) => Some(at),
            None => if rule.fits(names.last()) {
                Some(names.len() - 1)
            } else {
                None
            },
        }
    }
}

/// `first_fit` is the least position whose device meets the rule.
pub proof fn lemma_first_fit(names: Seq<Option<Seq<char>>>, rule: Rule)
    ensures
        match first_fit(names, rule) {
            Some(at) => {
                &&& 0 <= at < names.len()
                &&& rule.fits(names[at])
                &&& forall|j: int| 0 <= j < at ==> !rule.fits(#[trigger] names[j])
            },
            None => forall|j: int| 0 <= j < names.len() ==> !rule.fits(#[trigger] names[j]),
        },
    decreases names.len(),
{
    if names.len() > 0 {
        lemma_first_fit(names.drop_last(), rule);
        assert forall|j: int| 0 <= j < names.len() - 1 implies names[j] == names.drop_last()[j]
        by {}
    }
}

/// A rule with the texts it needs, ready to be tried on names.
pub enum Matcher {
    MonitorSuffix,
    Pipewire,
    Pulse,
    Default,
    Monitor,
    Holds(String),
    HoldsLowercase(String),
    HoldsOneOf(Vec<String>),
}

impl View for Matcher {
    type V = Rule;

    open spec fn view(&self) -> Rule {
        match self {
            Matcher::MonitorSuffix => Rule::MonitorSuffix,
            Matcher::Pipewire => Rule::Pipewire,
            Matcher::Pulse => Rule::Pulse,
            Matcher::Default => Rule::Default,
            Matcher::Monitor => Rule::Monitor,
            Matcher::Holds(text) => Rule::Holds(text@),
            Matcher::HoldsLowercase(text) => Rule::HoldsLowercase(text@),
            Matcher::HoldsOneOf(texts) => Rule::HoldsOneOf(texts.deep_view()),
        }
    }
}

fn is_hardware_name(name: &str) -> (hardware: bool)
    ensures
        hardware == is_hardware(name@),
{
    starts_with(name, "hw:") || starts_with(name, "plughw:")
}

fn holds_one_of(lower: &str, texts: &Vec<String>) -> (found: bool)
    ensures
        found == exists|k: int|
            0 <= k < texts.deep_view().len() && contains_text(
                lower@,
                #[trigger] texts.deep_view()[k],
            ),
{
    let mut k: usize = 0;
    while k < texts.len()
        invariant
            k <= texts.len(),
            forall|j: int| 0 <= j < k ==> !contains_text(lower@, #[trigger] texts.deep_view()[j]),
        decreases texts.len() - k,
    {
        if contains(lower, texts[k].as_str()) {
            assert(contains_text(lower@, texts.deep_view()[k as int]));
            return true;
        }
        k = k + 1;
    }
    false
}

impl Matcher {
    /// Whether a device with this name meets the rule.
    pub fn fits(&self, name: Option<&str>) -> (fit: bool)
        ensures
            fit == self@.fits(
                match name {
                    Some(name) => Some(name@),
                    None => None,
                },
            ),
    {
        match self {
            Matcher::MonitorSuffix => match name {
                Some(name) => contains(name, ".monitor"),
                None => false,
            },
            Matcher::Pipewire => match name {
                Some(name) => contains(name, "pipewire"),
                None => false,
            },
            Matcher::Pulse => match name {
                Some(name) => contains(name, "pulse"),
                None => false,
            },
            Matcher::Default => match name {
                Some(name) => same_text(name, "default"),
                None => false,
            },
            Matcher::Monitor => {
                let name = match name {
                    Some(name) => name,
                    None => "",
                };
                proof {
                    reveal_strlit("");
                    assert(""@ =~= Seq::<char>::empty());
                }
                is_monitor_device(name)
            },
            Matcher::Holds(text) => match name {
                Some(name) => contains(name, text.as_str()),
                None => false,
            },
            Matcher::HoldsLowercase(text) => {
                let name = match name {
                    Some(name) => name,
                    None => "",
                };
                proof {
                    reveal_strlit("");
                    assert(""@ =~= Seq::<char>::empty());
                }
                if is_hardware_name(name) {
                    return false;
                }
                let lower = name.to_lowercase();
                text.as_str().unicode_len() > 0 && contains(lower.as_str(), text.as_str())
            },
            Matcher::HoldsOneOf(texts) => {
                let name = match name {
                    Some(name) => name,
                    None => "",
                };
                proof {
                    reveal_strlit("");
                    assert(""@ =~= Seq::<char>::empty());
                }
                if is_hardware_name(name) {
                    return false;
                }
                let lower = name.to_lowercase();
                holds_one_of(lower.as_str(), texts)
            },
        }
    }
}

/// The position of the first device whose name meets the rule.
pub fn find_first(names: &Vec<Option<String>>, matcher: &Matcher) -> (found: Option<usize>)
    ensures
        match first_fit(names.deep_view(), matcher@) {
            Some(at) => found == Some(at as usize),
            None => found.is_none(),
        },
{
    let mut i: usize = 0;
    while i < names.len()
        invariant
            i <= names.len(),
            first_fit(names.deep_view().take(i as int), matcher@).is_none(),
        decreases names.len() - i,
    {
        let name: Option<&str> = match &names[i] {
            Some(name) => Some(name.as_str()),
            None => None,
        };
        assert(names.deep_view().take(i + 1).drop_last() =~= names.deep_view().take(i as int));
        if matcher.fits(name) {
            proof {
                lemma_first_fit(names.deep_view(), matcher@);
                lemma_first_fit(names.deep_view().take(i + 1), matcher@);
                let whole = first_fit(names.deep_view(), matcher@);
                if whole.is_some() && whole.unwrap() < i {
                    assert(names.deep_view().take(i + 1)[whole.unwrap()] == names.deep_view()[
                        whole.unwrap()
                    ]);
                }
            }
            return Some(i);
        }
        i = i + 1;
    }
    assert(names.deep_view().take(i as int) =~= names.deep_view());
    None
}

/// The device that a search settles on.
#[derive(Debug, Clone, Copy, PartialEq, Eq, Structural)]
pub enum DeviceChoice {
    /// The device at this position of the host's list.
    Listed(usize),
    /// Whatever the host holds to be its default input device.
    SystemDefault,
    /// No device.
    NotFound,
}

/// The choice that the first fit of a rule makes, if it has one.
pub open spec fn choice_by(names: Seq<Option<Seq<char>>>, rule: Rule) -> Option<DeviceChoice> {
    match first_fit(names, rule) {
        Some(at) => Some(DeviceChoice::Listed(at as usize)),
        None => None,
    }
}

/// The best device to capture what the system plays. In this order: the
/// first whose name holds `.monitor`; the first that holds `pipewire`; the
/// first that holds `pulse`; the first that is named `default`; the first
/// whose name is that of a monitor; and, where none of these is there, the
/// default input device of the host.
pub open spec fn default_monitor(names: Seq<Option<Seq<char>>>) -> DeviceChoice {
    if let Some(choice) = choice_by(names, Rule::MonitorSuffix) {
        choice
    } else if let Some(choice) = choice_by(names, Rule::Pipewire) {
        choice
    } else if let Some(choice) = choice_by(names, Rule::Pulse) {
        choice
    } else if let Some(choice) = choice_by(names, Rule::Default) {
        choice
    } else if let Some(choice) = choice_by(names, Rule::Monitor) {
        choice
    } else {
        DeviceChoice::SystemDefault
    }
}

/// Picks the best device to capture what the system plays.
pub fn get_default_monitor(names: &Vec<Option<String>>) -> (choice: DeviceChoice)
    ensures
        choice == default_monitor(names.deep_view()),
{
    if let Some(at) = find_first(names, &Matcher::MonitorSuffix) {
        return DeviceChoice::Listed(at);
    }
    if let Some(at) = find_first(names, &Matcher::Pipewire) {
        return DeviceChoice::Listed(at);
    }
    if let Some(at) = find_first(names, &Matcher::Pulse) {
        return DeviceChoice::Listed(at);
    }
    if let Some(at) = find_first(names, &Matcher::Default) {
        return DeviceChoice::Listed(at);
    }
    if let Some(at) = find_first(names, &Matcher::Monitor) {
        return DeviceChoice::Listed(at);
    }
    DeviceChoice::SystemDefault
}

/// The search words that the parts of a name give: each part of more than
/// two bytes, in lowercase, in the order of the parts.
pub open spec fn words_from(parts: Seq<Seq<char>>) -> Seq<Seq<char>>
    decreases parts.len(),
{
    if parts.len() == 0 {
        Seq::empty()
    } else if encode_utf8(parts.last()).len() > 2 {
        words_from(parts.drop_last()).push(lowercase(parts.last()))
    } else {
        words_from(parts.drop_last())
    }
}

/// The search words of a name: its runs of letters and numbers that are
/// longer than two bytes, in lowercase.
pub open spec fn search_words(name: Seq<char>) -> Seq<Seq<char>> {
    words_from(split(name, Separator::NonAlphanumeric))
}

/// Cuts a name into its search words.
pub fn search_words_of(name: &str) -> (words: Vec<String>)
    ensures
        words.deep_view() == search_words(name@),
{
    let parts = split_text(name, Separator::NonAlphanumeric);
    let mut words: Vec<String> = Vec::new();
    let mut i: usize = 0;
    while i < parts.len()
        invariant
            i <= parts.len(),
            words.deep_view() == words_from(parts.deep_view().take(i as int)),
        decreases parts.len() - i,
    {
        assert(parts.deep_view().take(i + 1).drop_last() =~= parts.deep_view().take(i as int));
        if parts[i].as_str().as_bytes().len() > 2 {
            let word = parts[i].as_str().to_lowercase();
            words.push(word);
        }
        i = i + 1;
    }
    assert(parts.deep_view().take(i as int) =~= parts.deep_view());
    words
}

/// The device that a name asks for. A name that holds `.monitor` gets the
/// first device whose name holds it as it stands, and the best monitor
/// where there is none. Any other name gets the first device, hardware
/// devices apart, whose lowercase name holds the lowercase name asked for;
/// failing that, the first that holds one of its search words; failing
/// that, none.
pub open spec fn device_by_name(name: Seq<char>, names: Seq<Option<Seq<char>>>) -> DeviceChoice {
    if contains_text(name, ".monitor"@) {
        match choice_by(names, Rule::Holds(name)) {
            Some(choice) => choice,
            None => default_monitor(names),
        }
    } else {
        match choice_by(names, Rule::HoldsLowercase(lowercase(name))) {
            Some(choice) => choice,
            None => match choice_by(names, Rule::HoldsOneOf(search_words(name))) {
                Some(choice) => choice,
                None => DeviceChoice::NotFound,
            },
        }
    }
}

/// Finds the device that a name asks for among the devices of the host.
pub fn find_device_by_name(name: &str, names: &Vec<Option<String>>) -> (choice: DeviceChoice)
    ensures
        choice == device_by_name(name@, names.deep_view()),
{
    if contains(name, ".monitor") {
        return match find_first(names, &Matcher::Holds(String::from_str(name))) {
            Some(at) => DeviceChoice::Listed(at),
            None => get_default_monitor(names),
        };
    }
    let needle = name.to_lowercase();
    if let Some(at) = find_first(names, &Matcher::HoldsLowercase(needle)) {
        return DeviceChoice::Listed(at);
    }
    let words = search_words_of(name);
    match find_first(names, &Matcher::HoldsOneOf(words)) {
        Some(at) => DeviceChoice::Listed(at),
        None => DeviceChoice::NotFound,
    }
}

/// The device that a stream request captures from: the one that its device
/// name asks for, and the best monitor where the request names none, names
/// the empty name, or names one that no device answers to.
pub open spec fn capture_device(
    preferred: Option<Seq<char>>,
    names: Seq<Option<Seq<char>>>,
) -> DeviceChoice {
    match preferred {
        Some(name) => if name.len() > 0 && device_by_name(name, names) != DeviceChoice::NotFound {
            device_by_name(name, names)
        } else {
            default_monitor(names)
        },
        None => default_monitor(names),
    }
}

/// Picks the device that a stream request captures from.
pub fn select_capture_device(preferred: Option<&str>, names: &Vec<Option<String>>) -> (choice:
    DeviceChoice)
    ensures
        choice == capture_device(
            match preferred {
                Some(name) => Some(name@),
                None => None,
            },
            names.deep_view(),
        ),
{
    if let Some(name) = preferred {
        if name.unicode_len() > 0 {
            let choice = find_device_by_name(name, names);
            match choice {
                DeviceChoice::NotFound => {},
                _ => {
                    return choice;
                },
            }
        }
    }
    get_default_monitor(names)
}

} // verus!
