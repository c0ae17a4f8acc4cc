//! The settings of the service: the download tasks, the update schedule and
//! the options that apply to every run.

use crate::text::{
    all_digits, chars_of, decimal, decimal_string, digits_value, is_digit,
    lemma_decimal_round_trip, lemma_digits_value_prefix, push_text, push_texts,
};
use vstd::prelude::*;

verus! {

/// The audio format that is asked for when a task names none.
pub const DEFAULT_AUDIO_FORMAT: &'static str = "mp3";

/// The mathematical model of a `DownloadEntity`.
pub struct DownloadEntityView {
    pub url: Seq<char>,
    pub output_path: Seq<char>,
    pub name: Seq<char>,
    pub audio_only: Option<bool>,
    pub audio_format: Option<Seq<char>>,
    pub max_resolution: Option<u32>,
    pub throttle_speed: Option<Seq<char>>,
    pub custom_flags: Option<Seq<Seq<char>>>,
}

/// One download task: a remote resource and where and how to store it.
#[derive(Debug, Clone)]
pub struct DownloadEntity {
    /// Url of a video or a channel, any resource that the downloader supports.
    pub url: String,
    /// Directory in which the downloaded files are stored.
    pub output_path: String,
    /// Human readable tag of this resource.
    pub name: String,
    /// Extract the audio track only.
    pub audio_only: Option<bool>,
    /// Audio file format, read when `audio_only` is `Some(true)`.
    pub audio_format: Option<String>,
    /// Upper limit of the video height, read when `audio_only` is not set.
    pub max_resolution: Option<u32>,
    /// Download speed limit, such as `3.5M` or `300K`.
    pub throttle_speed: Option<String>,
    /// Flags handed to the downloader as they are.
    pub custom_flags: Option<Vec<String>>,
}

/// The text of an optional string.
pub open spec fn text_of(text: Option<String>) -> Option<Seq<char>> {
    match text {
        Some(t) => Some(t@),
        None => None,
    }
}

impl View for DownloadEntity {
    type V = DownloadEntityView;

    open spec fn view(&self) -> DownloadEntityView {
        DownloadEntityView {
            url: self.url@,
            output_path: self.output_path@,
            name: self.name@,
            audio_only: self.audio_only,
            audio_format: text_of(self.audio_format),
            max_resolution: self.max_resolution,
            throttle_speed: text_of(self.throttle_speed),
            custom_flags: match self.custom_flags {
                Some(flags) => Some(flags.deep_view()),
                None => None,
            },
        }
    }
}

/// The flags that select the audio track in the format `format`, or in the
/// default format when there is none.
pub open spec fn audio_flags(format: Option<Seq<char>>) -> Seq<Seq<char>> {
    seq![
        "-f"@,
        "ba"@,
        "-x"@,
        "--audio-format"@,
        match format {
            Some(f) => f,
            None => DEFAULT_AUDIO_FORMAT@,
        },
    ]
}

/// The flags that limit the video height to `height`.
pub open spec fn resolution_flags(height: u32) -> Seq<Seq<char>> {
    seq!["-f"@, "bestvideo[height<="@ + decimal(height as nat) + "]+bestaudio"@]
}

/// The flags that select what is downloaded. The height limit is read only
/// when `audio_only` is not set at all.
pub open spec fn format_flags(task: DownloadEntityView) -> Seq<Seq<char>> {
    match task.audio_only {
        Some(true) => audio_flags(task.audio_format),
        Some(false) => Seq::empty(),
        None => match task.max_resolution {
            Some(height) => resolution_flags(height),
            None => Seq::empty(),
        },
    }
}

/// The flags that limit the download speed.
pub open spec fn throttle_flags(speed: Option<Seq<char>>) -> Seq<Seq<char>> {
    match speed {
        Some(limit) => seq!["-r"@, limit],
        None => Seq::empty(),
    }
}

/// The flags that a task adds to the downloader's command line: the format
/// selection, then the speed limit, then the task's own flags, unchanged and
/// in their order.
pub open spec fn extra_flags(task: DownloadEntityView) -> Seq<Seq<char>> {
    format_flags(task) + throttle_flags(task.throttle_speed) + match task.custom_flags {
        Some(flags) => flags,
        None => Seq::empty(),
    }
}

impl DownloadEntity {
    /// The flags that the entity adds to the command line of the downloader.
    pub fn get_extra_flags(&self) -> (flags: Vec<String>)
        ensures
            flags.deep_view() == extra_flags(self@),
    {
        let mut flags: Vec<String> = Vec::new();
        match self.audio_only {
            Some(true) => {
                push_text(&mut flags, "-f");
                push_text(&mut flags, "ba");
                push_text(&mut flags, "-x");
                push_text(&mut flags, "--audio-format");
                match &self.audio_format {
                    Some(format) => {
                        push_text(&mut flags, format.as_str());
                    },
                    None => {
                        push_text(&mut flags, DEFAULT_AUDIO_FORMAT);
                    },
                }
            },
            Some(false) => {},
            None => {
                match self.max_resolution {
                    Some(height) => {
                        push_text(&mut flags, "-f");
                        let mut selector = String::from_str("bestvideo[height<=");
                        selector.append(decimal_string(height).as_str());
                        selector.append("]+bestaudio");
                        push_text(&mut flags, selector.as_str());
                    },
                    None => {},
                }
            },
        }
        match &self.throttle_speed {
            Some(limit) => {
                push_text(&mut flags, "-r");
                push_text(&mut flags, limit.as_str());
            },
            None => {},
        }
        match &self.custom_flags {
            Some(custom) => {
                push_texts(&mut flags, custom);
            },
            None => {},
        }
        flags
    }
}

/// How much of what happens is written to the log.
#[derive(Debug, Clone, Copy, PartialEq, Eq, Structural)]
pub enum LogLevel {
    Off,
    Error,
    Warn,
    Info,
    Debug,
    Trace,
}

/// The mathematical model of a `ScheduledTime`.
pub enum ScheduledTimeView {
    Daily(Seq<char>),
    Cron(Seq<char>),
}

/// One entry of the update schedule.
#[derive(Debug, Clone)]
pub enum ScheduledTime {
    /// Once a day, at the time given as `hour:minute`.
    Daily(String),
    /// Whenever the cron expression says.
    Cron(String),
}

impl View for ScheduledTime {
    type V = ScheduledTimeView;

    open spec fn view(&self) -> ScheduledTimeView {
        match self {
            ScheduledTime::Daily(time) => ScheduledTimeView::Daily(time@),
            ScheduledTime::Cron(expression) => ScheduledTimeView::Cron(expression@),
        }
    }
}

/// The mathematical model of `Settings`.
pub struct SettingsView {
    pub tasks: Seq<DownloadEntityView>,
    pub update_schedule: Seq<ScheduledTimeView>,
    pub log_dir: Option<Seq<char>>,
    pub update_on_start: Option<bool>,
    pub log_level: Option<LogLevel>,
    pub set_owner: Option<Seq<char>>,
    pub set_group: Option<Seq<char>>,
}

/// Everything the service is configured with. It is loaded once and only
/// read afterwards.
#[derive(Debug, Clone)]
pub struct Settings {
    /// The resources to download, in the order in which they are processed.
    pub tasks: Vec<DownloadEntity>,
    /// When the tasks are run.
    pub update_schedule: Vec<ScheduledTime>,
    /// Directory of the log file.
    pub log_dir: Option<String>,
    /// Run the tasks once at start, whatever the schedule says.
    pub update_on_start: Option<bool>,
    /// How much is logged.
    pub log_level: Option<LogLevel>,
    /// Owner to set on downloaded files.
    pub set_owner: Option<String>,
    /// Group to set on downloaded files.
    pub set_group: Option<String>,
}

impl View for Settings {
    type V = SettingsView;

    open spec fn view(&self) -> SettingsView {
        SettingsView {
            tasks: self.tasks@.map_values(|task: DownloadEntity| task@),
            update_schedule: self.update_schedule@.map_values(|entry: ScheduledTime| entry@),
            log_dir: text_of(self.log_dir),
            update_on_start: self.update_on_start,
            log_level: self.log_level,
            set_owner: text_of(self.set_owner),
            set_group: text_of(self.set_group),
        }
    }
}

/// What `validate_settings` reports for settings without tasks.
pub open spec fn empty_tasks_message() -> Seq<char> {
    "Tasks list is empty."@
}

/// Checks that the settings name at least one task. Settings without tasks
/// are refused with `empty_tasks_message`; all others are accepted.
pub fn validate_settings(settings: &Settings) -> (result: Result<(), &'static str>)
    ensures
        result is Ok <==> settings@.tasks.len() > 0,
        result matches Err(message) ==> message@ == empty_tasks_message(),
{
    if settings.tasks.len() == 0 {
        return Err("Tasks list is empty.");
    }
    Ok(())
}

/// The digits of an unsigned number: the text itself, or what follows its
/// one leading `+`.
pub open spec fn unsigned_digits(s: Seq<char>) -> Seq<char> {
    if s.len() > 0 && s[0] == '+' {
        s.skip(1)
    } else {
        s
    }
}

/// The number below 256 that `s` denotes: an optional `+`, then one or more
/// decimal digits and nothing else. Leading zeros are allowed.
pub open spec fn u8_of(s: Seq<char>) -> Option<u8> {
    let digits = unsigned_digits(s);
    if digits.len() > 0 && all_digits(digits) && digits_value(digits) <= u8::MAX {
        Some(digits_value(digits) as u8)
    } else {
        None
    }
}

/// Whether the first `:` of `s` stands at position `k`.
pub open spec fn is_first_colon(s: Seq<char>, k: int) -> bool {
    &&& 0 <= k < s.len()
    &&& s[k] == ':'
    &&& forall|i: int| 0 <= i < k ==> s[i] != ':'
}

/// The hour and the minute that `s` denotes in the form `hour:minute`: the
/// text before the first `:` and the text after it must each denote a number
/// below 256. No range of a clock is imposed here.
pub open spec fn time_of(s: Seq<char>) -> Option<(u8, u8)> {
    if exists|k: int| is_first_colon(s, k) {
        let k = choose|k: int| is_first_colon(s, k);
        match (u8_of(s.take(k)), u8_of(s.skip(k + 1))) {
            (Some(hour), Some(minute)) => Some((hour, minute)),
            _ => None,
        }
    } else {
        None
    }
}

/// A text that denotes a time has exactly one `:`.
pub proof fn lemma_time_has_one_colon(s: Seq<char>, i: int, j: int)
    requires
        time_of(s) is Some,
        0 <= i < s.len(),
        0 <= j < s.len(),
        s[i] == ':',
        s[j] == ':',
    ensures
        i == j,
{
    let k = choose|k: int| is_first_colon(s, k);
    let tail = s.skip(k + 1);
    let digits = unsigned_digits(tail);
    if i > k {
        let at = i - (k + 1);
        if tail[0] == '+' {
            assert(digits[at - 1] == ':');
        } else {
            assert(digits[at] == ':');
        }
    }
    if j > k {
        let at = j - (k + 1);
        if tail[0] == '+' {
            assert(digits[at - 1] == ':');
        } else {
            assert(digits[at] == ':');
        }
    }
}

/// A text with a `:` between two texts that denote numbers below 256
/// denotes the time with these numbers as hour and minute.
pub proof fn lemma_time_of_parts(s: Seq<char>, k: int)
    requires
        0 <= k < s.len(),
        s[k] == ':',
        u8_of(s.take(k)) is Some,
        u8_of(s.skip(k + 1)) is Some,
    ensures
        time_of(s) == Some((u8_of(s.take(k))->0, u8_of(s.skip(k + 1))->0)),
{
    let head = s.take(k);
    let digits = unsigned_digits(head);
    assert forall|i: int| 0 <= i < k implies s[i] != ':' by {
        if head[0] == '+' {
            if i > 0 {
                assert(digits[i - 1] == s[i]);
            }
        } else {
            assert(digits[i] == s[i]);
        }
    }
    assert(is_first_colon(s, k));
    let chosen = choose|j: int| is_first_colon(s, j);
    assert(chosen == k);
}

/// A number below 256 written in decimal is read back as that number.
pub proof fn lemma_u8_of_decimal(n: u8)
    ensures
        u8_of(decimal(n as nat)) == Some(n),
{
    lemma_decimal_round_trip(n as nat);
}

/// An hour and a minute written in decimal with a `:` between them are read
/// back as that hour and that minute.
pub proof fn lemma_time_of_written_time(hour: u8, minute: u8)
    ensures
        time_of(decimal(hour as nat) + seq![':'] + decimal(minute as nat)) == Some((hour, minute)),
{
    let head = decimal(hour as nat);
    let tail = decimal(minute as nat);
    let s = head + seq![':'] + tail;
    lemma_u8_of_decimal(hour);
    lemma_u8_of_decimal(minute);
    assert(s.take(head.len() as int) =~= head);
    assert(s.skip(head.len() as int + 1) =~= tail);
    lemma_time_of_parts(s, head.len() as int);
}

/// Reads the characters of `chars` from `from` up to `to` as a number below
/// 256.
fn parse_u8(chars: &Vec<char>, from: usize, to: usize) -> (number: Option<u8>)
    requires
        from <= to <= chars.len(),
    ensures
        number == u8_of(chars@.subrange(from as int, to as int)),
{
    let ghost text = chars@.subrange(from as int, to as int);
    let mut i: usize = from;
    if i < to && chars[i] == '+' {
        i = i + 1;
    }
    let start: usize = i;
    let ghost digits = chars@.subrange(start as int, to as int);
    if i == to {
        return None;
    }
    let mut value: u32 = 0;
    while i < to
        invariant
            start <= i <= to <= chars.len(),
            start < to,
            digits == chars@.subrange(start as int, to as int),
            digits == unsigned_digits(text),
            text == chars@.subrange(from as int, to as int),
            value <= u8::MAX,
            all_digits(chars@.subrange(start as int, i as int)),
            value == digits_value(chars@.subrange(start as int, i as int)),
        decreases to - i,
    {
        let c = chars[i];
        let code: u32 = c as u32;
        let ghost seen = chars@.subrange(start as int, i as int);
        let ghost next_seen = chars@.subrange(start as int, i + 1);
        assert(next_seen.drop_last() =~= seen);
        assert(digits[i - start] == c);
        if code < 0x30 || code > 0x39 {
            return None;
        }
        let next: u32 = value * 10 + (code - 0x30);
        if next > 255 {
            proof {
                lemma_digits_value_prefix(digits, i + 1 - start);
                assert(digits.take(i + 1 - start) =~= next_seen);
            }
            return None;
        }
        assert(all_digits(next_seen)) by {
            assert forall|j: int| 0 <= j < seen.len() implies next_seen[j] == seen[j] by {}
        }
        value = next;
        i = i + 1;
    }
    Some(value as u8)
}

/// Reads a time of day written as `hour:minute`. Each of the two numbers is
/// an optional `+` followed by decimal digits and must be below 256; the
/// result is `None` for every other text.
pub fn parse_time(value: &str) -> (time: Option<(u8, u8)>)
    ensures
        time == time_of(value@),
{
    let chars = chars_of(value);
    let mut k: usize = 0;
    while k < chars.len() && chars[k] != ':'
        invariant
            k <= chars.len(),
            forall|i: int| 0 <= i < k ==> chars@[i] != ':',
        decreases chars.len() - k,
    {
        k = k + 1;
    }
    if k == chars.len() {
        assert forall|j: int| !is_first_colon(chars@, j) by {}
        return None;
    }
    assert(is_first_colon(chars@, k as int));
    let hour = parse_u8(&chars, 0, k);
    let minute = parse_u8(&chars, k + 1, chars.len());
    match (hour, minute) {
        (Some(h), Some(m)) => Some((h, m)),
        _ => None,
    }
}

} // verus!
