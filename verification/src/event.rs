//! Event logging. Events are appended, one JSON line each, to a file per UTC day
//! named `YYYY-MM-DD.json`; the writer switches files when the day changes. The
//! rules that decide which file a line goes to, and when the previous file is
//! flushed, live here; opening, writing and flushing files is the caller's.

use vstd::prelude::*;

use crate::text::{concat, decimal_digits};

verus! {

/// The smallest and largest years chrono has dates for.
pub open spec fn chrono_min_year() -> int {
    -262143
}

pub open spec fn chrono_max_year() -> int {
    262142
}

/// The proleptic Gregorian (year, month, day) of the day `days` after
/// 1970-01-01.
pub open spec fn civil_from_days(days: int) -> (int, int, int) {
    let z = days + 719468;
    let era = z / 146097;
    let doe = z - era * 146097;
    let yoe = (doe - doe / 1460 + doe / 36524 - doe / 146096) / 365;
    let doy = doe - (365 * yoe + yoe / 4 - yoe / 100);
    let mp = (5 * doy + 2) / 153;
    let d = doy - (153 * mp + 2) / 5 + 1;
    let m = if mp < 10 { mp + 3 } else { mp - 9 };
    let y = yoe + era * 400 + if m <= 2 { 1int } else { 0int };
    (y, m, d)
}

/// A natural number written with at least `width` digits, zeros in front.
pub open spec fn zero_padded(n: nat, width: nat) -> Seq<char> {
    let digits = decimal_digits(n);
    Seq::new((if digits.len() < width { width - digits.len() } else { 0 }) as nat, |i: int| '0')
        + digits
}

/// chrono's `%Y`: years 0 to 9999 in four digits; others with their sign and at
/// least four digits.
pub open spec fn year_text(year: int) -> Seq<char> {
    if 0 <= year <= 9999 {
        zero_padded(year as nat, 4)
    } else if year < 0 {
        seq!['-'] + zero_padded((-year) as nat, 4)
    } else {
        seq!['+'] + zero_padded(year as nat, 4)
    }
}

/// The name of the event file of the UTC day that holds the instant `secs`
/// seconds and `nanos` nanoseconds after the epoch, as chrono renders
/// `%Y-%m-%d.json`: `None` where chrono has no such instant, that is where the
/// year is beyond chrono's range or `nanos` is not a valid fraction of that second
/// (at least two seconds' worth, or one second's worth outside a leap second).
pub open spec fn event_file_name_spec(secs: i64, nanos: u32) -> Option<Seq<char>> {
    let days = (secs as int) / 86400;
    let second_of_day = (secs as int) % 86400;
    let (y, m, d) = civil_from_days(days);
    if y < chrono_min_year() || y > chrono_max_year() || nanos >= 2_000_000_000 || (nanos
        >= 1_000_000_000 && second_of_day % 60 != 59) {
        None
    } else {
        Some(
            year_text(y) + seq!['-'] + zero_padded(m as nat, 2) + seq!['-'] + zero_padded(
                d as nat,
                2,
            ) + seq!['.', 'j', 's', 'o', 'n'],
        )
    }
}

/// `chrono::DateTime::<Utc>::from_timestamp` followed by `format(fmt).to_string()`.
/// chrono panics while rendering a malformed format, so only the format of event
/// file names is admitted; chrono then gives the date of the UTC day, or nothing
/// where the instant is out of its range.
#[verifier::external_body]
fn format_utc(secs: i64, nanos: u32, fmt: &str) -> (res: Option<String>)
    requires
        fmt@ == "%Y-%m-%d.json"@,
    ensures
        match res {
            Some(s) => event_file_name_spec(secs, nanos) == Some(s@),
            None => event_file_name_spec(secs, nanos) is None,
        },
{
    match chrono::DateTime::from_timestamp(secs, nanos) {
        Some(date) => Some(date.format(fmt).to_string()),
        None => None,
    }
}

/// The name of the event file of the UTC day that holds the instant `secs`
/// seconds and `nanos` nanoseconds after the epoch.
pub fn event_file_name(secs: i64, nanos: u32) -> (name: Option<String>)
    ensures
        match name {
            Some(n) => event_file_name_spec(secs, nanos) == Some(n@),
            None => event_file_name_spec(secs, nanos) is None,
        },
{
    format_utc(secs, nanos, "%Y-%m-%d.json")
}

/// The line written for an event: its content and a newline.
pub open spec fn event_line(content: Seq<char>) -> Seq<char> {
    content.push('\n')
}

/// What the writer does to write one line.
#[derive(Debug, PartialEq, Eq)]
pub enum WriteStep {
    /// Append `line` to the open file.
    Append { line: String },
    /// Flush and close the open file when `flush_previous`, open (creating it if
    /// needed) `file_name` in the events directory for appending, then append `line`.
    Rotate { flush_previous: bool, file_name: String, line: String },
}

/// Whether `step` is what writing `line` into the file `file_name` takes while
/// `current` is the open file.
pub open spec fn is_write_step(
    step: WriteStep,
    current: Option<Seq<char>>,
    file_name: Seq<char>,
    line: Seq<char>,
) -> bool {
    if current == Some(file_name) {
        step matches WriteStep::Append { line: l } && l@ == line
    } else {
        &&& step matches WriteStep::Rotate { flush_previous, file_name: f, line: l }
        &&& flush_previous == (current is Some)
        &&& f@ == file_name
        &&& l@ == line
    }
}

/// A line is appended to the open file only when that file is exactly the
/// target: for any other target (another day's file, or none open) the step
/// switches to the target, flushing the previous file when one was open.
pub proof fn law_append_only_to_target(
    step: WriteStep,
    current: Option<Seq<char>>,
    file_name: Seq<char>,
    line: Seq<char>,
)
    requires
        is_write_step(step, current, file_name, line),
    ensures
        (step is Append) <==> (current == Some(file_name)),
        current != Some(file_name) ==> (step matches WriteStep::Rotate {
            flush_previous,
            file_name: f,
            line: l,
        } && f@ == file_name && flush_previous == (current is Some) && l@ == line),
{
}

/// The state of the event writer: the file currently open, if any.
pub struct EventWriter {
    filename: Option<String>,
}

impl EventWriter {
    /// The name of the open event file, if any.
    pub closed spec fn current_file(&self) -> Option<Seq<char>> {
        match self.filename {
            Some(f) => Some(f@),
            None => None,
        }
    }

    /// A writer with no file open.
    pub fn new() -> (w: EventWriter)
        ensures
            w.current_file() is None,
    {
        EventWriter { filename: None }
    }

    /// A writer whose open file is `filename`.
    pub fn with_open_file(filename: String) -> (w: EventWriter)
        ensures
            w.current_file() == Some(filename@),
    {
        EventWriter { filename: Some(filename) }
    }

    /// The name of the open event file, if any.
    pub fn filename(&self) -> (f: Option<&String>)
        ensures
            match f {
                Some(s) => self.current_file() == Some(s@),
                None => self.current_file() is None,
            },
    {
        match &self.filename {
            Some(f) => Some(f),
            None => None,
        }
    }

    /// Whether a flush has a file to flush.
    pub fn flush(&self) -> (open: bool)
        ensures
            open == self.current_file() is Some,
    {
        self.filename.is_some()
    }

    /// Writes the event `content` into the file `file_name`: appends to the open
    /// file when it is that file, and otherwise switches to it first.
    pub fn write_line_to(&mut self, file_name: String, content: &str) -> (step: WriteStep)
        ensures
            is_write_step(step, old(self).current_file(), file_name@, event_line(content@)),
            final(self).current_file() == Some(file_name@),
    {
        let line = concat(content, "\n");
        proof {
            reveal_strlit("\n");
            assert(line@ =~= event_line(content@));
        }
        let same = match &self.filename {
            Some(f) => *f == file_name,
            None => false,
        };
        if same {
            WriteStep::Append { line }
        } else {
            let flush_previous = self.filename.is_some();
            let step = WriteStep::Rotate { flush_previous, file_name: file_name.clone(), line };
            self.filename = Some(file_name);
            step
        }
    }

    /// Writes the event `content` at the instant `secs` seconds and `nanos`
    /// nanoseconds after the epoch, into the file of that UTC day. `None`, with the
    /// writer unchanged, when chrono has no date for the instant.
    pub fn write_line(&mut self, secs: i64, nanos: u32, content: &str) -> (step: Option<WriteStep>)
        ensures
            match step {
                Some(s) => event_file_name_spec(secs, nanos) matches Some(name) && is_write_step(
                    s,
                    old(self).current_file(),
                    name,
                    event_line(content@),
                ) && final(self).current_file() == Some(name),
                None => event_file_name_spec(secs, nanos) is None && final(self).current_file()
                    == old(self).current_file(),
            },
    {
        match event_file_name(secs, nanos) {
            Some(name) => Some(self.write_line_to(name, content)),
            None => None,
        }
    }
}

/// Two instants of the same UTC day go to the same file: whenever both have a
/// file name, the names agree.
pub proof fn law_same_day_same_file(secs1: i64, nanos1: u32, secs2: i64, nanos2: u32)
    requires
        (secs1 as int) / 86400 == (secs2 as int) / 86400,
        event_file_name_spec(secs1, nanos1) is Some,
        event_file_name_spec(secs2, nanos2) is Some,
    ensures
        event_file_name_spec(secs1, nanos1) == event_file_name_spec(secs2, nanos2),
{
}

/// Once a line is written at some instant, a line written at any later instant of
/// the same UTC day is appended to the same file, with no switch of file.
pub proof fn law_same_day_appends(
    secs1: i64,
    nanos1: u32,
    secs2: i64,
    nanos2: u32,
    open_file: Option<Seq<char>>,
    line: Seq<char>,
    step: WriteStep,
)
    requires
        (secs1 as int) / 86400 == (secs2 as int) / 86400,
        event_file_name_spec(secs1, nanos1) is Some,
        open_file == event_file_name_spec(secs1, nanos1),
        event_file_name_spec(secs2, nanos2) matches Some(name) && is_write_step(
            step,
            open_file,
            name,
            line,
        ),
    ensures
        step is Append,
{
    law_same_day_same_file(secs1, nanos1, secs2, nanos2);
}

/// The service that logs events.
pub struct EventService;

/// The event logger of the service.
pub fn create_event_logger() -> (logger: EventService)
    ensures
        logger == EventService,
{
    EventService
}

} // verus!
