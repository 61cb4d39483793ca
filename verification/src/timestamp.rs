//! Points in time and spans of time, as the responses carry them.

use vstd::prelude::*;

verus! {

/// A date and a time of day, without an offset.
#[derive(Debug, Clone, Copy, PartialEq, Eq, Structural)]
pub struct Timestamp {
    pub year: i32,
    pub month: u8,
    pub day: u8,
    pub hour: u8,
    pub minute: u8,
    pub second: u8,
    pub nanosecond: u32,
}

impl View for Timestamp {
    type V = Timestamp;

    open spec fn view(&self) -> Timestamp {
        *self
    }
}

impl DeepView for Timestamp {
    type V = Timestamp;

    open spec fn deep_view(&self) -> Timestamp {
        *self
    }
}

/// Midnight of the first day of the year 1: the time that stands for "not
/// known".
pub open spec fn sentinel() -> Timestamp {
    Timestamp { year: 1, month: 1, day: 1, hour: 0, minute: 0, second: 0, nanosecond: 0 }
}

/// The time that a response has where it names none.
pub fn default_time() -> (r: Timestamp)
    ensures
        r == sentinel(),
{
    Timestamp { year: 1, month: 1, day: 1, hour: 0, minute: 0, second: 0, nanosecond: 0 }
}

impl Timestamp {
    /// Whether this is the time that stands for "not known".
    pub fn is_unknown(&self) -> (r: bool)
        ensures
            r == (*self == sentinel()),
    {
        self.year == 1 && self.month == 1 && self.day == 1 && self.hour == 0 && self.minute == 0
            && self.second == 0 && self.nanosecond == 0
    }
}

/// A span of time: whole seconds and the nanoseconds beyond them.
#[derive(Debug, Clone, Copy, PartialEq, Eq, Structural)]
pub struct Duration {
    pub seconds: i64,
    pub nanoseconds: i32,
}

impl View for Duration {
    type V = Duration;

    open spec fn view(&self) -> Duration {
        *self
    }
}

impl DeepView for Duration {
    type V = Duration;

    open spec fn deep_view(&self) -> Duration {
        *self
    }
}

/// The time that a text stands for, as the `time` crate reads a
/// `PrimitiveDateTime` from a string; `None` where it reads none.
pub uninterp spec fn timestamp_of_text(text: Seq<char>) -> Option<Timestamp>;

/// The text that stands for a time, as the `time` crate writes a
/// `PrimitiveDateTime`; `None` where the fields name no time.
pub uninterp spec fn text_of_timestamp(at: Timestamp) -> Option<Seq<char>>;

/// The span that a text stands for, as the `time` crate reads a `Duration`
/// from a string; `None` where it reads none.
pub uninterp spec fn duration_of_text(text: Seq<char>) -> Option<Duration>;

/// The text that stands for a span, as the `time` crate writes a
/// `Duration`; `None` where the fields name no span.
pub uninterp spec fn text_of_duration(span: Duration) -> Option<Seq<char>>;

/// Reads a `time::PrimitiveDateTime` from a JSON string through its own
/// `Deserialize`, and copies its fields out. The contract claims only that
/// the outcome is a function of the text.
#[verifier::external_body]
pub(crate) fn parse_timestamp(text: &str) -> (r: Option<Timestamp>)
    ensures
        r == timestamp_of_text(text@),
{
    match serde_json::from_value::<time::PrimitiveDateTime>(serde_json::Value::from(text)) {
        Ok(t) => Some(
            Timestamp {
                year: t.year(),
                month: u8::from(t.month()),
                day: t.day(),
                hour: t.hour(),
                minute: t.minute(),
                second: t.second(),
                nanosecond: t.nanosecond(),
            },
        ),
        Err(_) => None,
    }
}

/// Builds a `time::PrimitiveDateTime` from the fields and writes it as a
/// JSON string through its own `Serialize`. The contract claims only that
/// the outcome is a function of the fields.
#[verifier::external_body]
pub(crate) fn format_timestamp(at: Timestamp) -> (r: Option<String>)
    ensures
        r.deep_view() == text_of_timestamp(at),
{
    let month = time::Month::try_from(at.month).ok()?;
    let date = time::Date::from_calendar_date(at.year, month, at.day).ok()?;
    let clock = time::Time::from_hms_nano(at.hour, at.minute, at.second, at.nanosecond).ok()?;
    let value = serde_json::to_value(time::PrimitiveDateTime::new(date, clock)).ok()?;
    value.as_str().map(String::from)
}

/// Reads a `time::Duration` from a JSON string through its own
/// `Deserialize`, and copies its fields out. The contract claims only that
/// the outcome is a function of the text.
#[verifier::external_body]
pub(crate) fn parse_duration(text: &str) -> (r: Option<Duration>)
    ensures
        r == duration_of_text(text@),
{
    match serde_json::from_value::<time::Duration>(serde_json::Value::from(text)) {
        Ok(d) => Some(Duration { seconds: d.whole_seconds(), nanoseconds: d.subsec_nanoseconds() }),
        Err(_) => None,
    }
}

/// Builds a `time::Duration` from the fields and writes it as a JSON string
/// through its own `Serialize`. The contract claims only that the outcome
/// is a function of the fields.
#[verifier::external_body]
pub(crate) fn format_duration(span: Duration) -> (r: Option<String>)
    ensures
        r.deep_view() == text_of_duration(span),
{
    let nanos = time::Duration::nanoseconds(i64::from(span.nanoseconds));
    let whole = time::Duration::seconds(span.seconds).checked_add(nanos)?;
    let value = serde_json::to_value(whole).ok()?;
    value.as_str().map(String::from)
}

} // verus!
