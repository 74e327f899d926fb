//! The text layout of a record: `[Prefix] [HH:MM:SS.mmm] [LEVEL  ] message`.
use vstd::prelude::*;
use vstd::utf8::encode_utf8;

use crate::color::{paint, painted, Color};
use crate::level::{
    category, describe_record_level, is_severity, record_severity, severity_name, LogLevel,
};
use crate::text::{ansi_stripped, cleaned, pad_right, padded, strip_message};

verus! {

/// A point in time as the standard library gives it.
#[verifier::external_type_specification]
#[verifier::external_body]
pub struct ExSystemTime(std::time::SystemTime);

/// An instant as `jiff` holds it.
#[verifier::external_type_specification]
#[verifier::external_body]
pub struct ExTimestamp(jiff::Timestamp);

/// A date and time in a time zone as `jiff` holds it.
#[verifier::external_type_specification]
#[verifier::external_body]
pub struct ExZoned(jiff::Zoned);

/// Calls `jiff::Timestamp::try_from` on a system time, which fails for times
/// outside jiff's range. Nothing is claimed of the instant.
#[verifier::external_body]
fn timestamp_of(time: std::time::SystemTime) -> Option<jiff::Timestamp> {
    jiff::Timestamp::try_from(time).ok()
}

/// The zone `Asia/Shanghai`, whose clock the lines show.
pub open spec fn shanghai_zone() -> Seq<char> {
    seq!['A', 's', 'i', 'a', '/', 'S', 'h', 'a', 'n', 'g', 'h', 'a', 'i']
}

/// Calls `Timestamp::in_tz`, which looks the zone up in the time zone database
/// found at run time. The zone is held to `Asia/Shanghai`, the only one the
/// layout uses. Nothing is claimed of the result, which depends on that database.
#[verifier::external_body]
fn in_zone(ts: &jiff::Timestamp, zone: &str) -> Option<jiff::Zoned>
    requires
        zone@ == shanghai_zone(),
{
    ts.in_tz(zone).ok()
}

/// The clock pattern `%H:%M:%S%.3f`: hours, minutes, seconds and milliseconds.
pub open spec fn clock_pattern() -> Seq<char> {
    seq!['%', 'H', ':', '%', 'M', ':', '%', 'S', '%', '.', '3', 'f']
}

/// Whether a character is an ASCII digit.
pub open spec fn is_digit(c: char) -> bool {
    '0' <= c <= '9'
}

/// Text in the shape `HH:MM:SS.mmm`: two digits, a colon, two digits, a colon,
/// two digits, a dot and three digits.
pub open spec fn clock_shaped(s: Seq<char>) -> bool {
    &&& s.len() == 12
    &&& s[2] == ':'
    &&& s[5] == ':'
    &&& s[8] == '.'
    &&& forall|i: int| 0 <= i < 12 && i != 2 && i != 5 && i != 8 ==> is_digit(#[trigger] s[i])
}

/// The placeholder has the clock's shape too.
pub proof fn lemma_placeholder_clock_shaped()
    ensures
        clock_shaped(clock_placeholder()),
{
}

/// Calls `Zoned::strftime` and renders the result with `to_string`. The pattern
/// is held to the clock pattern, which jiff supports, so the rendering does not
/// fail; jiff documents `%H`, `%M` and `%S` as zero-padded two-digit fields and
/// `%.3f` as a dot and exactly three digits, so the text has the clock's shape.
/// Which time it shows is not claimed.
#[verifier::external_body]
fn strftime_text(zoned: &jiff::Zoned, pattern: &str) -> (r: String)
    requires
        pattern@ == clock_pattern(),
    ensures
        clock_shaped(r@),
{
    zoned.strftime(pattern).to_string()
}

/// The text shown when a time cannot be rendered.
pub open spec fn clock_placeholder() -> Seq<char> {
    seq!['0', '0', ':', '0', '0', ':', '0', '0', '.', '0', '0', '0']
}

/// The rendered clock, or the placeholder where rendering failed.
pub fn clock_or_placeholder(rendered: Option<String>) -> (r: String)
    ensures
        r@ == match rendered {
            Some(s) => s@,
            None => clock_placeholder(),
        },
{
    match rendered {
        Some(s) => s,
        None => {
            let s = String::from_str("00:00:00.000");
            proof {
                reveal_strlit("00:00:00.000");
                assert(s@ =~= clock_placeholder());
            }
            s
        },
    }
}

/// The colour of a level's name: red for errors (and fatal records), yellow for
/// warnings, green for information, blue for debugging, magenta for tracing.
pub open spec fn level_color(l: LogLevel) -> Color {
    match l {
        LogLevel::Error => Color::Red,
        LogLevel::Warn => Color::Yellow,
        LogLevel::Info => Color::Green,
        LogLevel::Debug => Color::Blue,
        _ => Color::Magenta,
    }
}

/// The level column: the name left-aligned in seven characters, painted in the
/// level's colour when colour is on.
pub open spec fn level_column(color: bool, name: Seq<char>, n: int) -> Seq<char> {
    if color {
        painted(level_color(category(n)), padded(name, 7))
    } else {
        padded(name, 7)
    }
}

/// The prefix column: `[prefix] ` (the prefix painted magenta when colour is
/// on), or nothing without a prefix.
pub open spec fn prefix_column(prefix: Option<String>, color: bool) -> Seq<char> {
    match prefix {
        Some(p) => seq!['['] + (if color {
            painted(Color::Magenta, p@)
        } else {
            p@
        }) + seq![']', ' '],
        None => Seq::empty(),
    }
}

/// The message column: the message as given when colour is on, with its ANSI
/// escape sequences removed otherwise.
pub open spec fn message_column(color: bool, message: Seq<char>) -> Seq<char> {
    if color {
        message
    } else {
        cleaned(message, ansi_stripped(encode_utf8(message)))
    }
}

/// A whole line: `{prefix}[{time}] [{level}] {message}`.
pub open spec fn line(prefix: Seq<char>, time: Seq<char>, level: Seq<char>, message: Seq<char>) -> Seq<char> {
    prefix + seq!['['] + time + seq![']', ' ', '['] + level + seq![']', ' '] + message
}

/// Every level name fits the level column: padded, it is exactly seven
/// characters wide and starts with the name.
pub proof fn lemma_level_column_width(n: int)
    requires
        is_severity(n),
    ensures
        severity_name(n).len() <= 6,
        padded(severity_name(n), 7).len() == 7,
        padded(severity_name(n), 7).subrange(0, severity_name(n).len() as int) =~= severity_name(n),
{
    let group = (n - 1) / 4;
    assert(0 <= group <= 5);
    assert(crate::level::group_name(group).len() <= 5);
}

/// The colour of a level, as a value.
pub fn color_of(l: LogLevel) -> (r: Color)
    ensures
        r == level_color(l),
{
    match l {
        LogLevel::Error => Color::Red,
        LogLevel::Warn => Color::Yellow,
        LogLevel::Info => Color::Green,
        LogLevel::Debug => Color::Blue,
        _ => Color::Magenta,
    }
}

/// Renders `time` on the clock of Asia/Shanghai as `HH:MM:SS.mmm`, or
/// `00:00:00.000` where the time cannot be converted or the zone is unknown.
pub fn format_timestamp(time: std::time::SystemTime) -> (r: String)
    ensures
        r@ == clock_placeholder() || clock_shaped(r@),
{
    let zone = "Asia/Shanghai";
    let pattern = "%H:%M:%S%.3f";
    proof {
        reveal_strlit("%H:%M:%S%.3f");
        reveal_strlit("Asia/Shanghai");
        assert(pattern@ =~= clock_pattern());
        assert(zone@ =~= shanghai_zone());
    }
    let rendered = match timestamp_of(time) {
        Some(ts) => match in_zone(&ts, zone) {
            Some(zoned) => Some(strftime_text(&zoned, pattern)),
            None => None,
        },
        None => None,
    };
    clock_or_placeholder(rendered)
}

/// How records are laid out: with an optional prefix, with or without colour.
#[derive(Debug)]
pub struct Layout {
    pub prefix: Option<String>,
    pub color: bool,
}

impl Layout {
    pub fn new(prefix: Option<String>, color: bool) -> (r: Self)
        ensures
            r.prefix == prefix,
            r.color == color,
    {
        Layout { prefix, color }
    }

    /// The level column for a record of severity `severity` named `name`.
    pub fn render_level(&self, name: &str, severity: u8) -> (r: String)
        requires
            is_severity(severity as int),
        ensures
            r@ == level_column(self.color, name@, severity as int),
    {
        let plain = pad_right(name, 7);
        if !self.color {
            return plain;
        }
        let c = color_of(LogLevel::of_severity(severity));
        paint(c, plain.as_str())
    }

    /// The level column for a logforth level.
    pub fn format_level(&self, level: logforth::record::Level) -> (r: String)
        ensures
            is_severity(record_severity(level) as int),
            r@ == level_column(
                self.color,
                severity_name(record_severity(level) as int),
                record_severity(level) as int,
            ),
    {
        let (severity, name) = describe_record_level(level);
        self.render_level(name, severity)
    }

    /// The prefix column.
    pub fn render_prefix(&self) -> (r: String)
        ensures
            r@ == prefix_column(self.prefix, self.color),
    {
        match &self.prefix {
            Some(p) => {
                let mut out = String::from_str("[");
                let body = if self.color {
                    paint(Color::Magenta, p.as_str())
                } else {
                    p.clone()
                };
                out.append(body.as_str());
                out.append("] ");
                proof {
                    reveal_strlit("[");
                    reveal_strlit("] ");
                    assert(out@ =~= prefix_column(self.prefix, self.color));
                }
                out
            },
            None => {
                let out = String::new();
                proof {
                    assert(out@ =~= prefix_column(self.prefix, self.color));
                }
                out
            },
        }
    }

    /// The message column.
    pub fn render_message(&self, message: &str) -> (r: String)
        ensures
            r@ == message_column(self.color, message@),
    {
        if self.color {
            String::from_str(message)
        } else {
            strip_message(message)
        }
    }

    /// A whole line from a rendered time, a level's severity and name, and the message.
    pub fn render_line(&self, time: &str, name: &str, severity: u8, message: &str) -> (r: String)
        requires
            is_severity(severity as int),
        ensures
            r@ == line(
                prefix_column(self.prefix, self.color),
                time@,
                level_column(self.color, name@, severity as int),
                message_column(self.color, message@),
            ),
    {
        let mut out = self.render_prefix();
        let level = self.render_level(name, severity);
        let text = self.render_message(message);
        out.append("[");
        out.append(time);
        out.append("] [");
        out.append(level.as_str());
        out.append("] ");
        out.append(text.as_str());
        proof {
            reveal_strlit("[");
            reveal_strlit("] [");
            reveal_strlit("] ");
            assert(out@ =~= line(
                prefix_column(self.prefix, self.color),
                time@,
                level_column(self.color, name@, severity as int),
                message_column(self.color, message@),
            ));
        }
        out
    }

    /// Lays out a record observed at `time`, of level `level`, with the message `message`.
    pub fn format(&self, time: std::time::SystemTime, level: logforth::record::Level, message: &str) -> (r: String)
        ensures
            is_severity(record_severity(level) as int),
            exists|clock: Seq<char>|
                #[trigger] clock_shaped(clock) && r@ == line(
                    prefix_column(self.prefix, self.color),
                    clock,
                    level_column(
                        self.color,
                        severity_name(record_severity(level) as int),
                        record_severity(level) as int,
                    ),
                    message_column(self.color, message@),
                ),
    {
        let clock = format_timestamp(time);
        let (severity, name) = describe_record_level(level);
        let r = self.render_line(clock.as_str(), name, severity, message);
        proof {
            lemma_placeholder_clock_shaped();
        }
        assert(clock_shaped(clock@) && r@ == line(
            prefix_column(self.prefix, self.color),
            clock@,
            level_column(
                self.color,
                severity_name(record_severity(level) as int),
                record_severity(level) as int,
            ),
            message_column(self.color, message@),
        ));
        r
    }
}

} // verus!
