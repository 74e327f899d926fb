//! Lines of the `tracing` flavour: `[Prefix] [HH:MM:SS.mmm] [LEVEL  ] message`
//! followed by a line break, and how an event's message is collected.
use vstd::prelude::*;
use vstd::utf8::encode_utf8;

use crate::color::{paint, painted, Color};
use crate::layout::{clock_pattern, clock_shaped, color_of, level_color, shanghai_zone};
use crate::level::LogLevel;
use crate::text::{ansi_stripped, cleaned, pad_right, padded, strip_message};

verus! {

/// A `tracing` event level.
#[verifier::external_type_specification]
#[verifier::external_body]
pub struct ExTracingLevel(tracing::Level);

/// The upper-case name of a level, as `tracing` prints it.
pub open spec fn upper_name(l: LogLevel) -> Seq<char> {
    match l {
        LogLevel::Trace => seq!['T', 'R', 'A', 'C', 'E'],
        LogLevel::Debug => seq!['D', 'E', 'B', 'U', 'G'],
        LogLevel::Info => seq!['I', 'N', 'F', 'O'],
        LogLevel::Warn => seq!['W', 'A', 'R', 'N'],
        _ => seq!['E', 'R', 'R', 'O', 'R'],
    }
}

/// The level of the same name as a `tracing` level.
pub uninterp spec fn tracing_level_of(level: tracing::Level) -> LogLevel;

/// Reads a `tracing` level: the level of the same name, and the name that
/// `Level::as_str` gives ("TRACE", "DEBUG", "INFO", "WARN" or "ERROR").
#[verifier::external_body]
pub(crate) fn describe_tracing_level(level: &tracing::Level) -> (r: (LogLevel, &'static str))
    ensures
        r.0 == tracing_level_of(*level),
        r.0 != LogLevel::Off,
        r.1@ == upper_name(r.0),
{
    let l = match *level {
        tracing::Level::ERROR => LogLevel::Error,
        tracing::Level::WARN => LogLevel::Warn,
        tracing::Level::INFO => LogLevel::Info,
        tracing::Level::DEBUG => LogLevel::Debug,
        tracing::Level::TRACE => LogLevel::Trace,
    };
    (l, level.as_str())
}

/// A time zone of the IANA database as `chrono_tz` holds it.
#[verifier::external_type_specification]
#[verifier::external_body]
pub struct ExTz(chrono_tz::Tz);

/// Calls `chrono_tz`'s `FromStr` for `Tz`, which looks the name up in the table
/// of zones that the crate embeds; `Asia/Shanghai` is in that table.
#[verifier::external_body]
fn zone_named(name: &str) -> (r: Option<chrono_tz::Tz>)
    ensures
        name@ == shanghai_zone() ==> r is Some,
{
    name.parse::<chrono_tz::Tz>().ok()
}

/// Reads the system clock with `chrono::Local::now`, moves it to `zone` with
/// `DateTime::with_timezone`, and renders it with `DateTime::format(pattern)`
/// and `to_string`. The three calls stand in one item because chrono's
/// `DateTime` is generic over chrono's `TimeZone` trait, which cannot be
/// declared here. The pattern is held to the clock pattern, which chrono
/// supports, so the rendering does not fail; chrono documents `%H`, `%M`, `%S`
/// as zero-padded two-digit fields and `%.3f` as a dot and exactly three digits,
/// so the text has the clock's shape. Which time it shows is not claimed.
#[verifier::external_body]
fn clock_in_zone(zone: &chrono_tz::Tz, pattern: &str) -> (r: String)
    requires
        pattern@ == clock_pattern(),
    ensures
        clock_shaped(r@),
{
    chrono::Local::now().with_timezone(zone).format(pattern).to_string()
}

/// The clock of Asia/Shanghai now, as `HH:MM:SS.mmm`.
pub fn shanghai_clock_now() -> (r: Option<String>)
    ensures
        r matches Some(s) && clock_shaped(s@),
{
    let pattern = "%H:%M:%S%.3f";
    let zone = "Asia/Shanghai";
    proof {
        reveal_strlit("%H:%M:%S%.3f");
        reveal_strlit("Asia/Shanghai");
        assert(pattern@ =~= clock_pattern());
        assert(zone@ =~= shanghai_zone());
    }
    match zone_named(zone) {
        Some(tz) => Some(clock_in_zone(&tz, pattern)),
        None => None,
    }
}

/// The level column of a `tracing` line: the name left-aligned in seven
/// characters, painted in the level's colour when colour is on.
pub open spec fn event_level_column(color: bool, name: Seq<char>, l: LogLevel) -> Seq<char> {
    if color {
        painted(level_color(l), padded(name, 7))
    } else {
        padded(name, 7)
    }
}

/// A whole `tracing` line: `[{prefix}] [{time}] [{level}] {message}` and a line break.
pub open spec fn event_line(prefix: Seq<char>, time: Seq<char>, level: Seq<char>, message: Seq<char>) -> Seq<char> {
    seq!['['] + prefix + seq![']', ' ', '['] + time + seq![']', ' ', '['] + level + seq![']', ' ']
        + message + seq!['\n']
}

/// How the lines of the `tracing` flavour are formatted.
#[derive(Debug)]
pub struct Formatter {
    /// The prefix shown in front of every line.
    pub prefix: String,
    /// Whether the prefix and the level are coloured.
    pub color: bool,
}

impl Formatter {
    pub fn new(prefix: String, color: bool) -> (r: Self)
        ensures
            r.prefix == prefix,
            r.color == color,
    {
        Formatter { prefix, color }
    }

    /// The prefix as shown: painted magenta when colour is on.
    pub open spec fn shown_prefix(&self) -> Seq<char> {
        if self.color {
            painted(Color::Magenta, self.prefix@)
        } else {
            self.prefix@
        }
    }

    /// A whole line from a rendered time, a level and its name, and the collected message.
    pub fn render_event(&self, time: &str, level: LogLevel, name: &str, message: &str) -> (r: String)
        ensures
            r@ == event_line(
                self.shown_prefix(),
                time@,
                event_level_column(self.color, name@, level),
                message@,
            ),
    {
        let prefix = if self.color {
            paint(Color::Magenta, self.prefix.as_str())
        } else {
            self.prefix.clone()
        };
        let plain = pad_right(name, 7);
        let level_text = if self.color {
            paint(color_of(level), plain.as_str())
        } else {
            plain
        };
        let mut out = String::from_str("[");
        out.append(prefix.as_str());
        out.append("] [");
        out.append(time);
        out.append("] [");
        out.append(level_text.as_str());
        out.append("] ");
        out.append(message);
        out.append("\n");
        proof {
            reveal_strlit("[");
            reveal_strlit("] [");
            reveal_strlit("] ");
            reveal_strlit("\n");
            assert(out@ =~= event_line(
                self.shown_prefix(),
                time@,
                event_level_column(self.color, name@, level),
                message@,
            ));
        }
        out
    }

    /// Formats an event of level `level` whose collected message is `message`,
    /// stamped with the clock of Asia/Shanghai now.
    pub fn format_event(&self, level: &tracing::Level, message: &str) -> (r: String)
        ensures
            tracing_level_of(*level) != LogLevel::Off,
            exists|clock: Seq<char>|
                #[trigger] clock_shaped(clock) && r@ == event_line(
                    self.shown_prefix(),
                    clock,
                    event_level_column(
                        self.color,
                        upper_name(tracing_level_of(*level)),
                        tracing_level_of(*level),
                    ),
                    message@,
                ),
    {
        let clock = shanghai_clock_now().unwrap();
        let (l, name) = describe_tracing_level(level);
        let r = self.render_event(clock.as_str(), l, name, message);
        assert(clock_shaped(clock@) && r@ == event_line(
            self.shown_prefix(),
            clock@,
            event_level_column(self.color, upper_name(l), l),
            message@,
        ));
        r
    }
}

/// The name of the field that holds an event's message.
pub open spec fn message_field() -> Seq<char> {
    seq!['m', 'e', 's', 's', 'a', 'g', 'e']
}

/// Collects the message of an event, without its ANSI escape sequences when asked.
pub struct MessageVisitor {
    /// The text collected so far.
    pub text: String,
    /// Whether ANSI escape sequences are removed.
    pub strip_ansi: bool,
}

impl MessageVisitor {
    /// What a value of the message field adds to the text.
    pub open spec fn added(strip_ansi: bool, value: Seq<char>) -> Seq<char> {
        if strip_ansi {
            cleaned(value, ansi_stripped(encode_utf8(value)))
        } else {
            value
        }
    }

    pub fn new(strip_ansi: bool) -> (r: Self)
        ensures
            r.text@ == Seq::<char>::empty(),
            r.strip_ansi == strip_ansi,
    {
        MessageVisitor { text: String::new(), strip_ansi }
    }

    /// Records a text field: the message field's value is added to the text,
    /// other fields are ignored.
    pub fn record_str(&mut self, field: &str, value: &str)
        ensures
            final(self).strip_ansi == old(self).strip_ansi,
            final(self).text@ == if field@ == message_field() {
                old(self).text@ + Self::added(old(self).strip_ansi, value@)
            } else {
                old(self).text@
            },
    {
        let is_message = String::from_str(field) == String::from_str("message");
        proof {
            reveal_strlit("message");
            assert("message"@ =~= message_field());
        }
        if is_message {
            if self.strip_ansi {
                let cleaned_text = strip_message(value);
                self.text.append(cleaned_text.as_str());
            } else {
                self.text.append(value);
            }
        }
    }

    /// Records a field through its `Debug` rendering `rendered`, in the same way.
    pub fn record_debug(&mut self, field: &str, rendered: &str)
        ensures
            final(self).strip_ansi == old(self).strip_ansi,
            final(self).text@ == if field@ == message_field() {
                old(self).text@ + Self::added(old(self).strip_ansi, rendered@)
            } else {
                old(self).text@
            },
    {
        self.record_str(field, rendered)
    }
}

} // verus!
