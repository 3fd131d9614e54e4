//! Subscriber that renders events as lines of text, plain or with colours.

use vstd::prelude::*;
use vstd::string::StringExecFns;
use std::fmt::Write;
use crate::level::filter::LevelFilter;
use crate::level::Level;
use crate::metadata::{Metadata, MetadataView};
use crate::subscriber::{
    init_subscriber, Event, GlobalSubscriber, SubscriberAlreadyExistsError, SubscriberProcess,
};

verus! {

/// How bright the gray of the less important columns is, from 0 to 255.
pub const GRAY_LEVEL: u8 = 135;

/// The gray of the less important columns.
pub open spec fn gray() -> Tint {
    Tint::Rgb(GRAY_LEVEL, GRAY_LEVEL, GRAY_LEVEL)
}

/// The colours and styles that a line is painted with.
#[derive(Copy, Clone, Debug, PartialEq, Eq, Structural)]
pub enum Tint {
    Rgb(u8, u8, u8),
    Red,
    Green,
    Yellow,
    Blue,
    Purple,
    Italic,
}

/// The numbers by which a terminal is told of a colour or style.
pub open spec fn tint_code(tint: Tint) -> Seq<char> {
    match tint {
        Tint::Rgb(r, g, b) => "38;2;"@ + decimal_text(r as nat) + ";"@ + decimal_text(g as nat)
            + ";"@ + decimal_text(b as nat),
        Tint::Red => "31"@,
        Tint::Green => "32"@,
        Tint::Yellow => "33"@,
        Tint::Blue => "34"@,
        Tint::Purple => "35"@,
        Tint::Italic => "3"@,
    }
}

/// A text painted for a terminal: the escape sequence that switches the
/// colour or style on, the text, and the sequence that resets the terminal.
pub open spec fn painted(tint: Tint, text: Seq<char>) -> Seq<char> {
    "\x1B["@ + tint_code(tint) + "m"@ + text + "\x1B[0m"@
}

/// `ansi_term::Style::paint`, displayed: the text between the prefix of the
/// colour or style and the reset sequence, as `ansi_term` writes them.
#[verifier::external_body]
pub(crate) fn paint(tint: Tint, text: &str) -> (r: String)
    ensures
        r@ == painted(tint, text@),
{
    let style = match tint {
        Tint::Rgb(r, g, b) => ansi_term::Colour::RGB(r, g, b).normal(),
        Tint::Red => ansi_term::Colour::Red.normal(),
        Tint::Green => ansi_term::Colour::Green.normal(),
        Tint::Yellow => ansi_term::Colour::Yellow.normal(),
        Tint::Blue => ansi_term::Colour::Blue.normal(),
        Tint::Purple => ansi_term::Colour::Purple.normal(),
        Tint::Italic => ansi_term::Style::new().italic(),
    };
    style.paint(text).to_string()
}

/// The character of a decimal digit.
pub open spec fn digit_char(d: nat) -> char {
    if d == 0 {
        '0'
    } else if d == 1 {
        '1'
    } else if d == 2 {
        '2'
    } else if d == 3 {
        '3'
    } else if d == 4 {
        '4'
    } else if d == 5 {
        '5'
    } else if d == 6 {
        '6'
    } else if d == 7 {
        '7'
    } else if d == 8 {
        '8'
    } else {
        '9'
    }
}

/// A number in decimal, without leading zeros.
pub open spec fn decimal_text(n: nat) -> Seq<char>
    decreases n,
{
    if n < 10 {
        seq![digit_char(n)]
    } else {
        decimal_text(n / 10).push(digit_char(n % 10))
    }
}

fn digit_text(d: u32) -> (r: &'static str)
    requires
        d < 10,
    ensures
        r@ == seq![digit_char(d as nat)],
{
    proof {
        reveal_strlit("0");
        reveal_strlit("1");
        reveal_strlit("2");
        reveal_strlit("3");
        reveal_strlit("4");
        reveal_strlit("5");
        reveal_strlit("6");
        reveal_strlit("7");
        reveal_strlit("8");
        reveal_strlit("9");
    }
    let text: &'static str = if d == 0 {
        "0"
    } else if d == 1 {
        "1"
    } else if d == 2 {
        "2"
    } else if d == 3 {
        "3"
    } else if d == 4 {
        "4"
    } else if d == 5 {
        "5"
    } else if d == 6 {
        "6"
    } else if d == 7 {
        "7"
    } else if d == 8 {
        "8"
    } else {
        "9"
    };
    assert(text@ =~= seq![digit_char(d as nat)]);
    text
}

/// Writes a number in decimal.
pub fn write_decimal(line: &mut String, n: u32)
    ensures
        final(line)@ == old(line)@ + decimal_text(n as nat),
    decreases n,
{
    if n >= 10 {
        write_decimal(line, n / 10);
    }
    line.append(digit_text(n % 10));
    proof {
        let digit = seq![digit_char((n % 10) as nat)];
        if n >= 10 {
            assert(decimal_text(n as nat) =~= decimal_text((n / 10) as nat) + digit);
            assert(line@ =~= old(line)@ + (decimal_text((n / 10) as nat) + digit));
        } else {
            assert(decimal_text(n as nat) =~= digit);
        }
    }
}

/// The number in decimal.
pub fn decimal(n: u32) -> (r: String)
    ensures
        r@ == decimal_text(n as nat),
{
    let mut text: String = String::new();
    write_decimal(&mut text, n);
    assert(text@ =~= decimal_text(n as nat));
    text
}

/// The text of a moment in a `strftime` format. The moment is given in UTC
/// by the seconds since the start of 1970 and the nanoseconds into that
/// second. There is no text where the moment is outside the years that can
/// be written or the format holds a specifier that does not exist.
pub uninterp spec fn formatted_time(seconds: i64, nanoseconds: u32, format: Seq<char>) -> Option<
    Seq<char>,
>;

/// `chrono::DateTime::format`, displayed, on the moment that
/// `chrono::DateTime::from_timestamp` makes of the seconds and nanoseconds:
/// the moment's text in the format, or `None` where chrono knows no such
/// moment or reports an error for the format.
#[verifier::external_body]
pub(crate) fn format_time(seconds: i64, nanoseconds: u32, format: &str) -> (r: Option<String>)
    ensures
        formatted_time(seconds, nanoseconds, format@) == match r {
            Some(text) => Some(text@),
            None => None,
        },
{
    let moment = chrono::DateTime::from_timestamp(seconds, nanoseconds)?;
    let mut text = String::new();
    write!(text, "{}", moment.format(format)).ok()?;
    Some(text)
}

/// A line before the next column is written: a line that holds something
/// gets a space; an empty line stays empty.
pub open spec fn spaced(line: Seq<char>) -> Seq<char> {
    if line.len() == 0 {
        line
    } else {
        line.push(' ')
    }
}

/// A text as it is shown: painted where colours are on.
pub open spec fn shown(color: bool, tint: Tint, text: Seq<char>) -> Seq<char> {
    if color {
        painted(tint, text)
    } else {
        text
    }
}

/// The colour of a level's name.
pub open spec fn level_tint(level: Level) -> Tint {
    match level {
        Level::Error => Tint::Red,
        Level::Warn => Tint::Yellow,
        Level::Info => Tint::Green,
        Level::Debug => Tint::Blue,
        Level::Trace => Tint::Purple,
    }
}

/// The level column: the name, after one more space where the name has four
/// letters instead of five and the line holds something already.
pub open spec fn with_level(line: Seq<char>, color: bool, level: Level) -> Seq<char> {
    let short = level == Level::Warn || level == Level::Info;
    let start = if short {
        spaced(spaced(line))
    } else {
        spaced(line)
    };
    start + shown(color, level_tint(level), level.name())
}

/// Where a line goes.
#[derive(Copy, Clone, Debug, PartialEq, Eq, Structural)]
pub enum Stream {
    Stdout,
    Stderr,
}

/// A subscriber printing to stdout/stderr.
#[derive(Debug)]
pub struct FmtSubscriber {
    pub color: bool,
    pub file: bool,
    pub level: bool,
    pub level_filter: LevelFilter,
    pub line_number: bool,
    pub target: bool,
    pub time: bool,
    pub time_format: Option<String>,
}

/// The time format that is used where none was set.
pub open spec fn default_time_format() -> Seq<char> {
    "%Y-%m-%dT%H:%M:%S%.6fZ"@
}

impl Default for FmtSubscriber {
    fn default() -> (r: FmtSubscriber)
        ensures
            r == (FmtSubscriber {
                color: false,
                file: false,
                level: false,
                level_filter: LevelFilter::Off,
                line_number: false,
                target: false,
                time: false,
                time_format: None,
            }),
    {
        FmtSubscriber {
            color: false,
            file: false,
            level: false,
            level_filter: LevelFilter::OFF,
            line_number: false,
            target: false,
            time: false,
            time_format: None,
        }
    }
}

impl FmtSubscriber {
    /// Creates a subscriber that shows the bare message of every event up to
    /// the given level.
    pub fn new(level_filter: LevelFilter) -> (r: FmtSubscriber)
        ensures
            r == (FmtSubscriber {
                color: false,
                file: false,
                level: false,
                level_filter,
                line_number: false,
                target: false,
                time: false,
                time_format: None,
            }),
    {
        FmtSubscriber {
            color: false,
            file: false,
            level: false,
            level_filter,
            line_number: false,
            target: false,
            time: false,
            time_format: None,
        }
    }

    /// Configures logging to be pretty with colors, filenames, and more.
    pub fn pretty(self) -> (r: FmtSubscriber)
        ensures
            r == (FmtSubscriber {
                color: true,
                file: true,
                level: true,
                line_number: true,
                target: true,
                time: true,
                ..self
            }),
    {
        let mut this = self;
        this.color = true;
        this.file = true;
        this.level = true;
        this.line_number = true;
        this.target = true;
        this.time = true;
        this
    }

    /// Enables printing color.
    pub fn with_color(self, color: bool) -> (r: FmtSubscriber)
        ensures
            r == (FmtSubscriber { color, ..self }),
    {
        let mut this = self;
        this.color = color;
        this
    }

    /// Print filename where log originated.
    pub fn with_file(self, file: bool) -> (r: FmtSubscriber)
        ensures
            r == (FmtSubscriber { file, ..self }),
    {
        let mut this = self;
        this.file = file;
        this
    }

    /// Print the log level.
    pub fn with_level(self, level: bool) -> (r: FmtSubscriber)
        ensures
            r == (FmtSubscriber { level, ..self }),
    {
        let mut this = self;
        this.level = level;
        this
    }

    /// Print the line number where log originated.
    pub fn with_line_number(self, line_number: bool) -> (r: FmtSubscriber)
        ensures
            r == (FmtSubscriber { line_number, ..self }),
    {
        let mut this = self;
        this.line_number = line_number;
        this
    }

    /// Print the target of the log.
    pub fn with_target(self, target: bool) -> (r: FmtSubscriber)
        ensures
            r == (FmtSubscriber { target, ..self }),
    {
        let mut this = self;
        this.target = target;
        this
    }

    /// Print the time with the log.
    pub fn with_time(self, time: bool) -> (r: FmtSubscriber)
        ensures
            r == (FmtSubscriber { time, ..self }),
    {
        let mut this = self;
        this.time = time;
        this
    }

    /// Customize the time format, which is in the `strftime` format.
    pub fn with_time_format(self, time_format: String) -> (r: FmtSubscriber)
        ensures
            r == (FmtSubscriber { time_format: Some(time_format), ..self }),
    {
        let mut this = self;
        this.time_format = Some(time_format);
        this
    }

    /// Initializes as the global subscriber, which runs in `process`. There
    /// must be no global subscriber yet: use `try_init` where there may be
    /// one.
    pub fn init(self, global: &mut GlobalSubscriber, process: SubscriberProcess)
        requires
            old(global)@ is None,
        ensures
            final(global)@ == Some(process),
    {
        let _ = self.try_init(global, process);
    }

    /// Initializes as the global subscriber, which runs in `process`,
    /// returning an error if a global subscriber has already been
    /// initialized.
    pub fn try_init(self, global: &mut GlobalSubscriber, process: SubscriberProcess) -> (r: Result<
        SubscriberProcess,
        SubscriberAlreadyExistsError,
    >)
        ensures
            match old(global)@ {
                Some(_) => r is Err && final(global)@ == old(global)@,
                None => {
                    &&& r == Ok::<SubscriberProcess, SubscriberAlreadyExistsError>(process)
                    &&& final(global)@ == Some(process)
                },
            },
    {
        init_subscriber(global, process)
    }

    /// The format in which the time is to be shown, as a specification.
    pub open spec fn spec_time_format(&self) -> Seq<char> {
        match self.time_format {
            Some(format) => format@,
            None => default_time_format(),
        }
    }

    /// The time column's content at the given moment: nothing where the
    /// time is not shown, and else the moment in the subscriber's time
    /// format, which is `None` where the moment cannot be written in it.
    pub open spec fn time_text(&self, seconds: i64, nanoseconds: u32) -> Option<Seq<char>> {
        if self.time {
            formatted_time(seconds, nanoseconds, self.spec_time_format())
        } else {
            Some(Seq::empty())
        }
    }

    /// The format in which the time is to be shown.
    pub fn time_format(&self) -> (r: &str)
        ensures
            r@ == self.spec_time_format(),
    {
        match &self.time_format {
            Some(format) => format.as_str(),
            None => "%Y-%m-%dT%H:%M:%S%.6fZ",
        }
    }

    /// Whether an event with this metadata is shown: its level is not above
    /// the subscriber's filter.
    pub fn enabled(&self, metadata: &Metadata) -> (r: bool)
        ensures
            r == (metadata@.level.verbosity() <= self.level_filter.verbosity()),
    {
        metadata.level().rank() <= self.level_filter.rank()
    }

    /// The highest verbosity level that the subscriber shows.
    pub fn max_level_hint(&self) -> (r: Option<LevelFilter>)
        ensures
            r == Some(self.level_filter),
    {
        Some(self.level_filter)
    }

    /// The columns that come before an event's data and message, for an
    /// event with the given metadata at the time `now`: the time, the
    /// level, the target, the file and the line number, each only where it
    /// is switched on, each but the line number after a space where
    /// something stands before it, and each painted where colours are on.
    pub open spec fn header(&self, metadata: MetadataView, now: Seq<char>) -> Seq<char> {
        let l1 = if self.time {
            shown(self.color, gray(), now)
        } else {
            Seq::<char>::empty()
        };
        let l2 = if self.level {
            with_level(l1, self.color, metadata.level)
        } else {
            l1
        };
        let l3 = if self.target {
            spaced(l2) + shown(self.color, gray(), metadata.target + ":"@)
        } else {
            l2
        };
        let l4 = if self.file {
            spaced(l3) + shown(self.color, gray(), metadata.file + ":"@)
        } else {
            l3
        };
        if self.line_number {
            l4 + shown(self.color, gray(), decimal_text(metadata.line as nat) + ":"@)
        } else {
            l4
        }
    }

    fn show(&self, line: &mut String, tint: Tint, text: &str)
        ensures
            final(line)@ == old(line)@ + shown(self.color, tint, text@),
    {
        if self.color {
            let colored: String = paint(tint, text);
            line.append(colored.as_str());
        } else {
            line.append(text);
        }
    }

    /// Starts the line of an event: writes the columns that come before the
    /// event's data and message.
    pub fn begin_line(&self, metadata: &Metadata, now: &str) -> (r: String)
        ensures
            r@ == self.header(metadata@, now@),
    {
        let mut line: String = String::new();
        if self.time {
            self.show(&mut line, Tint::Rgb(GRAY_LEVEL, GRAY_LEVEL, GRAY_LEVEL), now);
            assert(line@ =~= shown(self.color, gray(), now@));
        }
        if self.level {
            let level: Level = metadata.level();
            insert_space(&mut line);
            match level {
                Level::Warn => insert_space(&mut line),
                Level::Info => insert_space(&mut line),
                _ => {},
            }
            let tint: Tint = match level {
                Level::Error => Tint::Red,
                Level::Warn => Tint::Yellow,
                Level::Info => Tint::Green,
                Level::Debug => Tint::Blue,
                Level::Trace => Tint::Purple,
            };
            self.show(&mut line, tint, level.as_str());
        }
        if self.target {
            insert_space(&mut line);
            let mut column: String = String::from_str(metadata.target());
            column.append(":");
            self.show(&mut line, Tint::Rgb(GRAY_LEVEL, GRAY_LEVEL, GRAY_LEVEL), column.as_str());
        }
        if self.file {
            insert_space(&mut line);
            let mut column: String = String::from_str(metadata.file());
            column.append(":");
            self.show(&mut line, Tint::Rgb(GRAY_LEVEL, GRAY_LEVEL, GRAY_LEVEL), column.as_str());
        }
        if self.line_number {
            let mut column: String = decimal(metadata.line());
            column.append(":");
            self.show(&mut line, Tint::Rgb(GRAY_LEVEL, GRAY_LEVEL, GRAY_LEVEL), column.as_str());
        }
        line
    }

    /// Writes the name of one piece of data, in italics, and an equals sign.
    pub fn write_key(&self, line: &mut String, key: &str)
        ensures
            final(line)@ == old(line)@ + painted(Tint::Italic, key@) + "="@,
    {
        let name: String = paint(Tint::Italic, key);
        line.append(name.as_str());
        line.append("=");
    }

    /// Writes the value that is nothing.
    pub fn write_null(&self, line: &mut String)
        ensures
            final(line)@ == old(line)@ + shown(self.color, gray(), "null"@),
    {
        self.show(line, Tint::Rgb(GRAY_LEVEL, GRAY_LEVEL, GRAY_LEVEL), "null");
    }

    /// Writes a truth value: `true` in green and `false` in red where
    /// colours are on.
    pub fn write_bool(&self, line: &mut String, b: bool)
        ensures
            final(line)@ == old(line)@ + if b {
                shown(self.color, Tint::Green, "true"@)
            } else {
                shown(self.color, Tint::Red, "false"@)
            },
    {
        if b {
            self.show(line, Tint::Green, "true");
        } else {
            self.show(line, Tint::Red, "false");
        }
    }

    /// Writes a number, given as it is displayed.
    pub fn write_number(&self, line: &mut String, n: &str)
        ensures
            final(line)@ == old(line)@ + n@,
    {
        line.append(n);
    }

    /// Writes a text between double quotes.
    pub fn write_string(&self, line: &mut String, s: &str)
        ensures
            final(line)@ == old(line)@ + "\""@ + s@ + "\""@,
    {
        line.append("\"");
        line.append(s);
        line.append("\"");
    }

    /// Ends the line of an event: a space where the event has a message and
    /// the line holds something, then the message. The line of an event of
    /// level `ERROR` goes to stderr, every other line to stdout.
    pub fn end_line(&self, line: String, event: &Event) -> (r: (String, Stream))
        ensures
            r.0@ == if event.spec_message().len() == 0 {
                line@
            } else {
                spaced(line@) + event.spec_message()
            },
            r.1 == if event.spec_metadata()@.level == Level::Error {
                Stream::Stderr
            } else {
                Stream::Stdout
            },
    {
        let mut line = line;
        let message: &str = event.message();
        if message.unicode_len() != 0 {
            insert_space(&mut line);
        }
        line.append(message);
        assert(event.spec_message().len() == 0 ==> line@ + event.spec_message() =~= line@);
        let stream: Stream = match event.metadata().level() {
            Level::Error => Stream::Stderr,
            _ => Stream::Stdout,
        };
        (line, stream)
    }
}

/// Puts a space at the end of a line that holds something already.
pub fn insert_space(line: &mut String)
    ensures
        final(line)@ == spaced(old(line)@),
{
    if line.as_str().unicode_len() != 0 {
        line.append(" ");
        proof {
            reveal_strlit(" ");
            assert(" "@ =~= seq![' ']);
            assert(old(line)@ + seq![' '] =~= old(line)@.push(' '));
        }
    }
}

} // verus!
