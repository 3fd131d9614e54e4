//! The data of an event, and how it is written into the event's line.

use vstd::prelude::*;
use vstd::string::StringExecFns;
use crate::level::Level;
use crate::subscriber::Event;
use crate::subscriber::fmt::{
    format_time, gray, insert_space, painted, shown, spaced, FmtSubscriber, Stream, Tint,
};

verus! {

/// A piece of structured data: a JSON value whose numbers are held as they
/// are displayed.
#[derive(Debug)]
pub enum Value {
    Null,
    Bool(bool),
    Number(String),
    Text(String),
    Array(Vec<Value>),
    Object(Vec<(String, Value)>),
}

/// A value as it is written: `null` in gray, `true` in green and `false` in
/// red where colours are on; a number as it is; a text between double
/// quotes; an array between square brackets and an object between braces,
/// each with a space inside the brackets and its parts separated by a comma
/// and a space.
pub open spec fn rendered_value(color: bool, value: Value) -> Seq<char>
    decreases value,
{
    match value {
        Value::Null => shown(color, gray(), "null"@),
        Value::Bool(b) => if b {
            shown(color, Tint::Green, "true"@)
        } else {
            shown(color, Tint::Red, "false"@)
        },
        Value::Number(n) => n@,
        Value::Text(s) => "\""@ + s@ + "\""@,
        Value::Array(items) => "[ "@ + rendered_items(color, items@, items@.len() as int) + " ]"@,
        Value::Object(members) => "{ "@ + rendered_members(
            color,
            members@,
            members@.len() as int,
        ) + " }"@,
    }
}

/// The first `n` items of an array as they are written.
pub open spec fn rendered_items(color: bool, items: Seq<Value>, n: int) -> Seq<char>
    decreases items, n,
{
    if n <= 0 || n > items.len() {
        Seq::empty()
    } else {
        rendered_items(color, items, n - 1) + (if n > 1 {
            ", "@
        } else {
            Seq::empty()
        }) + rendered_value(color, items[n - 1])
    }
}

/// The first `n` members of an object as they are written: each a name, a
/// colon, a space and the value.
pub open spec fn rendered_members(color: bool, members: Seq<(String, Value)>, n: int) -> Seq<
    char,
>
    decreases members, n,
{
    if n <= 0 || n > members.len() {
        Seq::empty()
    } else {
        rendered_members(color, members, n - 1) + (if n > 1 {
            ", "@
        } else {
            Seq::empty()
        }) + members[n - 1].0@ + ": "@ + rendered_value(color, members[n - 1].1)
    }
}

/// The first `n` pieces of an event's data as they are written: each a name
/// in italics, an equals sign and the value, with a space between the
/// pieces.
pub open spec fn rendered_data(color: bool, data: Seq<(String, Value)>, n: int) -> Seq<char>
    decreases n,
{
    if n <= 0 || n > data.len() {
        Seq::empty()
    } else {
        rendered_data(color, data, n - 1) + (if n > 1 {
            " "@
        } else {
            Seq::empty()
        }) + painted(Tint::Italic, data[n - 1].0@) + "="@ + rendered_value(color, data[n - 1].1)
    }
}

impl FmtSubscriber {
    /// Writes a value.
    pub fn write_value(&self, line: &mut String, value: &Value)
        ensures
            final(line)@ == old(line)@ + rendered_value(self.color, *value),
        decreases *value,
    {
        match value {
            Value::Null => self.write_null(line),
            Value::Bool(b) => self.write_bool(line, *b),
            Value::Number(n) => self.write_number(line, n.as_str()),
            Value::Text(s) => {
                self.write_string(line, s.as_str());
                assert(line@ =~= old(line)@ + ("\""@ + s@ + "\""@));
            },
            Value::Array(items) => self.write_array(line, items),
            Value::Object(members) => self.write_object(line, members),
        }
    }

    /// Writes an array.
    pub fn write_array(&self, line: &mut String, values: &Vec<Value>)
        ensures
            final(line)@ == old(line)@ + ("[ "@ + rendered_items(
                self.color,
                values@,
                values@.len() as int,
            ) + " ]"@),
        decreases *values,
    {
        line.append("[ ");
        let ghost start = line@;
        let mut i: usize = 0;
        assert(line@ =~= start + rendered_items(self.color, values@, 0));
        while i < values.len()
            invariant
                i <= values.len(),
                start == old(line)@ + "[ "@,
                line@ == start + rendered_items(self.color, values@, i as int),
            decreases values.len() - i,
        {
            let ghost before = line@;
            if i > 0 {
                line.append(", ");
            }
            let ghost middle = line@;
            self.write_value(line, &values[i]);
            proof {
                let sep = if i > 0 {
                    ", "@
                } else {
                    Seq::<char>::empty()
                };
                assert(middle =~= before + sep);
                assert(line@ =~= start + (rendered_items(self.color, values@, i as int) + sep
                    + rendered_value(self.color, values@[i as int])));
            }
            i += 1;
        }
        line.append(" ]");
        assert(line@ =~= old(line)@ + ("[ "@ + rendered_items(
            self.color,
            values@,
            values@.len() as int,
        ) + " ]"@));
    }

    /// Writes an object.
    pub fn write_object(&self, line: &mut String, object: &Vec<(String, Value)>)
        ensures
            final(line)@ == old(line)@ + ("{ "@ + rendered_members(
                self.color,
                object@,
                object@.len() as int,
            ) + " }"@),
        decreases *object,
    {
        line.append("{ ");
        let ghost start = line@;
        let mut i: usize = 0;
        assert(line@ =~= start + rendered_members(self.color, object@, 0));
        while i < object.len()
            invariant
                i <= object.len(),
                start == old(line)@ + "{ "@,
                line@ == start + rendered_members(self.color, object@, i as int),
            decreases object.len() - i,
        {
            let ghost before = line@;
            if i > 0 {
                line.append(", ");
            }
            line.append(object[i].0.as_str());
            line.append(": ");
            let ghost middle = line@;
            self.write_value(line, &object[i].1);
            proof {
                let sep = if i > 0 {
                    ", "@
                } else {
                    Seq::<char>::empty()
                };
                assert(middle =~= before + sep + object@[i as int].0@ + ": "@);
                assert(line@ =~= start + (rendered_members(self.color, object@, i as int) + sep
                    + object@[i as int].0@ + ": "@ + rendered_value(
                    self.color,
                    object@[i as int].1,
                )));
            }
            i += 1;
        }
        line.append(" }");
        assert(line@ =~= old(line)@ + ("{ "@ + rendered_members(
            self.color,
            object@,
            object@.len() as int,
        ) + " }"@));
    }

    /// Writes the data of an event.
    pub fn write_data(&self, line: &mut String, data: &Vec<(String, Value)>)
        ensures
            final(line)@ == old(line)@ + rendered_data(self.color, data@, data@.len() as int),
    {
        let mut i: usize = 0;
        assert(line@ =~= old(line)@ + rendered_data(self.color, data@, 0));
        while i < data.len()
            invariant
                i <= data.len(),
                line@ == old(line)@ + rendered_data(self.color, data@, i as int),
            decreases data.len() - i,
        {
            let ghost before = line@;
            if i > 0 {
                line.append(" ");
            }
            self.write_key(line, data[i].0.as_str());
            let ghost middle = line@;
            self.write_value(line, &data[i].1);
            proof {
                let sep = if i > 0 {
                    " "@
                } else {
                    Seq::<char>::empty()
                };
                assert(middle =~= before + sep + painted(Tint::Italic, data@[i as int].0@) + "="@);
                assert(line@ =~= old(line)@ + (rendered_data(self.color, data@, i as int) + sep
                    + painted(Tint::Italic, data@[i as int].0@) + "="@ + rendered_value(
                    self.color,
                    data@[i as int].1,
                )));
            }
            i += 1;
        }
    }

    /// The line of an event at the time `now`: the columns, then the data
    /// after a space where the event has data, then the message after a
    /// space where it has a message. No space stands at the start of a
    /// line.
    pub open spec fn event_line(&self, event: Event, now: Seq<char>) -> Seq<char> {
        let head = self.header(event.spec_metadata()@, now);
        let body = if event.spec_data().len() != 0 {
            spaced(head) + rendered_data(
                self.color,
                event.spec_data(),
                event.spec_data().len() as int,
            )
        } else {
            head
        };
        if event.spec_message().len() == 0 {
            body
        } else {
            spaced(body) + event.spec_message()
        }
    }

    /// Renders an event as one line, and says where the line goes: the line
    /// of an event of level `ERROR` to stderr, every other line to stdout.
    pub fn format(&self, event: &Event, now: &str) -> (r: (String, Stream))
        ensures
            r.0@ == self.event_line(*event, now@),
            r.1 == if event.spec_metadata()@.level == Level::Error {
                Stream::Stderr
            } else {
                Stream::Stdout
            },
    {
        let mut line: String = self.begin_line(event.metadata(), now);
        if event.has_data() {
            insert_space(&mut line);
            self.write_data(&mut line, event.data());
        }
        self.end_line(line, event)
    }

    /// Renders an event as one line at the given moment, which is written
    /// in the subscriber's time format where the time is shown. Where the
    /// moment cannot be written in that format, no line is rendered.
    pub fn format_at(&self, event: &Event, seconds: i64, nanoseconds: u32) -> (r: Option<
        (String, Stream),
    >)
        ensures
            match self.time_text(seconds, nanoseconds) {
                Some(now) => r matches Some(rendered) && rendered.0@ == self.event_line(
                    *event,
                    now,
                ) && rendered.1 == if event.spec_metadata()@.level == Level::Error {
                    Stream::Stderr
                } else {
                    Stream::Stdout
                },
                None => r is None,
            },
    {
        if self.time {
            match format_time(seconds, nanoseconds, self.time_format()) {
                Some(now) => Some(self.format(event, now.as_str())),
                None => None,
            }
        } else {
            let now: String = String::new();
            Some(self.format(event, now.as_str()))
        }
    }
}

} // verus!
