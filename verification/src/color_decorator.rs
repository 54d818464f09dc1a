use vstd::prelude::*;

use crate::decorator::Decorator;
use crate::decorator::RecordDecorator;
use crate::record::Level;
use crate::record::Record;

verus! {

/// The fixed color assigned to each severity level.
pub open spec fn spec_level_to_color(lvl: Level) -> &'static str {
    match lvl {
        Level::Critical => "ff0000",
        Level::Error => "ff5500",
        Level::Warning => "ffaa00",
        Level::Info => "55aa00",
        Level::Debug => "aaaa7f",
        Level::Trace => "55557f",
    }
}

fn level_to_color(lvl: Level) -> (r: &'static str)
    ensures
        r == spec_level_to_color(lvl),
{
    match lvl {
        Level::Critical => "ff0000",
        Level::Error => "ff5500",
        Level::Warning => "ffaa00",
        Level::Info => "55aa00",
        Level::Debug => "aaaa7f",
        Level::Trace => "55557f",
    }
}

/// Record decorator factory (color): a fixed palette, a bold key, and an
/// optionally bold message.
pub struct ColorDecorator {
    /// Whether messages are written bold
    pub msg_bold: bool,
}

impl ColorDecorator {
    /// New decorator that does color records.
    pub fn new(msg_bold: bool) -> (r: Self)
        ensures
            r == (ColorDecorator { msg_bold }),
    {
        ColorDecorator { msg_bold }
    }
}

impl Decorator for ColorDecorator {
    type RecordDecorator = ColorRecordDecorator;

    open spec fn spec_decorate(&self, level: Level) -> ColorRecordDecorator {
        ColorRecordDecorator {
            level_color: spec_level_to_color(level),
            msg_bold: self.msg_bold,
            key_bold: true,
        }
    }

    fn decorate(&self, record: &Record) -> (r: ColorRecordDecorator) {
        ColorRecordDecorator {
            level_color: level_to_color(record.level),
            msg_bold: self.msg_bold,
            key_bold: true,
        }
    }
}

/// Particular record decorator (color): keys bold and dark blue, the
/// message optionally bold, every other element unwrapped.
pub struct ColorRecordDecorator {
    /// The color resolved for this record's severity
    pub level_color: &'static str,
    /// Whether the message is written bold
    pub msg_bold: bool,
    /// Whether keys are written bold
    pub key_bold: bool,
}

impl RecordDecorator for ColorRecordDecorator {
    open spec fn level_markup(&self, content: Seq<char>) -> Seq<char> {
        "<span style=\"color:#"@ + self.level_color@ + "\">"@ + content + "</span>"@
    }

    open spec fn timestamp_markup(&self, content: Seq<char>) -> Seq<char> {
        content
    }

    open spec fn msg_markup(&self, content: Seq<char>) -> Seq<char> {
        if self.msg_bold {
            "<span style=\"font-weight:bold\">"@ + content + "</span>"@
        } else {
            content
        }
    }

    open spec fn key_markup(&self, content: Seq<char>) -> Seq<char> {
        if self.key_bold {
            "<span style=\"font-weight:bold;color:#55557f\">"@ + content + "</span>"@
        } else {
            content
        }
    }

    open spec fn value_markup(&self, content: Seq<char>) -> Seq<char> {
        content
    }

    open spec fn separator_markup(&self, content: Seq<char>) -> Seq<char> {
        content
    }

    fn fmt_level(&self, io: &mut String, content: &str) {
        io.append("<span style=\"color:#");
        io.append(self.level_color);
        io.append("\">");
        io.append(content);
        io.append("</span>");
        assert(io@ =~= old(io)@ + self.level_markup(content@));
    }

    fn fmt_timestamp(&self, io: &mut String, content: &str) {
        io.append(content);
    }

    fn fmt_msg(&self, io: &mut String, content: &str) {
        if self.msg_bold {
            io.append("<span style=\"font-weight:bold\">");
            io.append(content);
            io.append("</span>");
            assert(io@ =~= old(io)@ + self.msg_markup(content@));
        } else {
            io.append(content);
        }
    }

    fn fmt_key(&self, io: &mut String, content: &str) {
        if self.key_bold {
            io.append("<span style=\"font-weight:bold;color:#55557f\">");
            io.append(content);
            io.append("</span>");
            assert(io@ =~= old(io)@ + self.key_markup(content@));
        } else {
            io.append(content);
        }
    }

    fn fmt_value(&self, io: &mut String, content: &str) {
        io.append(content);
    }

    fn fmt_separator(&self, io: &mut String, content: &str) {
        io.append(content);
    }
}

} // verus!
