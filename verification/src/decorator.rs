use vstd::prelude::*;

use crate::color_palette::ColorPalette;
use crate::record::Level;
use crate::record::Record;
use crate::style::Style;
use crate::style::StyleTable;
use crate::style::StyleView;

verus! {

/// A style applies nothing when it has no color and is not bold: its
/// content is then written unwrapped, with no empty markup around it.
pub open spec fn style_is_trivial(s: StyleView) -> bool {
    s.color is None && !s.bold
}

/// The opening markup of a non-trivial style.
pub open spec fn style_open(s: StyleView) -> Seq<char> {
    "<span style=\""@ + (match s.color {
        Some(c) => "color:#"@ + c + ";"@,
        None => Seq::<char>::empty(),
    }) + (if s.bold {
        "font-weight:bold;"@
    } else {
        Seq::<char>::empty()
    }) + "\">"@
}

/// Content wrapped by a style: exactly one opening/closing markup pair
/// around it when the style is non-trivial, the bare content otherwise.
pub open spec fn styled(s: StyleView, content: Seq<char>) -> Seq<char> {
    if style_is_trivial(s) {
        content
    } else {
        style_open(s) + content + "</span>"@
    }
}

/// Writes `content` under `style`.
pub fn fmt(io: &mut String, content: &str, style: &Style)
    ensures
        final(io)@ == old(io)@ + styled(style@, content@),
{
    if style.color.is_some() || style.bold {
        io.append("<span style=\"");
        if let Some(color) = style.color {
            io.append("color:#");
            io.append(color);
            io.append(";");
        }
        if style.bold {
            io.append("font-weight:bold;");
        }
        io.append("\">");
        io.append(content);
        io.append("</span>");
        assert(io@ =~= old(io)@ + styled(style@, content@));
    } else {
        io.append(content);
    }
}

/// Law (style triviality): a style with no color and not bold produces
/// output byte-identical to the unwrapped raw content, with no empty
/// markup emitted; a style with color or bold always wraps the content in
/// exactly one opening/closing markup pair.
pub proof fn lemma_style_triviality(s: StyleView, content: Seq<char>)
    ensures
        style_is_trivial(s) ==> styled(s, content) == content,
        !style_is_trivial(s) ==> styled(s, content) == style_open(s) + content + "</span>"@,
{
}

/// Styles the elements of one record: one operation per semantic element
/// kind, each writing its content wrapped in that element's markup.
pub trait RecordDecorator: Sized {
    /// Markup around the severity level.
    spec fn level_markup(&self, content: Seq<char>) -> Seq<char>;

    /// Markup around the timestamp.
    spec fn timestamp_markup(&self, content: Seq<char>) -> Seq<char>;

    /// Markup around the message.
    spec fn msg_markup(&self, content: Seq<char>) -> Seq<char>;

    /// Markup around a key.
    spec fn key_markup(&self, content: Seq<char>) -> Seq<char>;

    /// Markup around a value.
    spec fn value_markup(&self, content: Seq<char>) -> Seq<char>;

    /// Markup around a separator.
    spec fn separator_markup(&self, content: Seq<char>) -> Seq<char>;

    /// Writes the severity level.
    fn fmt_level(&self, io: &mut String, content: &str)
        ensures
            final(io)@ == old(io)@ + self.level_markup(content@),
    ;

    /// Writes the timestamp.
    fn fmt_timestamp(&self, io: &mut String, content: &str)
        ensures
            final(io)@ == old(io)@ + self.timestamp_markup(content@),
    ;

    /// Writes the message.
    fn fmt_msg(&self, io: &mut String, content: &str)
        ensures
            final(io)@ == old(io)@ + self.msg_markup(content@),
    ;

    /// Writes a key.
    fn fmt_key(&self, io: &mut String, content: &str)
        ensures
            final(io)@ == old(io)@ + self.key_markup(content@),
    ;

    /// Writes a value.
    fn fmt_value(&self, io: &mut String, content: &str)
        ensures
            final(io)@ == old(io)@ + self.value_markup(content@),
    ;

    /// Writes a separator.
    fn fmt_separator(&self, io: &mut String, content: &str)
        ensures
            final(io)@ == old(io)@ + self.separator_markup(content@),
    ;
}

/// A stateless factory that binds styling to one record's severity, so
/// that level-dependent coloring is resolved once per record.
pub trait Decorator: Sized {
    /// The per-record decorator this factory produces.
    type RecordDecorator: RecordDecorator;

    /// The decorator produced for a record of severity `level`.
    spec fn spec_decorate(&self, level: Level) -> Self::RecordDecorator;

    /// Binds this factory's styling to one record's severity.
    fn decorate(&self, record: &Record) -> (r: Self::RecordDecorator)
        ensures
            r == self.spec_decorate(record.level),
    ;
}

/// Html decorator: a color palette for the severity level and a style
/// table for every other element.
pub struct HtmlDecorator {
    /// Maps each severity level to its color
    pub color_palette: ColorPalette,
    /// The styles of the other elements
    pub style: StyleTable,
}

impl HtmlDecorator {
    /// An html decorator over the given palette and style table.
    pub fn new(color_palette: ColorPalette, style: StyleTable) -> (r: Self)
        ensures
            r == (HtmlDecorator { color_palette, style }),
    {
        HtmlDecorator { color_palette, style }
    }
}

impl Decorator for HtmlDecorator {
    type RecordDecorator = HtmlRecordDecorator;

    open spec fn spec_decorate(&self, level: Level) -> HtmlRecordDecorator {
        HtmlRecordDecorator {
            level_color: self.color_palette.spec_level_to_color(level),
            style: self.style,
        }
    }

    fn decorate(&self, record: &Record) -> (r: HtmlRecordDecorator) {
        HtmlRecordDecorator {
            level_color: self.color_palette.level_to_color(record.level),
            style: self.style,
        }
    }
}

/// Html decorator bound to one record: the severity's resolved color and
/// the style table.
pub struct HtmlRecordDecorator {
    /// The color resolved for this record's severity
    pub level_color: &'static str,
    /// The styles of the other elements
    pub style: StyleTable,
}

impl RecordDecorator for HtmlRecordDecorator {
    open spec fn level_markup(&self, content: Seq<char>) -> Seq<char> {
        "<span style=\"color:#"@ + self.level_color@ + "\">"@ + content + "</span>"@
    }

    open spec fn timestamp_markup(&self, content: Seq<char>) -> Seq<char> {
        styled(self.style.timestamp@, content)
    }

    open spec fn msg_markup(&self, content: Seq<char>) -> Seq<char> {
        styled(self.style.message@, content)
    }

    open spec fn key_markup(&self, content: Seq<char>) -> Seq<char> {
        styled(self.style.key@, content)
    }

    open spec fn value_markup(&self, content: Seq<char>) -> Seq<char> {
        styled(self.style.value@, content)
    }

    open spec fn separator_markup(&self, content: Seq<char>) -> Seq<char> {
        styled(self.style.separator@, content)
    }

    fn fmt_level(&self, io: &mut String, content: &str) {
        io.append("<span style=\"color:#");
        io.append(self.level_color);
        io.append("\">");
        io.append(content);
        io.append("</span>");
        assert(io@ =~= old(io)@ + self.level_markup(content@));
    }

    fn fmt_timestamp(&self, io: &mut String, content: &str) {
        fmt(io, content, &self.style.timestamp);
    }

    fn fmt_msg(&self, io: &mut String, content: &str) {
        fmt(io, content, &self.style.message);
    }

    fn fmt_key(&self, io: &mut String, content: &str) {
        fmt(io, content, &self.style.key);
    }

    fn fmt_value(&self, io: &mut String, content: &str) {
        fmt(io, content, &self.style.value);
    }

    fn fmt_separator(&self, io: &mut String, content: &str) {
        fmt(io, content, &self.style.separator);
    }
}

} // verus!
