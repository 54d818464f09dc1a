use vstd::prelude::*;

verus! {

/// Visual directive for one semantic element of a rendered record: an
/// optional hexadecimal color code and font flags.
#[derive(Clone, Copy)]
pub struct Style {
    /// Optionally use custom color (hexadecimal color code)
    pub color: Option<&'static str>,
    /// Use bold font
    pub bold: bool,
    /// Use italic font
    pub italic: bool,
    /// Use custom CSS style
    ///
    /// Example: Some("background-color: #ffff7f;")
    pub custom: Option<&'static str>,
}

/// Mathematical model of a `Style`.
pub struct StyleView {
    /// Color code, as a character sequence
    pub color: Option<Seq<char>>,
    /// Bold flag
    pub bold: bool,
    /// Italic flag
    pub italic: bool,
    /// Custom CSS, as a character sequence
    pub custom: Option<Seq<char>>,
}

impl View for Style {
    type V = StyleView;

    open spec fn view(&self) -> StyleView {
        StyleView {
            color: match self.color {
                Some(c) => Some(c@),
                None => None,
            },
            bold: self.bold,
            italic: self.italic,
            custom: match self.custom {
                Some(c) => Some(c@),
                None => None,
            },
        }
    }
}

/// The style that leaves content exactly as it is: no color, no font flags.
pub open spec fn plain_style() -> StyleView {
    StyleView { color: None, bold: false, italic: false, custom: None }
}

impl Default for Style {
    /// A `Style` that applies nothing.
    fn default() -> (r: Self)
        ensures
            r@ == plain_style(),
    {
        Style { color: None, bold: false, italic: false, custom: None }
    }
}

/// One `Style` per semantic element kind of a rendered record line.
#[derive(Clone, Copy)]
pub struct StyleTable {
    /// Style of the severity level
    pub level: Style,
    /// Style of the timestamp
    pub timestamp: Style,
    /// Style of the message
    pub message: Style,
    /// Style of a key
    pub key: Style,
    /// Style of a value
    pub value: Style,
    /// Style of a separator
    pub separator: Style,
}

/// Mathematical model of a `StyleTable`.
pub struct StyleTableView {
    /// Model of the level style
    pub level: StyleView,
    /// Model of the timestamp style
    pub timestamp: StyleView,
    /// Model of the message style
    pub message: StyleView,
    /// Model of the key style
    pub key: StyleView,
    /// Model of the value style
    pub value: StyleView,
    /// Model of the separator style
    pub separator: StyleView,
}

impl View for StyleTable {
    type V = StyleTableView;

    open spec fn view(&self) -> StyleTableView {
        StyleTableView {
            level: self.level@,
            timestamp: self.timestamp@,
            message: self.message@,
            key: self.key@,
            value: self.value@,
            separator: self.separator@,
        }
    }
}

/// The built-in table: a bold message, bold dark-blue keys, everything
/// else unstyled.
pub open spec fn default_style_table() -> StyleTableView {
    StyleTableView {
        level: plain_style(),
        timestamp: plain_style(),
        message: StyleView { color: None, bold: true, italic: false, custom: None },
        key: StyleView { color: Some("55557f"@), bold: true, italic: false, custom: None },
        value: plain_style(),
        separator: plain_style(),
    }
}

impl Default for StyleTable {
    /// The built-in style table.
    fn default() -> (r: Self)
        ensures
            r@ == default_style_table(),
    {
        StyleTable {
            level: Style { color: None, bold: false, italic: false, custom: None },
            timestamp: Style { color: None, bold: false, italic: false, custom: None },
            message: Style { color: None, bold: true, italic: false, custom: None },
            key: Style { color: Some("55557f"), bold: true, italic: false, custom: None },
            value: Style { color: None, bold: false, italic: false, custom: None },
            separator: Style { color: None, bold: false, italic: false, custom: None },
        }
    }
}

} // verus!
