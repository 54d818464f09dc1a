use vstd::prelude::*;

use crate::record::Level;

verus! {

/// Hexadecimal color codes, one per severity level.
#[derive(Clone, Copy, Debug)]
pub struct ColorPalette {
    /// Color for critical messages
    pub critical: &'static str,
    /// Color for error messages
    pub error: &'static str,
    /// Color for warning messages
    pub warning: &'static str,
    /// Color for info messages
    pub info: &'static str,
    /// Color for debug messages
    pub debug: &'static str,
    /// Color for trace messages
    pub trace: &'static str,
}

impl ColorPalette {
    /// The color this palette assigns to `level`.
    pub open spec fn spec_level_to_color(&self, level: Level) -> &'static str {
        match level {
            Level::Critical => self.critical,
            Level::Error => self.error,
            Level::Warning => self.warning,
            Level::Info => self.info,
            Level::Debug => self.debug,
            Level::Trace => self.trace,
        }
    }

    /// Returns the corresponding color for a severity level.
    pub fn level_to_color(&self, level: Level) -> (r: &'static str)
        ensures
            r == self.spec_level_to_color(level),
    {
        match level {
            Level::Critical => self.critical,
            Level::Error => self.error,
            Level::Warning => self.warning,
            Level::Info => self.info,
            Level::Debug => self.debug,
            Level::Trace => self.trace,
        }
    }
}

/// Mathematical model of a `ColorPalette`.
pub struct ColorPaletteView {
    /// Color for critical messages
    pub critical: Seq<char>,
    /// Color for error messages
    pub error: Seq<char>,
    /// Color for warning messages
    pub warning: Seq<char>,
    /// Color for info messages
    pub info: Seq<char>,
    /// Color for debug messages
    pub debug: Seq<char>,
    /// Color for trace messages
    pub trace: Seq<char>,
}

impl View for ColorPalette {
    type V = ColorPaletteView;

    open spec fn view(&self) -> ColorPaletteView {
        ColorPaletteView {
            critical: self.critical@,
            error: self.error@,
            warning: self.warning@,
            info: self.info@,
            debug: self.debug@,
            trace: self.trace@,
        }
    }
}

/// The built-in palette: red for critical, orange for error, amber for
/// warning, green for info, muted olive for debug, muted blue for trace.
pub open spec fn default_color_palette() -> ColorPaletteView {
    ColorPaletteView {
        critical: "ff0000"@,
        error: "ff5500"@,
        warning: "ffaa00"@,
        info: "55aa00"@,
        debug: "aaaa7f"@,
        trace: "55557f"@,
    }
}

impl Default for ColorPalette {
    /// The built-in palette.
    fn default() -> (r: Self)
        ensures
            r@ == default_color_palette(),
    {
        ColorPalette {
            critical: "ff0000",
            error: "ff5500",
            warning: "ffaa00",
            info: "55aa00",
            debug: "aaaa7f",
            trace: "55557f",
        }
    }
}

} // verus!
