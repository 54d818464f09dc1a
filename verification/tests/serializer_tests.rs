use slog_html::color_palette::ColorPalette;
use slog_html::decorator::fmt;
use slog_html::decorator::Decorator;
use slog_html::decorator::HtmlDecorator;
use slog_html::decorator::HtmlRecordDecorator;
use slog_html::record::Level;
use slog_html::record::Record;
use slog_html::record::Value;
use slog_html::serializer::serialize_pairs;
use slog_html::serializer::Serializer;
use slog_html::Style;
use slog_html::StyleTable;

fn plain_table() -> StyleTable {
    StyleTable {
        level: Style::default(),
        timestamp: Style::default(),
        message: Style::default(),
        key: Style::default(),
        value: Style::default(),
        separator: Style::default(),
    }
}

fn plain_rd() -> HtmlRecordDecorator {
    let record = Record {
        level: Level::Info,
        msg: String::new(),
        values: vec![],
    };
    HtmlDecorator::new(ColorPalette::default(), plain_table()).decorate(&record)
}

fn rendered(pairs: Vec<(String, Value)>) -> String {
    let mut s = Serializer::new(String::new(), plain_rd());
    serialize_pairs(&mut s, &pairs);
    let (out, _) = s.finish();
    out
}

#[test]
fn zero_pairs_emit_zero_separators() {
    assert_eq!(rendered(vec![]), "");
}

#[test]
fn one_pair_emits_zero_separators() {
    let out = rendered(vec![("k".to_string(), Value::U8(1))]);
    assert_eq!(out, "k: 1");
    assert_eq!(out.matches(", ").count(), 0);
}

#[test]
fn n_pairs_emit_n_minus_one_separators() {
    let out = rendered(vec![
        ("a".to_string(), Value::U8(1)),
        ("b".to_string(), Value::Bool(false)),
        ("c".to_string(), Value::Char('z')),
        ("d".to_string(), Value::Absent),
    ]);
    assert_eq!(out, "a: 1, b: false, c: z, d: None");
    assert_eq!(out.matches(", ").count(), 3);
}

#[test]
fn every_value_variant_renders_its_text() {
    let out = rendered(vec![
        ("n".to_string(), Value::Absent),
        ("u".to_string(), Value::Unit),
        ("b".to_string(), Value::Bool(true)),
        ("c".to_string(), Value::Char('x')),
        ("us".to_string(), Value::Usize(5)),
        ("is".to_string(), Value::Isize(-5)),
        ("u8".to_string(), Value::U8(255)),
        ("i8".to_string(), Value::I8(-128)),
        ("u16".to_string(), Value::U16(65535)),
        ("i16".to_string(), Value::I16(-32768)),
        ("u32".to_string(), Value::U32(4294967295)),
        ("i32".to_string(), Value::I32(-2147483648)),
        ("u64".to_string(), Value::U64(18446744073709551615)),
        ("i64".to_string(), Value::I64(-9223372036854775808)),
        ("s".to_string(), Value::Str("text".to_string())),
    ]);
    assert_eq!(
        out,
        "n: None, u: (), b: true, c: x, us: 5, is: -5, u8: 255, i8: -128, \
         u16: 65535, i16: -32768, u32: 4294967295, i32: -2147483648, \
         u64: 18446744073709551615, i64: -9223372036854775808, s: text"
    );
}

#[test]
fn zero_renders_as_single_digit() {
    assert_eq!(rendered(vec![("z".to_string(), Value::U64(0))]), "z: 0");
    assert_eq!(rendered(vec![("z".to_string(), Value::I64(0))]), "z: 0");
}

#[test]
fn emit_methods_write_key_separator_value() {
    let mut s = Serializer::new(String::new(), plain_rd());
    s.emit_u64("big", 10000000000);
    s.print_comma();
    s.emit_str("name", "log");
    s.print_comma();
    s.emit_arguments("fmt", "a=1 b=2");
    let (out, _) = s.finish();
    assert_eq!(out, "big: 10000000000, name: log, fmt: a=1 b=2");
}

#[test]
fn trivial_style_writes_raw_content() {
    let mut out = String::new();
    fmt(&mut out, "raw text", &Style::default());
    assert_eq!(out, "raw text");
}

#[test]
fn italic_or_custom_alone_do_not_wrap() {
    // Only color and bold decide wrapping.
    let style = Style {
        color: None,
        bold: false,
        italic: true,
        custom: Some("background-color: #ffff7f;"),
    };
    let mut out = String::new();
    fmt(&mut out, "plain", &style);
    assert_eq!(out, "plain");
}

#[test]
fn colored_style_wraps_in_one_span() {
    let style = Style {
        color: Some("112233"),
        bold: false,
        italic: false,
        custom: None,
    };
    let mut out = String::new();
    fmt(&mut out, "c", &style);
    assert_eq!(out, "<span style=\"color:#112233;\">c</span>");
}

#[test]
fn bold_style_wraps_in_one_span() {
    let style = Style {
        color: None,
        bold: true,
        italic: false,
        custom: None,
    };
    let mut out = String::new();
    fmt(&mut out, "b", &style);
    assert_eq!(out, "<span style=\"font-weight:bold;\">b</span>");
}

#[test]
fn color_and_bold_wrap_in_one_span() {
    let style = Style {
        color: Some("abcdef"),
        bold: true,
        italic: false,
        custom: None,
    };
    let mut out = String::new();
    fmt(&mut out, "cb", &style);
    assert_eq!(out, "<span style=\"color:#abcdef;font-weight:bold;\">cb</span>");
}

#[test]
fn default_palette_maps_every_level() {
    let p = ColorPalette::default();
    assert_eq!(p.level_to_color(Level::Critical), "ff0000");
    assert_eq!(p.level_to_color(Level::Error), "ff5500");
    assert_eq!(p.level_to_color(Level::Warning), "ffaa00");
    assert_eq!(p.level_to_color(Level::Info), "55aa00");
    assert_eq!(p.level_to_color(Level::Debug), "aaaa7f");
    assert_eq!(p.level_to_color(Level::Trace), "55557f");
}

#[test]
fn short_level_names_match_upstream() {
    assert_eq!(Level::Critical.as_short_str(), "CRIT");
    assert_eq!(Level::Error.as_short_str(), "ERRO");
    assert_eq!(Level::Warning.as_short_str(), "WARN");
    assert_eq!(Level::Info.as_short_str(), "INFO");
    assert_eq!(Level::Debug.as_short_str(), "DEBG");
    assert_eq!(Level::Trace.as_short_str(), "TRCE");
}

#[test]
fn builder_style_overrides_each_element() {
    let colored = Style {
        color: Some("010203"),
        bold: false,
        italic: false,
        custom: None,
    };
    let f = slog_html::new()
        .use_custom_timestamp("T".to_string())
        .style(slog_html::Element::Timestamp, colored)
        .style(slog_html::Element::Message, Style::default())
        .style(slog_html::Element::Key, Style::default())
        .style(slog_html::Element::Value, colored)
        .style(
            slog_html::Element::Separator,
            Style {
                color: None,
                bold: true,
                italic: false,
                custom: None,
            },
        )
        .build();
    let record = Record {
        level: Level::Info,
        msg: "m".to_string(),
        values: vec![("k".to_string(), Value::U8(9))],
    };
    let mut out = String::new();
    f.format(&mut out, &record, None).unwrap();
    assert_eq!(
        out,
        "<pre style=\"margin-bottom:-0.5em\">\
         <span style=\"color:#010203;\">T</span>\
         <span style=\"color:#55aa00\"> INFO </span>m\
         <span style=\"font-weight:bold;\">, </span>\
         k<span style=\"font-weight:bold;\">: </span>\
         <span style=\"color:#010203;\">9</span>\
         </pre>\n"
    );
}

#[test]
fn builder_default_matches_new() {
    let record = Record {
        level: Level::Trace,
        msg: "t".to_string(),
        values: vec![],
    };
    let f1 = slog_html::FormatBuilder::default()
        .use_custom_timestamp("T".to_string())
        .build();
    let f2 = slog_html::new().use_custom_timestamp("T".to_string()).build();
    let mut out1 = String::new();
    let mut out2 = String::new();
    f1.format(&mut out1, &record, None).unwrap();
    f2.format(&mut out2, &record, None).unwrap();
    assert_eq!(out1, out2);
}
