use slog_html::record::Level;
use slog_html::record::Record;
use slog_html::record::Scope;
use slog_html::record::Value;
use slog_html::sink::Sink;
use slog_html::sink::WriteError;
use slog_html::FormatMode;

use std::rc::Rc;

fn rec(level: Level, msg: &str, values: Vec<(String, Value)>) -> Record {
    Record {
        level,
        msg: msg.to_string(),
        values,
    }
}

fn pre(content: &str) -> String {
    format!("<pre style=\"margin-bottom:-0.5em\">{}</pre>\n", content)
}

#[test]
fn full_mode_end_to_end_info_record() {
    // A record {severity=Info, message="listening"} under a root context
    // with no pairs, full mode, default palette: one block holding the
    // timestamp, a level span colored per the Info entry of the default
    // palette, the bolded message, and no key/value section.
    let f = slog_html::new()
        .use_custom_timestamp("TS".to_string())
        .build();
    let record = rec(Level::Info, "listening", vec![]);
    let root = Scope::root(vec![]);
    let mut out = String::new();
    f.format(&mut out, &record, Some(&root)).unwrap();
    assert_eq!(
        out,
        pre("TS<span style=\"color:#55aa00\"> INFO </span><span style=\"font-weight:bold;\">listening</span>")
    );
}

#[test]
fn full_mode_renders_context_then_own_pairs() {
    let f = slog_html::new()
        .use_custom_timestamp("T".to_string())
        .build();
    let root = Rc::new(Scope::root(vec![("a".to_string(), Value::U8(1))]));
    let leaf = Scope::child(vec![("b".to_string(), Value::Bool(true))], root);
    let record = rec(
        Level::Error,
        "boom",
        vec![("c".to_string(), Value::Str("x".to_string()))],
    );
    let mut out = String::new();
    f.format(&mut out, &record, Some(&leaf)).unwrap();
    let key = |k: &str| format!("<span style=\"color:#55557f;font-weight:bold;\">{}</span>", k);
    assert_eq!(
        out,
        pre(&format!(
            "T<span style=\"color:#ff5500\"> ERRO </span><span style=\"font-weight:bold;\">boom</span>, {}: 1, {}: true, {}: x",
            key("a"),
            key("b"),
            key("c"),
        ))
    );
}

#[test]
fn compact_identical_context_emits_one_context_line_then_none() {
    let f = slog_html::new()
        .compact()
        .use_custom_timestamp("T".to_string())
        .style(slog_html::Element::Key, slog_html::Style::default())
        .style(slog_html::Element::Message, slog_html::Style::default())
        .build();
    let root = Scope::root(vec![("a".to_string(), Value::U8(1))]);
    let r1 = rec(Level::Info, "one", vec![]);
    let r2 = rec(Level::Info, "two", vec![]);

    let mut out1 = String::new();
    f.format(&mut out1, &r1, Some(&root)).unwrap();
    assert_eq!(
        out1,
        pre("a: 1") + &pre("  T<span style=\"color:#55aa00\"> INFO </span>one")
    );

    // Second record, identical chain, different message: zero additional
    // context lines.
    let mut out2 = String::new();
    f.format(&mut out2, &r2, Some(&root)).unwrap();
    assert_eq!(out2, pre("  T<span style=\"color:#55aa00\"> INFO </span>two"));
}

fn plain_compact() -> slog_html::Format<slog_html::decorator::HtmlDecorator> {
    slog_html::new()
        .compact()
        .use_custom_timestamp("T".to_string())
        .style(slog_html::Element::Key, slog_html::Style::default())
        .style(slog_html::Element::Message, slog_html::Style::default())
        .build()
}

fn chain3(c_key: &str) -> Scope {
    let a = Rc::new(Scope::root(vec![("a".to_string(), Value::U8(0))]));
    let b = Rc::new(Scope::child(vec![("b".to_string(), Value::U8(1))], a));
    Scope::child(vec![(c_key.to_string(), Value::U8(2))], b)
}

#[test]
fn compact_divergence_reemits_only_deepest_line() {
    let f = plain_compact();
    let r = rec(Level::Info, "m", vec![]);
    let info = "T<span style=\"color:#55aa00\"> INFO </span>m";

    let mut out1 = String::new();
    f.format(&mut out1, &r, Some(&chain3("c"))).unwrap();
    assert_eq!(
        out1,
        pre("a: 0") + &pre("  b: 1") + &pre("    c: 2") + &pre(&format!("      {}", info))
    );

    // Only the deepest scope's content changed: exactly one context line
    // (depth 2) is re-emitted; depths 0 and 1 are left alone.
    let mut out2 = String::new();
    f.format(&mut out2, &r, Some(&chain3("d"))).unwrap();
    assert_eq!(out2, pre("    d: 2") + &pre(&format!("      {}", info)));
}

#[test]
fn compact_depth_shrink_renders_only_record_line() {
    let f = plain_compact();
    let r = rec(Level::Info, "m", vec![]);
    let info = "T<span style=\"color:#55aa00\"> INFO </span>m";

    let mut out1 = String::new();
    f.format(&mut out1, &r, Some(&chain3("c"))).unwrap();

    // Returning to the shallower scope [a]: a prefix of the cache, so no
    // context line is emitted; the record line stands at depth 1.
    let a = Scope::root(vec![("a".to_string(), Value::U8(0))]);
    let mut out2 = String::new();
    f.format(&mut out2, &r, Some(&a)).unwrap();
    assert_eq!(out2, pre(&format!("  {}", info)));

    // The cache was replaced wholesale by the shallower vector, so the
    // full chain re-emits its deeper lines afterwards.
    let mut out3 = String::new();
    f.format(&mut out3, &r, Some(&chain3("c"))).unwrap();
    assert_eq!(
        out3,
        pre("  b: 1") + &pre("    c: 2") + &pre(&format!("      {}", info))
    );
}

#[test]
fn compact_empty_chain_renders_record_line_at_depth_zero() {
    let f = plain_compact();
    let r = rec(Level::Info, "m", vec![]);
    let mut out = String::new();
    f.format(&mut out, &r, None).unwrap();
    assert_eq!(out, pre("T<span style=\"color:#55aa00\"> INFO </span>m"));
}

#[test]
fn compact_scope_without_pairs_yields_empty_line() {
    // A scope with no pairs still participates with an empty line, so
    // depth indices stay aligned.
    let f = plain_compact();
    let r = rec(Level::Info, "m", vec![]);
    let root = Scope::root(vec![]);
    let mut out = String::new();
    f.format(&mut out, &r, Some(&root)).unwrap();
    assert_eq!(
        out,
        pre("") + &pre("  T<span style=\"color:#55aa00\"> INFO </span>m")
    );
}

struct FailingSink;

impl Sink for FailingSink {
    fn write_str(&mut self, _s: &str) -> Result<(), WriteError> {
        Err(WriteError)
    }
}

#[test]
fn compact_failed_write_leaves_cache_untouched() {
    let f = plain_compact();
    let r = rec(Level::Info, "m", vec![]);
    let root = Scope::root(vec![("a".to_string(), Value::U8(0))]);

    let mut bad = FailingSink;
    assert_eq!(f.format(&mut bad, &r, Some(&root)), Err(WriteError));

    // The failed call must not have committed its context lines: the next
    // successful call renders them all.
    let mut out = String::new();
    f.format(&mut out, &r, Some(&root)).unwrap();
    assert_eq!(
        out,
        pre("a: 0") + &pre("  T<span style=\"color:#55aa00\"> INFO </span>m")
    );
}

#[test]
fn compact_record_own_pairs_follow_message() {
    let f = plain_compact();
    let r = rec(
        Level::Warning,
        "w",
        vec![
            ("x".to_string(), Value::I8(-3)),
            ("y".to_string(), Value::Unit),
        ],
    );
    let mut out = String::new();
    f.format(&mut out, &r, None).unwrap();
    assert_eq!(
        out,
        pre("T<span style=\"color:#ffaa00\"> WARN </span>w, x: -3, y: ()")
    );
}

#[test]
fn format_new_with_color_decorator() {
    let d = slog_html::color_decorator::ColorDecorator::new(true);
    let f = slog_html::Format::new(
        FormatMode::Full,
        d,
        slog_html::Timestamp::Custom("T".to_string()),
    );
    let r = rec(
        Level::Debug,
        "msg",
        vec![("k".to_string(), Value::U16(7))],
    );
    let mut out = String::new();
    f.format(&mut out, &r, None).unwrap();
    assert_eq!(
        out,
        pre("T<span style=\"color:#aaaa7f\"> DEBG </span><span style=\"font-weight:bold\">msg</span>, <span style=\"font-weight:bold;color:#55557f\">k</span>: 7")
    );
}

#[test]
fn builder_full_after_compact_uses_full_mode() {
    let f = slog_html::new()
        .compact()
        .full()
        .use_custom_timestamp("T".to_string())
        .build();
    let r = rec(Level::Trace, "t", vec![]);
    let mut out = String::new();
    f.format(&mut out, &r, None).unwrap();
    assert_eq!(
        out,
        pre("T<span style=\"color:#55557f\"> TRCE </span><span style=\"font-weight:bold;\">t</span>")
    );
}

#[test]
fn builder_custom_palette_colors_level() {
    let palette = slog_html::ColorPalette {
        critical: "000001",
        error: "000002",
        warning: "000003",
        info: "000004",
        debug: "000005",
        trace: "000006",
    };
    let f = slog_html::new()
        .color_palette(palette)
        .use_custom_timestamp("T".to_string())
        .style(slog_html::Element::Message, slog_html::Style::default())
        .build();
    let r = rec(Level::Critical, "c", vec![]);
    let mut out = String::new();
    f.format(&mut out, &r, None).unwrap();
    assert_eq!(out, pre("T<span style=\"color:#000001\"> CRIT </span>c"));
}

#[test]
fn default_format_writes_one_block_with_level_span() {
    // Local timestamps are clock-dependent: check the frame around them.
    let f = slog_html::default();
    let r = rec(Level::Info, "hello", vec![]);
    let mut out = String::new();
    f.format(&mut out, &r, None).unwrap();
    assert!(out.starts_with("<pre style=\"margin-bottom:-0.5em\">"));
    assert!(out.ends_with("</pre>\n"));
    assert!(out.contains("<span style=\"color:#55aa00\"> INFO </span>"));
    assert!(out.contains("<span style=\"font-weight:bold;\">hello</span>"));
}

#[test]
fn timestamp_functions_render_fixed_width_text() {
    // Pattern `Mon DD HH:MM:SS.mmm` is 19 characters.
    assert_eq!(slog_html::timestamp_local().len(), 19);
    assert_eq!(slog_html::timestamp_utc().len(), 19);
}

#[test]
fn utc_timestamp_builder_smoke() {
    let f = slog_html::new().use_utc_timestamp().build();
    let r = rec(Level::Info, "m", vec![]);
    let mut out = String::new();
    f.format(&mut out, &r, None).unwrap();
    assert!(out.starts_with("<pre style=\"margin-bottom:-0.5em\">"));
    let f2 = slog_html::new().use_utc_timestamp().use_local_timestamp().build();
    let mut out2 = String::new();
    f2.format(&mut out2, &r, None).unwrap();
    assert!(out2.ends_with("</pre>\n"));
}

#[test]
fn equal_rendered_content_counts_as_unchanged_across_instances() {
    // Cache equality is structural on rendered bytes, not on scope
    // identity: a freshly built chain whose lines render identically is
    // treated as unchanged. Deliberate behavior, not incidental.
    let f = plain_compact();
    let r = rec(Level::Info, "m", vec![]);

    let first = Scope::root(vec![("conn".to_string(), Value::U8(1))]);
    let mut out1 = String::new();
    f.format(&mut out1, &r, Some(&first)).unwrap();
    assert!(out1.contains("conn: 1"));

    let second = Scope::root(vec![("conn".to_string(), Value::U8(1))]);
    let mut out2 = String::new();
    f.format(&mut out2, &r, Some(&second)).unwrap();
    assert_eq!(out2, pre("  T<span style=\"color:#55aa00\"> INFO </span>m"));
}

#[test]
fn compact_middle_divergence_reemits_every_deeper_line() {
    // From the first divergent depth on, every line is re-emitted, even a
    // deeper one whose content still matches the cache.
    let f = plain_compact();
    let r = rec(Level::Info, "m", vec![]);
    let info = "T<span style=\"color:#55aa00\"> INFO </span>m";

    let a = Rc::new(Scope::root(vec![("a".to_string(), Value::U8(0))]));
    let b = Rc::new(Scope::child(vec![("b".to_string(), Value::U8(1))], a.clone()));
    let c = Scope::child(vec![("c".to_string(), Value::U8(2))], b);
    let mut out1 = String::new();
    f.format(&mut out1, &r, Some(&c)).unwrap();

    let x = Rc::new(Scope::child(vec![("x".to_string(), Value::U8(9))], a));
    let c2 = Scope::child(vec![("c".to_string(), Value::U8(2))], x);
    let mut out2 = String::new();
    f.format(&mut out2, &r, Some(&c2)).unwrap();
    assert_eq!(
        out2,
        pre("  x: 9") + &pre("    c: 2") + &pre(&format!("      {}", info))
    );
}
