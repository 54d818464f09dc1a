//! Renders structured log records (message, severity level, timestamp and a
//! chain of nested key/value context scopes) into styled HTML markup.
//!
//! Full mode renders every record as one self-contained line holding its
//! whole context. Compact mode keeps, per formatter, the context lines
//! last rendered and re-emits only the nesting depths whose rendered
//! content changed since the previous record.

pub mod color_decorator;
pub mod color_palette;
pub mod decorator;
pub mod record;
pub mod serializer;
pub mod sink;
pub mod style;
pub mod text;

pub use color_palette::ColorPalette;
pub use style::Style;
pub use style::StyleTable;

use vstd::prelude::*;
use vstd::rwlock::RwLock;
use vstd::rwlock::RwLockPredicate;

use crate::decorator::Decorator;
use crate::decorator::HtmlDecorator;
use crate::decorator::RecordDecorator;
use crate::record::Level;
use crate::record::PairView;
use crate::record::Record;
use crate::record::RecordView;
use crate::record::Scope;
use crate::record::opt_chain_view;
use crate::record::pairs_view;
use crate::serializer::Serializer;
use crate::serializer::comma_pairs;
use crate::serializer::pairs_markup;
use crate::serializer::serialize_comma_pairs;
use crate::serializer::serialize_pairs;
use crate::sink::Sink;
use crate::sink::WriteError;

verus! {

/// Formatting mode
pub enum FormatMode {
    /// Compact logging format
    Compact,
    /// Full logging format
    Full,
}

/// A semantic element of a rendered record line.
pub enum Element {
    /// The timestamp
    Timestamp,
    /// The message
    Message,
    /// A key
    Key,
    /// A value
    Value,
    /// A separator
    Separator,
}

/// How the timestamp of a record line is produced.
#[derive(Clone, Debug)]
pub enum Timestamp {
    /// The current local time
    Local,
    /// The current UTC time
    Utc,
    /// A fixed text
    Custom(String),
}

/// What is known of a rendered timestamp: a custom timestamp is its own
/// text; of a clock-produced one nothing is promised.
pub open spec fn ts_matches(t: Timestamp, ts: Seq<char>) -> bool {
    match t {
        Timestamp::Local => true,
        Timestamp::Utc => true,
        Timestamp::Custom(s) => ts == s@,
    }
}

/// Relies on `chrono::Local::now` and `chrono::format::DelayedFormat`:
/// renders the current local time in the fixed pattern
/// `Mon DD HH:MM:SS.mmm`. The result depends on the clock, so nothing is
/// promised of it.
#[verifier::external_body]
pub fn timestamp_local() -> String {
    format!("{}", chrono::Local::now().format("%b %d %H:%M:%S%.3f"))
}

/// Relies on `chrono::Utc::now` and `chrono::format::DelayedFormat`:
/// renders the current UTC time in the fixed pattern
/// `Mon DD HH:MM:SS.mmm`. The result depends on the clock, so nothing is
/// promised of it.
#[verifier::external_body]
pub fn timestamp_utc() -> String {
    format!("{}", chrono::Utc::now().format("%b %d %H:%M:%S%.3f"))
}

/// The marker opening every rendered line's block.
pub open spec fn block_open() -> Seq<char> {
    "<pre style=\"margin-bottom:-0.5em\">"@
}

/// The marker closing every rendered line's block.
pub open spec fn block_close() -> Seq<char> {
    "</pre>\n"@
}

/// Two spaces of indentation per nesting level.
pub open spec fn indent_text(n: nat) -> Seq<char>
    decreases n,
{
    if n == 0 {
        Seq::<char>::empty()
    } else {
        indent_text((n - 1) as nat) + "  "@
    }
}

/// The heading of a record line: the timestamp, the short level name
/// padded with one space on each side, and the message, each under its
/// element markup.
pub open spec fn heading_markup<RD: RecordDecorator>(
    rd: RD,
    level: Level,
    msg: Seq<char>,
    ts: Seq<char>,
) -> Seq<char> {
    rd.timestamp_markup(ts) + rd.level_markup(" "@ + level.spec_short_str() + " "@)
        + rd.msg_markup(msg)
}

/// Every scope's pairs rendered in root-to-leaf order, each pair behind
/// one separator: what a full-mode line appends for inherited context.
pub open spec fn comma_chain<RD: RecordDecorator>(rd: RD, chain: Seq<Seq<PairView>>) -> Seq<char>
    decreases chain.len(),
{
    if chain.len() == 0 {
        Seq::<char>::empty()
    } else {
        comma_chain(rd, chain.drop_last()) + comma_pairs(rd, chain.last())
    }
}

/// One full-mode line: block marker, heading, every inherited pair in
/// root-to-leaf order and then the record's own pairs, one separator
/// before each pair, the message standing as the first entry, and the
/// closing marker.
pub open spec fn full_output<D: Decorator>(
    d: D,
    r: RecordView,
    chain: Seq<Seq<PairView>>,
    ts: Seq<char>,
) -> Seq<char> {
    let rd = d.spec_decorate(r.level);
    block_open() + heading_markup(rd, r.level, r.msg, ts) + comma_chain(rd, chain) + comma_pairs(
        rd,
        r.values,
    ) + block_close()
}

/// The context-line vector of a record: one rendered line per scope,
/// root first, each scope's own pairs rendered under the decorator
/// produced for this record's severity. A scope without pairs yields an
/// empty line, so indices stay aligned with nesting depth.
pub open spec fn context_lines<D: Decorator>(
    d: D,
    level: Level,
    chain: Seq<Seq<PairView>>,
) -> Seq<Seq<char>> {
    chain.map_values(|pairs: Seq<PairView>| pairs_markup(d.spec_decorate(level), pairs))
}

/// The first depth at which the cached lines and the current lines
/// differ: the length of their longest common prefix, capped at the
/// current vector's length.
pub open spec fn divergent_depth(cache: Seq<Seq<char>>, lines: Seq<Seq<char>>) -> int
    decreases lines.len(),
{
    if lines.len() == 0 || cache.len() == 0 {
        0
    } else if cache[0] != lines[0] {
        0
    } else {
        1 + divergent_depth(cache.drop_first(), lines.drop_first())
    }
}

/// The standalone context lines emitted for every depth from `from` on:
/// each one a block holding its depth's indentation and its rendered
/// content.
pub open spec fn context_output(lines: Seq<Seq<char>>, from: int) -> Seq<char>
    decreases lines.len() - from,
{
    if from < 0 || from >= lines.len() {
        Seq::<char>::empty()
    } else {
        block_open() + indent_text(from as nat) + lines[from] + block_close() + context_output(
            lines,
            from + 1,
        )
    }
}

/// A compact-mode record line at nesting depth `depth`: block marker,
/// indentation, heading, the record's own pairs only, closing marker.
pub open spec fn record_line_markup<D: Decorator>(
    d: D,
    r: RecordView,
    depth: nat,
    ts: Seq<char>,
) -> Seq<char> {
    let rd = d.spec_decorate(r.level);
    block_open() + indent_text(depth) + heading_markup(rd, r.level, r.msg, ts) + comma_pairs(
        rd,
        r.values,
    ) + block_close()
}

/// Everything one compact-mode call writes, given the cached lines of the
/// previous call: the context lines from the first divergent depth on,
/// then the record's own line at the chain's depth.
pub open spec fn compact_output<D: Decorator>(
    d: D,
    r: RecordView,
    chain: Seq<Seq<PairView>>,
    ts: Seq<char>,
    cache: Seq<Seq<char>>,
) -> Seq<char> {
    let lines = context_lines(d, r.level, chain);
    context_output(lines, divergent_depth(cache, lines)) + record_line_markup(
        d,
        r,
        lines.len(),
        ts,
    )
}

/// The rendered view of a vector of buffered lines.
pub open spec fn lines_view(v: Seq<String>) -> Seq<Seq<char>> {
    v.map_values(|l: String| l@)
}

/// What one call writes on success, by mode.
pub open spec fn format_output<D: Decorator>(
    mode: FormatMode,
    d: D,
    r: RecordView,
    chain: Seq<Seq<PairView>>,
    ts: Seq<char>,
    cache: Seq<Seq<char>>,
) -> Seq<char> {
    match mode {
        FormatMode::Full => full_output(d, r, chain, ts),
        FormatMode::Compact => compact_output(d, r, chain, ts, cache),
    }
}

/// The invariant of the cache lock: any vector of rendered lines may be
/// stored.
pub struct CachePred;

impl RwLockPredicate<Vec<String>> for CachePred {
    open spec fn inv(self, v: Vec<String>) -> bool {
        true
    }
}

/// Html formatter: renders records against their context chains into a
/// sink. In compact mode it owns the cross-record cache of rendered
/// context lines, guarded by a lock so that one formatter may serve
/// concurrent writers; the diff against the cache and its replacement
/// happen in one critical section, and the cache is replaced only after
/// the sink write for the call has succeeded.
pub struct Format<D: Decorator> {
    mode: FormatMode,
    value_stack: RwLock<Vec<String>, CachePred>,
    decorator: D,
    fn_timestamp: Timestamp,
}

/// Writes the heading of a record line: timestamp, padded short level
/// name, message.
fn write_heading<RD: RecordDecorator>(buf: &mut String, rd: &RD, record: &Record, ts: &str)
    ensures
        final(buf)@ == old(buf)@ + heading_markup(*rd, record.level, record.msg@, ts@),
{
    rd.fmt_timestamp(buf, ts);
    let mut lv = String::new();
    lv.append(" ");
    lv.append(record.level.as_short_str());
    lv.append(" ");
    assert(lv@ =~= " "@ + record.level.spec_short_str() + " "@);
    rd.fmt_level(buf, lv.as_str());
    rd.fmt_msg(buf, record.msg.as_str());
    assert(buf@ =~= old(buf)@ + heading_markup(*rd, record.level, record.msg@, ts@));
}

/// Writes every scope's pairs in root-to-leaf order, one separator before
/// each pair.
fn serialize_chain<D: RecordDecorator>(s: &mut Serializer<D>, chain: Option<&Scope>)
    ensures
        final(s).buffered() == old(s).buffered() + comma_chain(
            old(s).spec_decorator(),
            opt_chain_view(chain),
        ),
        final(s).spec_decorator() == old(s).spec_decorator(),
    decreases opt_chain_view(chain).len(),
{
    match chain {
        None => {
            assert(old(s).buffered() + comma_chain(
                old(s).spec_decorator(),
                opt_chain_view(chain),
            ) =~= old(s).buffered());
        },
        Some(scope) => {
            let parent: Option<&Scope> = match &scope.parent {
                Some(p) => Some(&**p),
                None => None,
            };
            proof {
                assert(opt_chain_view(chain) == opt_chain_view(parent).push(
                    pairs_view(scope.values@),
                ));
                assert(opt_chain_view(chain).drop_last() =~= opt_chain_view(parent));
            }
            serialize_chain(s, parent);
            serialize_comma_pairs(s, &scope.values);
            proof {
                let d = old(s).spec_decorator();
                let ch = opt_chain_view(chain);
                assert(ch.last() == pairs_view(scope.values@));
                assert(comma_chain(d, ch) == comma_chain(d, opt_chain_view(parent)) + comma_pairs(
                    d,
                    pairs_view(scope.values@),
                ));
                assert(s.buffered() =~= old(s).buffered() + comma_chain(d, ch));
            }
        },
    }
}

impl<D: Decorator> Format<D> {
    /// The formatting mode of this formatter.
    pub closed spec fn spec_mode(&self) -> FormatMode {
        self.mode
    }

    /// The decorator of this formatter.
    pub closed spec fn spec_decorator(&self) -> D {
        self.decorator
    }

    /// How this formatter produces timestamps.
    pub closed spec fn spec_timestamp(&self) -> Timestamp {
        self.fn_timestamp
    }

    /// Create a new Html formatter. Its compact-mode cache starts empty.
    pub fn new(mode: FormatMode, decorator: D, fn_timestamp: Timestamp) -> (s: Self)
        ensures
            s.spec_mode() == mode,
            s.spec_decorator() == decorator,
            s.spec_timestamp() == fn_timestamp,
    {
        Format {
            mode,
            value_stack: RwLock::new(Vec::new(), Ghost(CachePred)),
            decorator,
            fn_timestamp,
        }
    }

    /// The timestamp text for one record line.
    fn timestamp_text(&self) -> (t: String)
        ensures
            ts_matches(self.spec_timestamp(), t@),
    {
        match &self.fn_timestamp {
            Timestamp::Local => timestamp_local(),
            Timestamp::Utc => timestamp_utc(),
            Timestamp::Custom(s) => s.clone(),
        }
    }

    /// Writes `indent` levels of indentation.
    fn print_indent(&self, io: &mut String, indent: usize)
        ensures
            final(io)@ == old(io)@ + indent_text(indent as nat),
    {
        let mut j: usize = 0;
        while j < indent
            invariant
                j <= indent,
                io@ == old(io)@ + indent_text(j as nat),
            decreases indent - j,
        {
            io.append("  ");
            j = j + 1;
        }
    }

    fn format_full<S: Sink>(
        &self,
        io: &mut S,
        record: &Record,
        logger_values: Option<&Scope>,
    ) -> (r: Result<(), WriteError>)
        ensures
            r is Ok ==> exists|ts: Seq<char>|
                ts_matches(self.spec_timestamp(), ts) && final(io).content() == old(io).content()
                    + full_output(self.spec_decorator(), record@, opt_chain_view(logger_values), ts),
            old(io).infallible() ==> r is Ok,
    {
        let ts = self.timestamp_text();
        let r_decorator = self.decorator.decorate(record);
        let mut buf = String::new();
        buf.append("<pre style=\"margin-bottom:-0.5em\">");
        write_heading(&mut buf, &r_decorator, record, ts.as_str());
        let mut serializer = Serializer::new(buf, r_decorator);
        serialize_chain(&mut serializer, logger_values);
        serialize_comma_pairs(&mut serializer, &record.values);
        let (mut out, _) = serializer.finish();
        out.append("</pre>\n");
        assert(out@ =~= full_output(
            self.spec_decorator(),
            record@,
            opt_chain_view(logger_values),
            ts@,
        ));
        let res = io.write_str(out.as_str());
        proof {
            if res is Ok {
                assert(ts_matches(self.spec_timestamp(), ts@) && io.content() == old(io).content()
                    + full_output(
                    self.spec_decorator(),
                    record@,
                    opt_chain_view(logger_values),
                    ts@,
                ));
            }
        }
        res
    }

    /// Get formatted context lines for the chain ending at
    /// `logger_values`, root first, one line per scope.
    fn record_value_stack(&self, record: &Record, logger_values: Option<&Scope>) -> (stack: Vec<
        String,
    >)
        ensures
            lines_view(stack@) == context_lines(
                self.spec_decorator(),
                record.level,
                opt_chain_view(logger_values),
            ),
        decreases opt_chain_view(logger_values).len(),
    {
        match logger_values {
            None => {
                let stack: Vec<String> = Vec::new();
                assert(lines_view(stack@) =~= context_lines(
                    self.spec_decorator(),
                    record.level,
                    opt_chain_view(logger_values),
                ));
                stack
            },
            Some(scope) => {
                let parent: Option<&Scope> = match &scope.parent {
                    Some(p) => Some(&**p),
                    None => None,
                };
                proof {
                    assert(opt_chain_view(logger_values) == opt_chain_view(parent).push(
                        pairs_view(scope.values@),
                    ));
                }
                let mut stack = self.record_value_stack(record, parent);
                proof {
                    assert(lines_view(stack@) == context_lines(
                        self.spec_decorator(),
                        record.level,
                        opt_chain_view(parent),
                    ));
                    assert(lines_view(stack@).len() == stack@.len());
                    assert(context_lines(
                        self.spec_decorator(),
                        record.level,
                        opt_chain_view(parent),
                    ).len() == opt_chain_view(parent).len());
                    assert(stack@.len() == opt_chain_view(parent).len());
                }
                let r_decorator = self.decorator.decorate(record);
                let mut serializer = Serializer::new(String::new(), r_decorator);
                serialize_pairs(&mut serializer, &scope.values);
                let (line, _) = serializer.finish();
                proof {
                    let rdspec = self.spec_decorator().spec_decorate(record.level);
                    assert(line@ =~= pairs_markup(rdspec, pairs_view(scope.values@)));
                }
                let ghost stack0 = stack@;
                let ghost line0 = line@;
                stack.push(line);
                proof {
                    let dct = self.spec_decorator();
                    let rdspec = dct.spec_decorate(record.level);
                    let full = opt_chain_view(logger_values);
                    let prev = opt_chain_view(parent);
                    assert(full == prev.push(pairs_view(scope.values@)));
                    assert(lines_view(stack@).len() == context_lines(dct, record.level, full).len());
                    assert forall|k: int| 0 <= k < stack@.len() implies lines_view(stack@)[k]
                        == context_lines(dct, record.level, full)[k] by {
                        assert(lines_view(stack@)[k] == stack@[k]@);
                        assert(context_lines(dct, record.level, full)[k] == pairs_markup(
                            rdspec,
                            full[k],
                        ));
                        if k < stack@.len() - 1 {
                            assert(stack@[k] == stack0[k]);
                            assert(full[k] == prev[k]);
                            assert(lines_view(stack0)[k] == context_lines(
                                dct,
                                record.level,
                                prev,
                            )[k]);
                            assert(lines_view(stack0)[k] == stack0[k]@);
                        } else {
                            assert(stack@[k]@ == line0);
                        }
                    }
                    assert(lines_view(stack@) =~= context_lines(dct, record.level, full));
                }
                stack
            },
        }
    }

    fn format_compact<S: Sink>(
        &self,
        io: &mut S,
        record: &Record,
        logger_values: Option<&Scope>,
    ) -> (r: Result<(), WriteError>)
        ensures
            r is Ok ==> exists|ts: Seq<char>, prior: Seq<Seq<char>>|
                ts_matches(self.spec_timestamp(), ts) && final(io).content() == old(io).content()
                    + compact_output(
                    self.spec_decorator(),
                    record@,
                    opt_chain_view(logger_values),
                    ts,
                    prior,
                ),
            old(io).infallible() ==> r is Ok,
    {
        let (value_stack, handle) = self.value_stack.acquire_write();
        let record_value_stack = self.record_value_stack(record, logger_values);
        let ghost cachev = lines_view(value_stack@);
        let ghost linesv = lines_view(record_value_stack@);

        // First depth at which the cache no longer matches the current lines.
        let mut d0: usize = 0;
        while d0 < record_value_stack.len() && d0 < value_stack.len() && value_stack[d0]
            == record_value_stack[d0]
            invariant
                d0 <= record_value_stack.len(),
                d0 <= value_stack.len(),
                cachev == lines_view(value_stack@),
                linesv == lines_view(record_value_stack@),
                forall|j: int|
                    0 <= j < d0 ==> j < cachev.len() && (#[trigger] cachev[j]) == linesv[j],
            decreases record_value_stack.len() - d0,
        {
            d0 = d0 + 1;
        }
        proof {
            assert(linesv.len() == record_value_stack@.len());
            assert(cachev.len() == value_stack@.len());
            assert forall|j: int|
                0 <= j < d0 implies (#[trigger] cachev.take(d0 as int)[j]) == linesv.take(
                d0 as int,
            )[j] by {
                assert(j < cachev.len() && cachev[j] == linesv[j]);
            }
            assert(cachev.take(d0 as int) =~= linesv.take(d0 as int));
            if d0 < record_value_stack.len() && d0 < value_stack.len() {
                assert(cachev[d0 as int] == value_stack@[d0 as int]@);
                assert(linesv[d0 as int] == record_value_stack@[d0 as int]@);
            }
            lemma_divergent_depth_is(cachev, linesv, d0 as int);
        }

        // Context lines from the divergent depth on.
        let mut buf = String::new();
        let mut i: usize = d0;
        while i < record_value_stack.len()
            invariant
                d0 <= i <= record_value_stack.len(),
                linesv == lines_view(record_value_stack@),
                buf@ + context_output(linesv, i as int) == context_output(linesv, d0 as int),
            decreases record_value_stack.len() - i,
        {
            let ghost buf0 = buf@;
            buf.append("<pre style=\"margin-bottom:-0.5em\">");
            self.print_indent(&mut buf, i);
            buf.append(record_value_stack[i].as_str());
            buf.append("</pre>\n");
            proof {
                assert(linesv[i as int] == record_value_stack@[i as int]@);
                assert(buf@ =~= buf0 + (block_open() + indent_text(i as nat) + linesv[i as int]
                    + block_close()));
                assert(buf@ + context_output(linesv, i + 1 as int) =~= buf0 + context_output(
                    linesv,
                    i as int,
                ));
            }
            i = i + 1;
        }

        // The record's own line, at the chain's depth.
        let indent = record_value_stack.len();
        let ts = self.timestamp_text();
        let r_decorator = self.decorator.decorate(record);
        buf.append("<pre style=\"margin-bottom:-0.5em\">");
        self.print_indent(&mut buf, indent);
        write_heading(&mut buf, &r_decorator, record, ts.as_str());
        let mut serializer = Serializer::new(buf, r_decorator);
        serialize_comma_pairs(&mut serializer, &record.values);
        let (mut out, _) = serializer.finish();
        out.append("</pre>\n");
        assert(out@ =~= compact_output(
            self.spec_decorator(),
            record@,
            opt_chain_view(logger_values),
            ts@,
            cachev,
        ));

        // One write for the whole call: the cache is replaced only when the
        // write succeeded, so a failed call leaves the cache of the last
        // successful one.
        let res = io.write_str(out.as_str());
        match res {
            Ok(_) => {
                handle.release_write(record_value_stack);
                proof {
                    assert(ts_matches(self.spec_timestamp(), ts@) && io.content() == old(
                        io,
                    ).content() + compact_output(
                        self.spec_decorator(),
                        record@,
                        opt_chain_view(logger_values),
                        ts@,
                        cachev,
                    ));
                }
                Ok(())
            },
            Err(e) => {
                handle.release_write(value_stack);
                Err(e)
            },
        }
    }

    /// Formats one record against its context chain into `io`, in this
    /// formatter's mode. On success the sink grew by exactly the rendered
    /// markup; on failure the compact-mode cache is left as the last
    /// successful call left it.
    pub fn format<S: Sink>(
        &self,
        io: &mut S,
        record: &Record,
        logger_values: Option<&Scope>,
    ) -> (r: Result<(), WriteError>)
        ensures
            r is Ok ==> exists|ts: Seq<char>, prior: Seq<Seq<char>>|
                ts_matches(self.spec_timestamp(), ts) && final(io).content() == old(io).content()
                    + format_output(
                    self.spec_mode(),
                    self.spec_decorator(),
                    record@,
                    opt_chain_view(logger_values),
                    ts,
                    prior,
                ),
            old(io).infallible() ==> r is Ok,
    {
        match self.mode {
            FormatMode::Compact => {
                let r = self.format_compact(io, record, logger_values);
                proof {
                    if r is Ok {
                        let (ts, prior) = choose|ts: Seq<char>, prior: Seq<Seq<char>>|
                            ts_matches(self.spec_timestamp(), ts) && io.content() == old(
                                io,
                            ).content() + compact_output(
                                self.spec_decorator(),
                                record@,
                                opt_chain_view(logger_values),
                                ts,
                                prior,
                            );
                        assert(ts_matches(self.spec_timestamp(), ts) && io.content() == old(
                            io,
                        ).content() + format_output(
                            self.spec_mode(),
                            self.spec_decorator(),
                            record@,
                            opt_chain_view(logger_values),
                            ts,
                            prior,
                        ));
                    }
                }
                r
            },
            FormatMode::Full => {
                let r = self.format_full(io, record, logger_values);
                proof {
                    if r is Ok {
                        let ts = choose|ts: Seq<char>|
                            ts_matches(self.spec_timestamp(), ts) && io.content() == old(
                                io,
                            ).content() + full_output(
                                self.spec_decorator(),
                                record@,
                                opt_chain_view(logger_values),
                                ts,
                            );
                        let prior = Seq::<Seq<char>>::empty();
                        assert(ts_matches(self.spec_timestamp(), ts) && io.content() == old(
                            io,
                        ).content() + format_output(
                            self.spec_mode(),
                            self.spec_decorator(),
                            record@,
                            opt_chain_view(logger_values),
                            ts,
                            prior,
                        ));
                    }
                }
                r
            },
        }
    }
}

/// The exec diff loop stops at exactly the divergent depth.
proof fn lemma_divergent_depth_is(cache: Seq<Seq<char>>, lines: Seq<Seq<char>>, d: int)
    requires
        0 <= d <= lines.len(),
        d <= cache.len(),
        cache.take(d) == lines.take(d),
        d < lines.len() ==> (d >= cache.len() || cache[d] != lines[d]),
    ensures
        divergent_depth(cache, lines) == d,
    decreases lines.len(),
{
    if lines.len() == 0 {
        assert(d == 0);
    } else if cache.len() == 0 {
        assert(d == 0);
    } else {
        if d > 0 {
            assert(cache.take(d)[0] == lines.take(d)[0]);
            assert(cache[0] == lines[0]);
        }
        if cache[0] != lines[0] {
            assert(d == 0);
        } else {
            assert(d > 0);
            let c2 = cache.drop_first();
            let l2 = lines.drop_first();
            assert forall|j: int| 0 <= j < d - 1 implies (#[trigger] c2.take(d - 1)[j]) == l2.take(
                d - 1,
            )[j] by {
                assert(c2.take(d - 1)[j] == cache[j + 1]);
                assert(cache[j + 1] == cache.take(d)[j + 1]);
                assert(lines[j + 1] == lines.take(d)[j + 1]);
                assert(l2.take(d - 1)[j] == lines[j + 1]);
            }
            assert(c2.take(d - 1) =~= l2.take(d - 1));
            if d - 1 < l2.len() && d - 1 < c2.len() {
                assert(c2[d - 1] == cache[d]);
                assert(l2[d - 1] == lines[d]);
            }
            lemma_divergent_depth_is(c2, l2, d - 1);
        }
    }
}

/// Law (idempotence of unchanged context): a record whose context chain
/// renders exactly the cached lines — as happens when two consecutive
/// records of the same severity share an identical chain — finds no
/// divergent depth, so no context line is re-emitted: the whole output is
/// the record's own line, and the replaced cache is value-identical.
pub proof fn lemma_unchanged_context_emits_nothing<D: Decorator>(
    d: D,
    r: RecordView,
    chain: Seq<Seq<PairView>>,
    ts: Seq<char>,
    cache: Seq<Seq<char>>,
)
    requires
        cache == context_lines(d, r.level, chain),
    ensures
        divergent_depth(cache, context_lines(d, r.level, chain)) == chain.len(),
        compact_output(d, r, chain, ts, cache) == record_line_markup(d, r, chain.len(), ts),
{
    let lines = context_lines(d, r.level, chain);
    assert(lines.len() == chain.len());
    assert(cache.take(lines.len() as int) == lines.take(lines.len() as int));
    lemma_divergent_depth_is(cache, lines, lines.len() as int);
    assert(context_output(lines, lines.len() as int) == Seq::<char>::empty());
    assert(compact_output(d, r, chain, ts, cache) =~= record_line_markup(
        d,
        r,
        chain.len(),
        ts,
    ));
}

/// Law (divergence re-render): when the cache and the current context
/// lines have the same depth, agree strictly below the deepest level and
/// differ at it, exactly one context line — the deepest — is re-emitted
/// before the record's own line; the shallower depths are left alone.
pub proof fn lemma_divergence_rerender<D: Decorator>(
    d: D,
    r: RecordView,
    chain: Seq<Seq<PairView>>,
    ts: Seq<char>,
    cache: Seq<Seq<char>>,
)
    requires
        chain.len() > 0,
        cache.len() == chain.len(),
        cache.take(chain.len() - 1) == context_lines(d, r.level, chain).take(chain.len() - 1),
        cache[chain.len() - 1] != context_lines(d, r.level, chain)[chain.len() - 1],
    ensures
        divergent_depth(cache, context_lines(d, r.level, chain)) == chain.len() - 1,
        compact_output(d, r, chain, ts, cache) == block_open() + indent_text(
            (chain.len() - 1) as nat,
        ) + context_lines(d, r.level, chain).last() + block_close() + record_line_markup(
            d,
            r,
            chain.len(),
            ts,
        ),
{
    let lines = context_lines(d, r.level, chain);
    let n = chain.len() as int;
    assert(lines.len() == n);
    lemma_divergent_depth_is(cache, lines, n - 1);
    assert(context_output(lines, n) == Seq::<char>::empty());
    assert(context_output(lines, n - 1) == block_open() + indent_text((n - 1) as nat) + lines[n
        - 1] + block_close() + context_output(lines, n));
    assert(compact_output(d, r, chain, ts, cache) =~= block_open() + indent_text((n - 1) as nat)
        + lines.last() + block_close() + record_line_markup(d, r, chain.len(), ts));
}

/// Law (depth shrink): when the current context lines are a prefix of the
/// cache — the record returned to a shallower scope whose rendered lines
/// are unchanged — nothing diverges: no context line is emitted and the
/// record's own line stands at the shallower depth.
pub proof fn lemma_depth_shrink<D: Decorator>(
    d: D,
    r: RecordView,
    chain: Seq<Seq<PairView>>,
    ts: Seq<char>,
    cache: Seq<Seq<char>>,
)
    requires
        chain.len() <= cache.len(),
        cache.take(chain.len() as int) == context_lines(d, r.level, chain),
    ensures
        divergent_depth(cache, context_lines(d, r.level, chain)) == chain.len(),
        compact_output(d, r, chain, ts, cache) == record_line_markup(d, r, chain.len(), ts),
{
    let lines = context_lines(d, r.level, chain);
    let n = chain.len() as int;
    assert(lines.len() == n);
    assert(lines.take(n) =~= lines);
    lemma_divergent_depth_is(cache, lines, n);
    assert(context_output(lines, n) == Seq::<char>::empty());
    assert(compact_output(d, r, chain, ts, cache) =~= record_line_markup(d, r, chain.len(), ts));
}

/// Streamer builder
pub struct FormatBuilder {
    mode: FormatMode,
    color_palette: ColorPalette,
    style: StyleTable,
    fn_timestamp: Timestamp,
}

impl FormatBuilder {
    /// The mode the built formatter will use.
    pub closed spec fn spec_mode(&self) -> FormatMode {
        self.mode
    }

    /// The palette the built formatter will use.
    pub closed spec fn spec_color_palette(&self) -> ColorPalette {
        self.color_palette
    }

    /// The style table the built formatter will use.
    pub closed spec fn spec_style(&self) -> StyleTable {
        self.style
    }

    /// How the built formatter will produce timestamps.
    pub closed spec fn spec_timestamp(&self) -> Timestamp {
        self.fn_timestamp
    }

    fn new() -> (b: Self)
        ensures
            b.spec_mode() is Full,
            b.spec_color_palette()@ == crate::color_palette::default_color_palette(),
            b.spec_style()@ == crate::style::default_style_table(),
            b.spec_timestamp() is Local,
    {
        FormatBuilder {
            mode: FormatMode::Full,
            color_palette: ColorPalette::default(),
            style: StyleTable::default(),
            fn_timestamp: Timestamp::Local,
        }
    }

    /// Output using full mode (default)
    pub fn full(self) -> (r: Self)
        ensures
            r.spec_mode() is Full,
            r.spec_color_palette() == self.spec_color_palette(),
            r.spec_style() == self.spec_style(),
            r.spec_timestamp() == self.spec_timestamp(),
    {
        let mut this = self;
        this.mode = FormatMode::Full;
        this
    }

    /// Output using compact mode
    pub fn compact(self) -> (r: Self)
        ensures
            r.spec_mode() is Compact,
            r.spec_color_palette() == self.spec_color_palette(),
            r.spec_style() == self.spec_style(),
            r.spec_timestamp() == self.spec_timestamp(),
    {
        let mut this = self;
        this.mode = FormatMode::Compact;
        this
    }

    /// Use custom color palette
    pub fn color_palette(self, color_palette: ColorPalette) -> (r: Self)
        ensures
            r.spec_mode() == self.spec_mode(),
            r.spec_color_palette() == color_palette,
            r.spec_style() == self.spec_style(),
            r.spec_timestamp() == self.spec_timestamp(),
    {
        let mut this = self;
        this.color_palette = color_palette;
        this
    }

    /// Use custom style for specified element
    pub fn style(self, element: Element, style: Style) -> (r: Self)
        ensures
            r.spec_mode() == self.spec_mode(),
            r.spec_color_palette() == self.spec_color_palette(),
            r.spec_timestamp() == self.spec_timestamp(),
            r.spec_style() == (match element {
                Element::Timestamp => StyleTable { timestamp: style, ..self.spec_style() },
                Element::Message => StyleTable { message: style, ..self.spec_style() },
                Element::Key => StyleTable { key: style, ..self.spec_style() },
                Element::Value => StyleTable { value: style, ..self.spec_style() },
                Element::Separator => StyleTable { separator: style, ..self.spec_style() },
            }),
    {
        let mut this = self;
        match element {
            Element::Timestamp => this.style.timestamp = style,
            Element::Message => this.style.message = style,
            Element::Key => this.style.key = style,
            Element::Value => this.style.value = style,
            Element::Separator => this.style.separator = style,
        }
        this
    }

    /// Use the UTC time zone for the timestamp
    pub fn use_utc_timestamp(self) -> (r: Self)
        ensures
            r.spec_mode() == self.spec_mode(),
            r.spec_color_palette() == self.spec_color_palette(),
            r.spec_style() == self.spec_style(),
            r.spec_timestamp() is Utc,
    {
        let mut this = self;
        this.fn_timestamp = Timestamp::Utc;
        this
    }

    /// Use the local time zone for the timestamp (default)
    pub fn use_local_timestamp(self) -> (r: Self)
        ensures
            r.spec_mode() == self.spec_mode(),
            r.spec_color_palette() == self.spec_color_palette(),
            r.spec_style() == self.spec_style(),
            r.spec_timestamp() is Local,
    {
        let mut this = self;
        this.fn_timestamp = Timestamp::Local;
        this
    }

    /// Provide a custom fixed text for the timestamp
    pub fn use_custom_timestamp(self, timestamp: String) -> (r: Self)
        ensures
            r.spec_mode() == self.spec_mode(),
            r.spec_color_palette() == self.spec_color_palette(),
            r.spec_style() == self.spec_style(),
            r.spec_timestamp() == Timestamp::Custom(timestamp),
    {
        let mut this = self;
        this.fn_timestamp = Timestamp::Custom(timestamp);
        this
    }

    /// Build Html formatter
    pub fn build(self) -> (f: Format<HtmlDecorator>)
        ensures
            f.spec_mode() == self.spec_mode(),
            f.spec_decorator() == (HtmlDecorator {
                color_palette: self.spec_color_palette(),
                style: self.spec_style(),
            }),
            f.spec_timestamp() == self.spec_timestamp(),
    {
        let mode = self.mode;
        let fn_timestamp = self.fn_timestamp;
        let decorator = HtmlDecorator::new(self.color_palette, self.style);
        Format::new(mode, decorator, fn_timestamp)
    }
}

impl Default for FormatBuilder {
    /// A builder for the default formatter: full mode, the built-in
    /// palette and style table, local timestamps.
    fn default() -> (b: Self)
        ensures
            b.spec_mode() is Full,
            b.spec_color_palette()@ == crate::color_palette::default_color_palette(),
            b.spec_style()@ == crate::style::default_style_table(),
            b.spec_timestamp() is Local,
    {
        Self::new()
    }
}

/// Create new `FormatBuilder` to create `Format`
pub fn new() -> (b: FormatBuilder)
    ensures
        b.spec_mode() is Full,
        b.spec_color_palette()@ == crate::color_palette::default_color_palette(),
        b.spec_style()@ == crate::style::default_style_table(),
        b.spec_timestamp() is Local,
{
    FormatBuilder::new()
}

/// Default html `Format`
pub fn default() -> (f: Format<HtmlDecorator>)
    ensures
        f.spec_mode() is Full,
        f.spec_decorator().color_palette@ == crate::color_palette::default_color_palette(),
        f.spec_decorator().style@ == crate::style::default_style_table(),
        f.spec_timestamp() is Local,
{
    FormatBuilder::new().build()
}

} // verus!

