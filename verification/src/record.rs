use vstd::prelude::*;

use std::rc::Rc;

use crate::text::bool_text;
use crate::text::dec_digits;
use crate::text::int_text;

verus! {

/// Severity of a log record: a fixed closed enumeration supplied by the
/// upstream logging pipeline.
#[derive(Clone, Copy, Debug, PartialEq, Eq, Structural)]
pub enum Level {
    /// Critical
    Critical,
    /// Error
    Error,
    /// Warning
    Warning,
    /// Info
    Info,
    /// Debug
    Debug,
    /// Trace
    Trace,
}

impl Level {
    /// The short name of the level, as it appears in a rendered line.
    pub open spec fn spec_short_str(self) -> Seq<char> {
        match self {
            Level::Critical => "CRIT"@,
            Level::Error => "ERRO"@,
            Level::Warning => "WARN"@,
            Level::Info => "INFO"@,
            Level::Debug => "DEBG"@,
            Level::Trace => "TRCE"@,
        }
    }

    /// Short string of the level.
    pub fn as_short_str(&self) -> (r: &'static str)
        ensures
            r@ == self.spec_short_str(),
    {
        match self {
            Level::Critical => "CRIT",
            Level::Error => "ERRO",
            Level::Warning => "WARN",
            Level::Info => "INFO",
            Level::Debug => "DEBG",
            Level::Trace => "TRCE",
        }
    }
}

/// A typed value attached to a key. Every variant reduces to a textual
/// representation; values whose text is produced elsewhere (pre-formatted
/// results, floating point) arrive as `Str`.
#[derive(Clone, Debug, PartialEq)]
pub enum Value {
    /// An absent value, shown as `None`
    Absent,
    /// The unit value, shown as `()`
    Unit,
    /// A boolean
    Bool(bool),
    /// A character
    Char(char),
    /// A pointer-sized unsigned integer
    Usize(usize),
    /// A pointer-sized signed integer
    Isize(isize),
    /// An 8-bit unsigned integer
    U8(u8),
    /// An 8-bit signed integer
    I8(i8),
    /// A 16-bit unsigned integer
    U16(u16),
    /// A 16-bit signed integer
    I16(i16),
    /// A 32-bit unsigned integer
    U32(u32),
    /// A 32-bit signed integer
    I32(i32),
    /// A 64-bit unsigned integer
    U64(u64),
    /// A 64-bit signed integer
    I64(i64),
    /// Text: a string value, or any value already reduced to text
    Str(String),
}

impl View for Value {
    type V = Seq<char>;

    /// The textual representation of the value.
    open spec fn view(&self) -> Seq<char> {
        match self {
            Value::Absent => "None"@,
            Value::Unit => "()"@,
            Value::Bool(b) => bool_text(*b),
            Value::Char(c) => seq![*c],
            Value::Usize(v) => dec_digits(*v as nat),
            Value::Isize(v) => int_text(*v as int),
            Value::U8(v) => dec_digits(*v as nat),
            Value::I8(v) => int_text(*v as int),
            Value::U16(v) => dec_digits(*v as nat),
            Value::I16(v) => int_text(*v as int),
            Value::U32(v) => dec_digits(*v as nat),
            Value::I32(v) => int_text(*v as int),
            Value::U64(v) => dec_digits(*v as nat),
            Value::I64(v) => int_text(*v as int),
            Value::Str(s) => s@,
        }
    }
}

/// A key/value pair in its model form: the key's characters and the
/// value's textual representation.
pub type PairView = (Seq<char>, Seq<char>);

/// The model of a sequence of owned key/value pairs.
pub open spec fn pairs_view(pairs: Seq<(String, Value)>) -> Seq<PairView> {
    pairs.map_values(|p: (String, Value)| (p.0@, p.1@))
}

/// One log record: a severity level, a message, and the record's own
/// ordered key/value pairs. Read-only to this crate.
#[derive(Clone, Debug)]
pub struct Record {
    /// Severity of the record
    pub level: Level,
    /// The message
    pub msg: String,
    /// The record's own key/value pairs, in order
    pub values: Vec<(String, Value)>,
}

/// Mathematical model of a `Record`.
pub struct RecordView {
    /// Severity of the record
    pub level: Level,
    /// The message's characters
    pub msg: Seq<char>,
    /// The record's own pairs
    pub values: Seq<PairView>,
}

impl View for Record {
    type V = RecordView;

    open spec fn view(&self) -> RecordView {
        RecordView { level: self.level, msg: self.msg@, values: pairs_view(self.values@) }
    }
}

/// One nesting scope of logging context: the scope's own ordered
/// key/value pairs and a shared reference to its parent scope, or none at
/// the root. The chain is immutable once built; ancestors may be shared
/// between many chains.
#[derive(Clone, Debug)]
pub struct Scope {
    /// This scope's own key/value pairs, in order
    pub values: Vec<(String, Value)>,
    /// The enclosing scope, or none at the root
    pub parent: Option<Rc<Scope>>,
}

/// The scopes of the chain ending at `s`, root first: element `i` holds
/// the pairs of the scope at nesting depth `i`.
pub open spec fn chain_view(s: Scope) -> Seq<Seq<PairView>>
    decreases s,
{
    let own = pairs_view(s.values@);
    match s.parent {
        Some(p) => chain_view(*p).push(own),
        None => seq![own],
    }
}

impl View for Scope {
    type V = Seq<Seq<PairView>>;

    open spec fn view(&self) -> Seq<Seq<PairView>> {
        chain_view(*self)
    }
}

/// The model of an optional chain: no chain at all yields no scopes.
pub open spec fn opt_chain_view(chain: Option<&Scope>) -> Seq<Seq<PairView>> {
    match chain {
        Some(s) => chain_view(*s),
        None => Seq::empty(),
    }
}

impl Scope {
    /// A root scope holding `values`.
    pub fn root(values: Vec<(String, Value)>) -> (s: Self)
        ensures
            s@ == seq![pairs_view(values@)],
    {
        Scope { values, parent: None }
    }

    /// A scope holding `values` nested inside `parent`.
    pub fn child(values: Vec<(String, Value)>, parent: Rc<Scope>) -> (s: Self)
        ensures
            s@ == parent@.push(pairs_view(values@)),
    {
        Scope { values, parent: Some(parent) }
    }
}

} // verus!
