use vstd::prelude::*;

use crate::decorator::RecordDecorator;
use crate::record::PairView;
use crate::record::Value;
use crate::record::pairs_view;
use crate::text::push_i64;
use crate::text::push_u64;

verus! {

/// One rendered `key: value` span: the key, a `": "` separator and the
/// value's text, each through its own element markup.
pub open spec fn kv_markup<D: RecordDecorator>(d: D, key: Seq<char>, text: Seq<char>) -> Seq<char> {
    d.key_markup(key) + d.separator_markup(": "@) + d.value_markup(text)
}

/// Pairs rendered with a `", "` separator element between successive
/// entries: `N` entries are joined by exactly `max(N - 1, 0)` separators.
pub open spec fn pairs_markup<D: RecordDecorator>(d: D, pairs: Seq<PairView>) -> Seq<char>
    decreases pairs.len(),
{
    if pairs.len() == 0 {
        Seq::<char>::empty()
    } else if pairs.len() == 1 {
        kv_markup(d, pairs[0].0, pairs[0].1)
    } else {
        pairs_markup(d, pairs.drop_last()) + d.separator_markup(", "@) + kv_markup(
            d,
            pairs.last().0,
            pairs.last().1,
        )
    }
}

/// Pairs each rendered behind a `", "` separator element: what a record
/// line appends after its message, the message standing as the entry
/// before the first separator.
pub open spec fn comma_pairs<D: RecordDecorator>(d: D, pairs: Seq<PairView>) -> Seq<char>
    decreases pairs.len(),
{
    if pairs.len() == 0 {
        Seq::<char>::empty()
    } else {
        comma_pairs(d, pairs.drop_last()) + d.separator_markup(", "@) + kv_markup(
            d,
            pairs.last().0,
            pairs.last().1,
        )
    }
}

/// The rendering of `pairs` cut into its segments: entry and separator
/// elements alternating, entries at even positions, one separator before
/// every entry but the first.
pub open spec fn pairs_segments<D: RecordDecorator>(d: D, pairs: Seq<PairView>) -> Seq<Seq<char>>
    decreases pairs.len(),
{
    if pairs.len() == 0 {
        Seq::<Seq<char>>::empty()
    } else if pairs.len() == 1 {
        seq![kv_markup(d, pairs[0].0, pairs[0].1)]
    } else {
        pairs_segments(d, pairs.drop_last()) + seq![
            d.separator_markup(", "@),
            kv_markup(d, pairs.last().0, pairs.last().1),
        ]
    }
}

/// Law (separator count): serializing `N` key/value pairs emits exactly
/// `max(N - 1, 0)` separator elements, whatever the value types mixed.
/// The rendering is the flattening of `2 * N - 1` alternating segments
/// (none when `N == 0`): the `i`-th pair's span at every even position
/// `2 * i`, one separator element at every odd position.
pub proof fn lemma_separator_count<D: RecordDecorator>(d: D, pairs: Seq<PairView>)
    ensures
        pairs_markup(d, pairs) == pairs_segments(d, pairs).flatten(),
        pairs_segments(d, pairs).len() == (if pairs.len() == 0 {
            0int
        } else {
            2 * pairs.len() - 1
        }),
        forall|i: int|
            0 <= i < pairs_segments(d, pairs).len() && i % 2 == 1 ==> (#[trigger] pairs_segments(
                d,
                pairs,
            )[i]) == d.separator_markup(", "@),
        forall|i: int|
            0 <= i < pairs_segments(d, pairs).len() && i % 2 == 0 ==> (#[trigger] pairs_segments(
                d,
                pairs,
            )[i]) == kv_markup(d, pairs[i / 2].0, pairs[i / 2].1),
    decreases pairs.len(),
{
    broadcast use Seq::lemma_flatten_singleton;

    let segs = pairs_segments(d, pairs);
    if pairs.len() == 0 {
        assert(segs.flatten() =~= pairs_markup(d, pairs));
    } else if pairs.len() == 1 {
        assert(segs.flatten() =~= kv_markup(d, pairs[0].0, pairs[0].1));
    } else {
        lemma_separator_count(d, pairs.drop_last());
        let a = pairs_segments(d, pairs.drop_last());
        let sep = d.separator_markup(", "@);
        let kv = kv_markup(d, pairs.last().0, pairs.last().1);
        let b = seq![sep, kv];
        vstd::seq_lib::lemma_flatten_concat(a, b);
        assert(b.drop_first() =~= seq![kv]);
        assert(b.flatten() == sep + seq![kv].flatten());
        assert(b.flatten() =~= sep + kv);
        assert(segs.flatten() =~= pairs_markup(d, pairs));
        assert forall|i: int| 0 <= i < segs.len() && i % 2 == 1 implies (#[trigger] segs[i])
            == d.separator_markup(", "@) by {
            if i < a.len() {
                assert(segs[i] == a[i]);
            } else {
                assert(i == a.len());
            }
        }
        assert forall|i: int| 0 <= i < segs.len() && i % 2 == 0 implies (#[trigger] segs[i])
            == kv_markup(d, pairs[i / 2].0, pairs[i / 2].1) by {
            if i < a.len() {
                assert(segs[i] == a[i]);
                assert(pairs.drop_last()[i / 2] == pairs[i / 2]);
            } else {
                assert(i == a.len() + 1);
                assert(i / 2 == pairs.len() - 1);
            }
        }
    }
}

/// Converts typed key/value pairs into rendered `key: value` spans
/// through a record decorator, buffering the output.
pub struct Serializer<D: RecordDecorator> {
    io: String,
    decorator: D,
}

impl<D: RecordDecorator> Serializer<D> {
    /// Everything written into the buffer so far.
    pub closed spec fn buffered(&self) -> Seq<char> {
        self.io@
    }

    /// The record decorator written through.
    pub closed spec fn spec_decorator(&self) -> D {
        self.decorator
    }

    /// A serializer over the buffer `io`, writing through `d`.
    pub fn new(io: String, d: D) -> (s: Self)
        ensures
            s.buffered() == io@,
            s.spec_decorator() == d,
    {
        Serializer { io, decorator: d }
    }

    /// Writes one `", "` separator element.
    pub fn print_comma(&mut self)
        ensures
            final(self).buffered() == old(self).buffered() + old(self).spec_decorator().separator_markup(", "@),
            final(self).spec_decorator() == old(self).spec_decorator(),
    {
        self.decorator.fmt_separator(&mut self.io, ", ");
    }

    /// Hands the buffer and the decorator back.
    pub fn finish(self) -> (r: (String, D))
        ensures
            r.0@ == self.buffered(),
            r.1 == self.spec_decorator(),
    {
        (self.io, self.decorator)
    }

    fn emit(&mut self, key: &str, text: &str)
        ensures
            final(self).buffered() == old(self).buffered() + kv_markup(
                old(self).spec_decorator(),
                key@,
                text@,
            ),
            final(self).spec_decorator() == old(self).spec_decorator(),
    {
        self.decorator.fmt_key(&mut self.io, key);
        self.decorator.fmt_separator(&mut self.io, ": ");
        self.decorator.fmt_value(&mut self.io, text);
        assert(self.io@ =~= old(self).io@ + kv_markup(self.decorator, key@, text@));
    }

    /// Writes `key` with an absent value.
    pub fn emit_none(&mut self, key: &str)
        ensures
            final(self).buffered() == old(self).buffered() + kv_markup(
                old(self).spec_decorator(),
                key@,
                "None"@,
            ),
            final(self).spec_decorator() == old(self).spec_decorator(),
    {
        self.emit(key, "None");
    }

    /// Writes `key` with the unit value.
    pub fn emit_unit(&mut self, key: &str)
        ensures
            final(self).buffered() == old(self).buffered() + kv_markup(
                old(self).spec_decorator(),
                key@,
                "()"@,
            ),
            final(self).spec_decorator() == old(self).spec_decorator(),
    {
        self.emit(key, "()");
    }

    /// Writes `key` with a boolean value.
    pub fn emit_bool(&mut self, key: &str, val: bool)
        ensures
            final(self).buffered() == old(self).buffered() + kv_markup(
                old(self).spec_decorator(),
                key@,
                crate::text::bool_text(val),
            ),
            final(self).spec_decorator() == old(self).spec_decorator(),
    {
        if val {
            self.emit(key, "true");
        } else {
            self.emit(key, "false");
        }
    }

    /// Writes `key` with a character value.
    pub fn emit_char(&mut self, key: &str, val: char)
        ensures
            final(self).buffered() == old(self).buffered() + kv_markup(
                old(self).spec_decorator(),
                key@,
                seq![val],
            ),
            final(self).spec_decorator() == old(self).spec_decorator(),
    {
        let mut t = String::new();
        t.push(val);
        self.emit(key, t.as_str());
    }

    fn emit_u64_text(&mut self, key: &str, val: u64)
        ensures
            final(self).buffered() == old(self).buffered() + kv_markup(
                old(self).spec_decorator(),
                key@,
                crate::text::dec_digits(val as nat),
            ),
            final(self).spec_decorator() == old(self).spec_decorator(),
    {
        let mut t = String::new();
        push_u64(&mut t, val);
        self.emit(key, t.as_str());
    }

    fn emit_i64_text(&mut self, key: &str, val: i64)
        ensures
            final(self).buffered() == old(self).buffered() + kv_markup(
                old(self).spec_decorator(),
                key@,
                crate::text::int_text(val as int),
            ),
            final(self).spec_decorator() == old(self).spec_decorator(),
    {
        let mut t = String::new();
        push_i64(&mut t, val);
        self.emit(key, t.as_str());
    }

    /// Writes `key` with a pointer-sized unsigned value.
    pub fn emit_usize(&mut self, key: &str, val: usize)
        ensures
            final(self).buffered() == old(self).buffered() + kv_markup(
                old(self).spec_decorator(),
                key@,
                crate::text::dec_digits(val as nat),
            ),
            final(self).spec_decorator() == old(self).spec_decorator(),
    {
        self.emit_u64_text(key, val as u64);
    }

    /// Writes `key` with a pointer-sized signed value.
    pub fn emit_isize(&mut self, key: &str, val: isize)
        ensures
            final(self).buffered() == old(self).buffered() + kv_markup(
                old(self).spec_decorator(),
                key@,
                crate::text::int_text(val as int),
            ),
            final(self).spec_decorator() == old(self).spec_decorator(),
    {
        self.emit_i64_text(key, val as i64);
    }

    /// Writes `key` with an 8-bit unsigned value.
    pub fn emit_u8(&mut self, key: &str, val: u8)
        ensures
            final(self).buffered() == old(self).buffered() + kv_markup(
                old(self).spec_decorator(),
                key@,
                crate::text::dec_digits(val as nat),
            ),
            final(self).spec_decorator() == old(self).spec_decorator(),
    {
        self.emit_u64_text(key, val as u64);
    }

    /// Writes `key` with an 8-bit signed value.
    pub fn emit_i8(&mut self, key: &str, val: i8)
        ensures
            final(self).buffered() == old(self).buffered() + kv_markup(
                old(self).spec_decorator(),
                key@,
                crate::text::int_text(val as int),
            ),
            final(self).spec_decorator() == old(self).spec_decorator(),
    {
        self.emit_i64_text(key, val as i64);
    }

    /// Writes `key` with a 16-bit unsigned value.
    pub fn emit_u16(&mut self, key: &str, val: u16)
        ensures
            final(self).buffered() == old(self).buffered() + kv_markup(
                old(self).spec_decorator(),
                key@,
                crate::text::dec_digits(val as nat),
            ),
            final(self).spec_decorator() == old(self).spec_decorator(),
    {
        self.emit_u64_text(key, val as u64);
    }

    /// Writes `key` with a 16-bit signed value.
    pub fn emit_i16(&mut self, key: &str, val: i16)
        ensures
            final(self).buffered() == old(self).buffered() + kv_markup(
                old(self).spec_decorator(),
                key@,
                crate::text::int_text(val as int),
            ),
            final(self).spec_decorator() == old(self).spec_decorator(),
    {
        self.emit_i64_text(key, val as i64);
    }

    /// Writes `key` with a 32-bit unsigned value.
    pub fn emit_u32(&mut self, key: &str, val: u32)
        ensures
            final(self).buffered() == old(self).buffered() + kv_markup(
                old(self).spec_decorator(),
                key@,
                crate::text::dec_digits(val as nat),
            ),
            final(self).spec_decorator() == old(self).spec_decorator(),
    {
        self.emit_u64_text(key, val as u64);
    }

    /// Writes `key` with a 32-bit signed value.
    pub fn emit_i32(&mut self, key: &str, val: i32)
        ensures
            final(self).buffered() == old(self).buffered() + kv_markup(
                old(self).spec_decorator(),
                key@,
                crate::text::int_text(val as int),
            ),
            final(self).spec_decorator() == old(self).spec_decorator(),
    {
        self.emit_i64_text(key, val as i64);
    }

    /// Writes `key` with a 64-bit unsigned value.
    pub fn emit_u64(&mut self, key: &str, val: u64)
        ensures
            final(self).buffered() == old(self).buffered() + kv_markup(
                old(self).spec_decorator(),
                key@,
                crate::text::dec_digits(val as nat),
            ),
            final(self).spec_decorator() == old(self).spec_decorator(),
    {
        self.emit_u64_text(key, val);
    }

    /// Writes `key` with a 64-bit signed value.
    pub fn emit_i64(&mut self, key: &str, val: i64)
        ensures
            final(self).buffered() == old(self).buffered() + kv_markup(
                old(self).spec_decorator(),
                key@,
                crate::text::int_text(val as int),
            ),
            final(self).spec_decorator() == old(self).spec_decorator(),
    {
        self.emit_i64_text(key, val);
    }

    /// Writes `key` with a string value.
    pub fn emit_str(&mut self, key: &str, val: &str)
        ensures
            final(self).buffered() == old(self).buffered() + kv_markup(
                old(self).spec_decorator(),
                key@,
                val@,
            ),
            final(self).spec_decorator() == old(self).spec_decorator(),
    {
        self.emit(key, val);
    }

    /// Writes `key` with a value already formatted elsewhere.
    pub fn emit_arguments(&mut self, key: &str, val: &str)
        ensures
            final(self).buffered() == old(self).buffered() + kv_markup(
                old(self).spec_decorator(),
                key@,
                val@,
            ),
            final(self).spec_decorator() == old(self).spec_decorator(),
    {
        self.emit(key, val);
    }
}

impl Value {
    /// Writes `key` with this value, reduced to its textual
    /// representation, through the serializer's one emit path.
    pub fn serialize<D: RecordDecorator>(&self, key: &str, serializer: &mut Serializer<D>)
        ensures
            final(serializer).buffered() == old(serializer).buffered() + kv_markup(
                old(serializer).spec_decorator(),
                key@,
                self@,
            ),
            final(serializer).spec_decorator() == old(serializer).spec_decorator(),
    {
        match self {
            Value::Absent => serializer.emit_none(key),
            Value::Unit => serializer.emit_unit(key),
            Value::Bool(b) => serializer.emit_bool(key, *b),
            Value::Char(c) => serializer.emit_char(key, *c),
            Value::Usize(v) => serializer.emit_usize(key, *v),
            Value::Isize(v) => serializer.emit_isize(key, *v),
            Value::U8(v) => serializer.emit_u8(key, *v),
            Value::I8(v) => serializer.emit_i8(key, *v),
            Value::U16(v) => serializer.emit_u16(key, *v),
            Value::I16(v) => serializer.emit_i16(key, *v),
            Value::U32(v) => serializer.emit_u32(key, *v),
            Value::I32(v) => serializer.emit_i32(key, *v),
            Value::U64(v) => serializer.emit_u64(key, *v),
            Value::I64(v) => serializer.emit_i64(key, *v),
            Value::Str(s) => serializer.emit_str(key, s.as_str()),
        }
    }
}

/// Writes `pairs` with a `", "` separator element between successive
/// entries: the first entry bare, every later one behind one separator.
pub fn serialize_pairs<D: RecordDecorator>(s: &mut Serializer<D>, pairs: &Vec<(String, Value)>)
    ensures
        final(s).buffered() == old(s).buffered() + pairs_markup(
            old(s).spec_decorator(),
            pairs_view(pairs@),
        ),
        final(s).spec_decorator() == old(s).spec_decorator(),
{
    let ghost pv = pairs_view(pairs@);
    let mut i: usize = 0;
    while i < pairs.len()
        invariant
            i <= pairs.len(),
            pv == pairs_view(pairs@),
            pv.len() == pairs@.len(),
            s.spec_decorator() == old(s).spec_decorator(),
            s.buffered() == old(s).buffered() + pairs_markup(s.spec_decorator(), pv.take(i as int)),
        decreases pairs.len() - i,
    {
        if i > 0 {
            s.print_comma();
        }
        let pair = &pairs[i];
        pair.1.serialize(pair.0.as_str(), s);
        proof {
            assert(pv.take(i + 1 as int).drop_last() =~= pv.take(i as int));
            assert(pv.take(i + 1 as int).last() == pv[i as int]);
            assert(pv[i as int] == (pairs@[i as int].0@, pairs@[i as int].1@));
        }
        i = i + 1;
    }
    proof {
        assert(pv.take(pairs@.len() as int) =~= pv);
    }
}

/// Writes `pairs`, each entry behind one `", "` separator element.
pub fn serialize_comma_pairs<D: RecordDecorator>(
    s: &mut Serializer<D>,
    pairs: &Vec<(String, Value)>,
)
    ensures
        final(s).buffered() == old(s).buffered() + comma_pairs(
            old(s).spec_decorator(),
            pairs_view(pairs@),
        ),
        final(s).spec_decorator() == old(s).spec_decorator(),
{
    let ghost pv = pairs_view(pairs@);
    let mut i: usize = 0;
    while i < pairs.len()
        invariant
            i <= pairs.len(),
            pv == pairs_view(pairs@),
            pv.len() == pairs@.len(),
            s.spec_decorator() == old(s).spec_decorator(),
            s.buffered() == old(s).buffered() + comma_pairs(s.spec_decorator(), pv.take(i as int)),
        decreases pairs.len() - i,
    {
        s.print_comma();
        let pair = &pairs[i];
        pair.1.serialize(pair.0.as_str(), s);
        proof {
            assert(pv.take(i + 1 as int).drop_last() =~= pv.take(i as int));
            assert(pv.take(i + 1 as int).last() == pv[i as int]);
            assert(pv[i as int] == (pairs@[i as int].0@, pairs@[i as int].1@));
        }
        i = i + 1;
    }
    proof {
        assert(pv.take(pairs@.len() as int) =~= pv);
    }
}

} // verus!
