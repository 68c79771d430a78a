//! The protocol-buffer wire format used for message bodies: base-128
//! varints and the field records built from them, with encoders, a parser,
//! and the round-trip laws connecting them.

use vstd::prelude::*;

use crate::frame::copy_range;

verus! {

/// The base-128 bytes of a value: seven bits per byte, least significant
/// group first, with the high bit marking continuation.
pub open spec fn varint_bytes(v: u64) -> Seq<u8>
    decreases v,
{
    if v < 0x80 {
        seq![v as u8]
    } else {
        seq![(v % 0x80 + 0x80) as u8] + varint_bytes(v / 0x80)
    }
}

/// Append the varint encoding of a value to a buffer.
pub fn push_varint(buf: &mut Vec<u8>, v: u64)
    ensures
        final(buf)@ == old(buf)@ + varint_bytes(v),
{
    let mut x = v;
    while x >= 0x80
        invariant
            buf@ + varint_bytes(x) == old(buf)@ + varint_bytes(v),
        decreases x,
    {
        let ghost bpre = buf@;
        let ghost xpre = x;
        buf.push((x % 0x80 + 0x80) as u8);
        x = x / 0x80;
        proof {
            assert(varint_bytes(xpre) == seq![(xpre % 0x80 + 0x80) as u8] + varint_bytes(x));
            assert(buf@ + varint_bytes(x) =~= bpre + varint_bytes(xpre));
        }
    }
    buf.push(x as u8);
    proof {
        assert(varint_bytes(x) == seq![x as u8]);
        assert(final(buf)@ =~= old(buf)@ + varint_bytes(v));
    }
}

/// The parse of one varint starting at `pos`: its value and the position
/// after it. Refuses truncated input, values past 64 bits, and non-minimal
/// encodings, so a parsed varint always re-encodes to the same bytes.
pub open spec fn spec_parse_varint(b: Seq<u8>, pos: int) -> Option<(u64, int)>
    decreases b.len() - pos,
{
    if pos < 0 || pos >= b.len() {
        Option::None
    } else if b[pos] < 0x80 {
        Option::Some((b[pos] as u64, pos + 1))
    } else {
        match spec_parse_varint(b, pos + 1) {
            Option::None => Option::None,
            Option::Some((hi, end)) => {
                if hi == 0 || hi > 0x1FFFFFFFFFFFFFF {
                    Option::None
                } else {
                    Option::Some(((hi * 0x80 + (b[pos] - 0x80)) as u64, end))
                }
            },
        }
    }
}

/// A parsed varint re-encodes to exactly the bytes it was parsed from.
pub proof fn lemma_parse_varint_sound(b: Seq<u8>, pos: int)
    requires
        spec_parse_varint(b, pos) is Some,
    ensures
        ({
            let (v, end) = spec_parse_varint(b, pos)->Some_0;
            &&& pos < end <= b.len()
            &&& b.subrange(pos, end) == varint_bytes(v)
        }),
    decreases b.len() - pos,
{
    let (v, end) = spec_parse_varint(b, pos)->Some_0;
    if b[pos] < 0x80 {
        assert(b.subrange(pos, end) =~= seq![b[pos]]);
    } else {
        lemma_parse_varint_sound(b, pos + 1);
        let (hi, _) = spec_parse_varint(b, pos + 1)->Some_0;
        assert(v >= 0x80) by {
            assert(hi >= 1);
        }
        assert(v % 0x80 == b[pos] - 0x80 && v / 0x80 == hi) by {
            assert(v == hi * 0x80 + (b[pos] - 0x80));
            vstd::arithmetic::div_mod::lemma_fundamental_div_mod_converse(
                v as int,
                0x80,
                hi as int,
                b[pos] - 0x80,
            );
        }
        assert(b.subrange(pos, end) =~= seq![b[pos]] + b.subrange(pos + 1, end));
        assert(varint_bytes(v) == seq![(v % 0x80 + 0x80) as u8] + varint_bytes(v / 0x80));
    }
}

/// Any buffer that starts with the encoding of a value parses to that value.
pub proof fn lemma_parse_varint_complete(b: Seq<u8>, pos: int, v: u64)
    requires
        0 <= pos,
        pos + varint_bytes(v).len() <= b.len(),
        b.subrange(pos, pos + varint_bytes(v).len()) == varint_bytes(v),
    ensures
        spec_parse_varint(b, pos) == Some((v, pos + varint_bytes(v).len())),
    decreases v,
{
    let n = varint_bytes(v).len();
    if v < 0x80 {
        assert(b[pos] == varint_bytes(v)[0]);
    } else {
        let rest = varint_bytes(v / 0x80);
        assert(b[pos] == varint_bytes(v)[0]);
        assert(b[pos] == v % 0x80 + 0x80);
        assert(b.subrange(pos + 1, pos + n) =~= rest) by {
            assert(forall|i: int|
                0 <= i < rest.len() ==> b.subrange(pos, pos + n)[i + 1] == rest[i]);
        }
        lemma_parse_varint_complete(b, pos + 1, v / 0x80);
        let hi = v / 0x80;
        assert(hi >= 1);
        assert(hi <= 0x1FFFFFFFFFFFFFF);
        assert(hi * 0x80 + (b[pos] - 0x80) == v) by {
            vstd::arithmetic::div_mod::lemma_fundamental_div_mod(v as int, 0x80);
        }
    }
}

/// Parse one varint at `pos`, as the specification parser does.
pub fn parse_varint(bytes: &Vec<u8>, pos: usize) -> (r: Option<(u64, usize)>)
    requires
        pos <= bytes@.len(),
    ensures
        match r {
            Option::Some((v, end)) => spec_parse_varint(bytes@, pos as int) == Some(
                (v, end as int),
            ) && pos < end <= bytes@.len(),
            Option::None => spec_parse_varint(bytes@, pos as int) is None,
        },
{
    let n = bytes.len();
    // Find the closing byte of the varint region: the first byte without
    // the continuation bit.
    let mut last: usize = pos;
    while last < n && bytes[last] >= 0x80
        invariant
            pos <= last <= n,
            n == bytes@.len(),
            forall|i: int| pos <= i < last ==> bytes@[i] >= 0x80,
        decreases n - last,
    {
        last = last + 1;
    }
    if last == n {
        // Every position from `pos` on carries a continuation bit, so the
        // specification parser runs off the end and refuses.
        proof {
            lemma_parse_varint_none_when_unterminated(bytes@, pos as int, pos as int);
        }
        return Option::None;
    }
    // Build the value from the closing byte backwards; at each step the
    // value so far is what the specification parser yields at that position.
    let mut v: u64 = bytes[last] as u64;
    let mut i: usize = last;
    while i > pos
        invariant
            pos <= i <= last < n,
            n == bytes@.len(),
            forall|j: int| pos <= j < last ==> bytes@[j] >= 0x80,
            bytes@[last as int] < 0x80,
            spec_parse_varint(bytes@, i as int) == Some((v, last + 1 as int)),
        decreases i - pos,
    {
        if v == 0 || v > 0x1FFFFFFFFFFFFFF {
            proof {
                lemma_parse_varint_none_when_bad_hi(bytes@, pos as int, i as int, v);
            }
            return Option::None;
        }
        i = i - 1;
        v = v * 0x80 + (bytes[i] - 0x80) as u64;
    }
    Option::Some((v, last + 1))
}

/// When no byte from `pos` onward closes the varint, parsing fails at every
/// position of the run.
proof fn lemma_parse_varint_none_when_unterminated(b: Seq<u8>, p: int, start: int)
    requires
        0 <= start <= p <= b.len(),
        forall|i: int| start <= i < b.len() ==> b[i] >= 0x80,
    ensures
        spec_parse_varint(b, p) is None,
    decreases b.len() - p,
{
    if p < b.len() {
        lemma_parse_varint_none_when_unterminated(b, p + 1, start);
    }
}

/// When the value parsed after a continuation byte is zero or too large to
/// shift, parsing fails at every earlier position of the run.
proof fn lemma_parse_varint_none_when_bad_hi(b: Seq<u8>, start: int, i: int, v: u64)
    requires
        0 <= start < i <= b.len(),
        forall|j: int| start <= j < i ==> b[j] >= 0x80,
        spec_parse_varint(b, i) is Some,
        spec_parse_varint(b, i)->Some_0.0 == v,
        v == 0 || v > 0x1FFFFFFFFFFFFFF,
    ensures
        spec_parse_varint(b, start) is None,
{
    assert(spec_parse_varint(b, i - 1) is None);
    lemma_parse_varint_none_at(b, start, i - 1);
}

/// When parsing fails at a position inside a continuation run, it fails at
/// every earlier position of the run as well.
proof fn lemma_parse_varint_none_at(b: Seq<u8>, start: int, i: int)
    requires
        0 <= start <= i <= b.len(),
        forall|j: int| start <= j < i ==> b[j] >= 0x80,
        spec_parse_varint(b, i) is None,
    ensures
        spec_parse_varint(b, start) is None,
    decreases i - start,
{
    if start < i {
        lemma_parse_varint_none_at(b, start, i - 1);
    }
}


/// A protocol-buffer field value at the specification level.
pub enum FieldV {
    /// A varint field.
    VInt(u64),
    /// A length-delimited field: bytes, a string, or a nested message.
    VBytes(Seq<u8>),
}

/// A protocol-buffer field value.
#[derive(Debug, Clone)]
pub enum FieldValue {
    /// A varint field.
    VInt(u64),
    /// A length-delimited field: bytes, a string, or a nested message.
    VBytes(Vec<u8>),
}

impl FieldValue {
    /// The specification-level value of this field.
    pub open spec fn fv(self) -> FieldV {
        match self {
            FieldValue::VInt(x) => FieldV::VInt(x),
            FieldValue::VBytes(p) => FieldV::VBytes(p@),
        }
    }
}

/// The specification-level values of a field list.
pub open spec fn fields_view(s: Seq<(u32, FieldValue)>) -> Seq<(u32, FieldV)> {
    s.map_values(|p: (u32, FieldValue)| (p.0, p.1.fv()))
}

/// A usable field: the field number is in the protocol-buffer range and a
/// length-delimited payload fits its length prefix comfortably.
pub open spec fn field_wf(f: u32, v: FieldV) -> bool {
    &&& 1 <= f <= 0x1FFFFFFF
    &&& match v {
        FieldV::VInt(_) => true,
        FieldV::VBytes(p) => p.len() <= 0xFFFFFFFF,
    }
}

/// Every field of the list is usable.
pub open spec fn fields_wf(fs: Seq<(u32, FieldV)>) -> bool {
    forall|i: int| 0 <= i < fs.len() ==> #[trigger] field_wf(fs[i].0, fs[i].1)
}

/// The key varint value of a field: its number and wire type packed together.
pub open spec fn field_key(f: u32, wt: u64) -> u64 {
    ((f as u64) * 8 + wt) as u64
}

/// The wire bytes of one field: its key varint (field number and wire
/// type), then the value.
pub open spec fn field_bytes(f: u32, v: FieldV) -> Seq<u8> {
    match v {
        FieldV::VInt(x) => varint_bytes(field_key(f, 0)) + varint_bytes(x),
        FieldV::VBytes(p) => varint_bytes(field_key(f, 2)) + varint_bytes(p.len() as u64) + p,
    }
}

/// The wire bytes of a message body: its fields in order.
pub open spec fn fields_bytes(fs: Seq<(u32, FieldV)>) -> Seq<u8>
    decreases fs.len(),
{
    if fs.len() == 0 {
        Seq::empty()
    } else {
        field_bytes(fs.first().0, fs.first().1) + fields_bytes(fs.drop_first())
    }
}

/// A varint occupies at least one byte.
pub proof fn lemma_varint_bytes_len(v: u64)
    ensures
        varint_bytes(v).len() >= 1,
    decreases v,
{
    if v >= 0x80 {
        lemma_varint_bytes_len(v / 0x80);
    }
}

/// Powers of the varint group base.
pub open spec fn pow128(k: int) -> int
    decreases k,
{
    if k <= 0 {
        1
    } else {
        0x80 * pow128(k - 1)
    }
}

/// The group base's powers are positive.
proof fn lemma_pow128_pos(k: int)
    ensures
        pow128(k) >= 1,
    decreases k,
{
    if k > 0 {
        lemma_pow128_pos(k - 1);
    }
}

/// A value below the k-th power of the group base encodes in at most k bytes.
proof fn lemma_varint_len_rec(v: u64, k: int)
    requires
        1 <= k,
        (v as int) < pow128(k),
    ensures
        varint_bytes(v).len() <= k,
    decreases k,
{
    if v >= 0x80 {
        lemma_pow128_pos(k - 1);
        assert(pow128(k) == 0x80 * pow128(k - 1));
        let q = (v / 0x80) as int;
        assert(0x80 * q <= v) by {
            vstd::arithmetic::div_mod::lemma_fundamental_div_mod(v as int, 0x80);
        }
        assert(q < pow128(k - 1));
        lemma_varint_len_rec(v / 0x80, k - 1);
    }
}

/// A varint occupies at most ten bytes.
pub proof fn lemma_varint_bytes_max_len(v: u64)
    ensures
        varint_bytes(v).len() <= 10,
{
    assert(pow128(0) == 1);
    assert(pow128(1) == 0x80);
    assert(pow128(2) == 0x4000);
    assert(pow128(3) == 0x200000);
    assert(pow128(4) == 0x10000000);
    assert(pow128(5) == 0x800000000);
    assert(pow128(6) == 0x40000000000);
    assert(pow128(7) == 0x2000000000000);
    assert(pow128(8) == 0x100000000000000);
    assert(pow128(9) == 0x8000000000000000);
    assert(pow128(10) == 0x400000000000000000);
    lemma_varint_len_rec(v, 10);
}

/// One field occupies at most twenty bytes beyond its payload.
pub proof fn lemma_field_bytes_len(f: u32, v: FieldV)
    ensures
        field_bytes(f, v).len() <= 20 + (match v {
            FieldV::VInt(_) => 0int,
            FieldV::VBytes(p) => p.len() as int,
        }),
{
    match v {
        FieldV::VInt(x) => {
            lemma_varint_bytes_max_len(field_key(f, 0));
            lemma_varint_bytes_max_len(x);
        },
        FieldV::VBytes(p) => {
            lemma_varint_bytes_max_len(field_key(f, 2));
            lemma_varint_bytes_max_len(p.len() as u64);
        },
    }
}

/// Append a varint field to a message body being built.
pub fn push_varint_field(buf: &mut Vec<u8>, field: u32, v: u64)
    requires
        1 <= field <= 0x1FFFFFFF,
    ensures
        final(buf)@ == old(buf)@ + field_bytes(field, FieldV::VInt(v)),
{
    push_varint(buf, (field as u64) * 8);
    push_varint(buf, v);
    proof {
        assert(final(buf)@ =~= old(buf)@ + field_bytes(field, FieldV::VInt(v)));
    }
}

/// Append a length-delimited field to a message body being built.
pub fn push_len_field(buf: &mut Vec<u8>, field: u32, payload: &Vec<u8>)
    requires
        1 <= field <= 0x1FFFFFFF,
        payload@.len() <= 0xFFFFFFFF,
    ensures
        final(buf)@ == old(buf)@ + field_bytes(field, FieldV::VBytes(payload@)),
{
    push_varint(buf, (field as u64) * 8 + 2);
    push_varint(buf, payload.len() as u64);
    buf.extend_from_slice(payload.as_slice());
    proof {
        assert(final(buf)@ =~= old(buf)@ + field_bytes(field, FieldV::VBytes(payload@)));
    }
}

/// The parse of one field at `pos`: the field number, its value, and the
/// position after it.
pub open spec fn spec_parse_field(b: Seq<u8>, pos: int) -> Option<(u32, FieldV, int)> {
    match spec_parse_varint(b, pos) {
        Option::None => Option::None,
        Option::Some((key, p1)) => {
            let f = key / 8;
            let wt = key % 8;
            if f < 1 || f > 0x1FFFFFFF {
                Option::None
            } else if wt == 0 {
                match spec_parse_varint(b, p1) {
                    Option::None => Option::None,
                    Option::Some((x, p2)) => Option::Some((f as u32, FieldV::VInt(x), p2)),
                }
            } else if wt == 2 {
                match spec_parse_varint(b, p1) {
                    Option::None => Option::None,
                    Option::Some((l, p2)) => {
                        if l <= 0xFFFFFFFF && p2 + l <= b.len() {
                            Option::Some(
                                (f as u32, FieldV::VBytes(b.subrange(p2, p2 + l)), p2 + l),
                            )
                        } else {
                            Option::None
                        }
                    },
                }
            } else {
                Option::None
            }
        },
    }
}

/// A parsed field is usable and re-encodes to exactly the bytes it was
/// parsed from.
pub proof fn lemma_parse_field_sound(b: Seq<u8>, pos: int)
    requires
        spec_parse_field(b, pos) is Some,
    ensures
        ({
            let (f, v, end) = spec_parse_field(b, pos)->Some_0;
            &&& pos < end <= b.len()
            &&& field_wf(f, v)
            &&& b.subrange(pos, end) == field_bytes(f, v)
        }),
{
    let (f, v, end) = spec_parse_field(b, pos)->Some_0;
    let (key, p1) = spec_parse_varint(b, pos)->Some_0;
    lemma_parse_varint_sound(b, pos);
    vstd::arithmetic::div_mod::lemma_fundamental_div_mod(key as int, 8);
    match v {
        FieldV::VInt(x) => {
            lemma_parse_varint_sound(b, p1);
            assert(key == (f as u64) * 8);
            assert(b.subrange(pos, end) =~= b.subrange(pos, p1) + b.subrange(p1, end));
        },
        FieldV::VBytes(p) => {
            lemma_parse_varint_sound(b, p1);
            let (l, p2) = spec_parse_varint(b, p1)->Some_0;
            assert(key == (f as u64) * 8 + 2);
            assert(p.len() == l);
            assert(b.subrange(pos, end) =~= b.subrange(pos, p1) + b.subrange(p1, p2) + b.subrange(
                p2,
                end,
            ));
        },
    }
}

/// A window into a byte sequence indexes as the sequence shifted.
proof fn lemma_subrange_shift(b: Seq<u8>, pos: int, n: int, lo: int, hi: int)
    requires
        0 <= pos,
        0 <= lo <= hi <= n,
        pos + n <= b.len(),
    ensures
        b.subrange(pos + lo, pos + hi) == b.subrange(pos, pos + n).subrange(lo, hi),
{
    assert(b.subrange(pos + lo, pos + hi) =~= b.subrange(pos, pos + n).subrange(lo, hi));
}

/// Any buffer that continues with the encoding of a usable field parses to
/// that field.
pub proof fn lemma_parse_field_complete(b: Seq<u8>, pos: int, f: u32, v: FieldV)
    requires
        0 <= pos,
        field_wf(f, v),
        pos + field_bytes(f, v).len() <= b.len(),
        b.subrange(pos, pos + field_bytes(f, v).len()) == field_bytes(f, v),
    ensures
        spec_parse_field(b, pos) == Some((f, v, pos + field_bytes(f, v).len())),
{
    let n = field_bytes(f, v).len();
    match v {
        FieldV::VInt(x) => {
            let key: u64 = field_key(f, 0);
            let k1 = varint_bytes(key).len();
            let k2 = varint_bytes(x).len();
            let s = b.subrange(pos, pos + n);
            lemma_subrange_shift(b, pos, n as int, 0, k1 as int);
            assert(b.subrange(pos, pos + k1) =~= varint_bytes(key));
            lemma_parse_varint_complete(b, pos, key);
            lemma_subrange_shift(b, pos, n as int, k1 as int, n as int);
            assert(s.subrange(k1 as int, n as int) =~= varint_bytes(x));
            lemma_parse_varint_complete(b, pos + k1, x);
            assert(key / 8 == f as u64 && key % 8 == 0) by {
                vstd::arithmetic::div_mod::lemma_fundamental_div_mod_converse(
                    key as int,
                    8,
                    f as int,
                    0,
                );
            }
        },
        FieldV::VBytes(p) => {
            let key: u64 = field_key(f, 2);
            let k1 = varint_bytes(key).len();
            let lv: u64 = p.len() as u64;
            let k2 = varint_bytes(lv).len();
            let s = b.subrange(pos, pos + n);
            lemma_subrange_shift(b, pos, n as int, 0, k1 as int);
            assert(b.subrange(pos, pos + k1) =~= varint_bytes(key));
            lemma_parse_varint_complete(b, pos, key);
            lemma_subrange_shift(b, pos, n as int, k1 as int, k1 + k2 as int);
            assert(s.subrange(k1 as int, k1 + k2 as int) =~= varint_bytes(lv));
            lemma_parse_varint_complete(b, pos + k1, lv);
            assert(key / 8 == f as u64 && key % 8 == 2) by {
                vstd::arithmetic::div_mod::lemma_fundamental_div_mod_converse(
                    key as int,
                    8,
                    f as int,
                    2,
                );
            }
            lemma_subrange_shift(b, pos, n as int, k1 + k2 as int, n as int);
            assert(s.subrange(k1 + k2 as int, n as int) =~= p);
            assert(b.subrange(pos + k1 + k2, pos + n) == p);
        },
    }
}

/// The parse of a whole message body at `pos`: all its fields in order.
pub open spec fn spec_parse_fields(b: Seq<u8>, pos: int) -> Option<Seq<(u32, FieldV)>>
    decreases b.len() - pos when 0 <= pos <= b.len()
{
    if pos == b.len() {
        Option::Some(Seq::empty())
    } else {
        match spec_parse_field(b, pos) {
            Option::None => Option::None,
            Option::Some((f, v, p2)) => {
                if pos < p2 <= b.len() {
                    match spec_parse_fields(b, p2) {
                        Option::None => Option::None,
                        Option::Some(rest) => Option::Some(seq![(f, v)] + rest),
                    }
                } else {
                    Option::None
                }
            },
        }
    }
}

/// A parsed message body is usable and re-encodes to exactly the bytes it
/// was parsed from.
pub proof fn lemma_parse_fields_sound(b: Seq<u8>, pos: int)
    requires
        0 <= pos <= b.len(),
        spec_parse_fields(b, pos) is Some,
    ensures
        fields_wf(spec_parse_fields(b, pos)->Some_0),
        b.subrange(pos, b.len() as int) == fields_bytes(spec_parse_fields(b, pos)->Some_0),
    decreases b.len() - pos,
{
    let fs = spec_parse_fields(b, pos)->Some_0;
    if pos == b.len() {
        assert(b.subrange(pos, b.len() as int) =~= fields_bytes(fs));
    } else {
        let (f, v, p2) = spec_parse_field(b, pos)->Some_0;
        lemma_parse_field_sound(b, pos);
        lemma_parse_fields_sound(b, p2);
        let rest = spec_parse_fields(b, p2)->Some_0;
        assert(fs.drop_first() =~= rest);
        assert(fs.first() == (f, v));
        assert(b.subrange(pos, b.len() as int) =~= b.subrange(pos, p2) + b.subrange(
            p2,
            b.len() as int,
        ));
    }
}

/// A buffer that holds exactly the encoding of usable fields parses to
/// those fields.
pub proof fn lemma_parse_fields_complete(b: Seq<u8>, pos: int, fs: Seq<(u32, FieldV)>)
    requires
        0 <= pos <= b.len(),
        fields_wf(fs),
        b.subrange(pos, b.len() as int) == fields_bytes(fs),
    ensures
        spec_parse_fields(b, pos) == Some(fs),
    decreases fs.len(),
{
    if fs.len() == 0 {
        assert(pos == b.len());
    } else {
        let f = fs.first().0;
        let v = fs.first().1;
        assert(field_wf(f, v));
        let fb = field_bytes(f, v);
        assert(fb.len() >= 1) by {
            match v {
                FieldV::VInt(x) => lemma_varint_bytes_len(field_key(f, 0)),
                FieldV::VBytes(p) => lemma_varint_bytes_len(field_key(f, 2)),
            }
        }
        assert(pos + fb.len() <= b.len()) by {
            assert(b.subrange(pos, b.len() as int).len() == fields_bytes(fs).len());
        }
        let total = b.len() - pos;
        lemma_subrange_shift(b, pos, total, 0, fb.len() as int);
        assert(b.subrange(pos, pos + fb.len()) =~= fb);
        lemma_parse_field_complete(b, pos, f, v);
        let p2 = pos + fb.len();
        lemma_subrange_shift(b, pos, total, fb.len() as int, total);
        assert(b.subrange(pos, b.len() as int).subrange(fb.len() as int, total) =~= fields_bytes(
            fs.drop_first(),
        ));
        assert(b.subrange(p2, b.len() as int) == fields_bytes(fs.drop_first()));
        lemma_parse_fields_complete(b, p2, fs.drop_first());
        assert(spec_parse_fields(b, pos)->Some_0 =~= fs);
    }
}

/// Parse one field at `pos`, as the specification parser does.
pub fn parse_field(bytes: &Vec<u8>, pos: usize) -> (r: Option<(u32, FieldValue, usize)>)
    requires
        pos <= bytes@.len(),
    ensures
        match r {
            Option::Some((f, v, end)) => spec_parse_field(bytes@, pos as int) == Some(
                (f, v.fv(), end as int),
            ) && pos < end <= bytes@.len(),
            Option::None => spec_parse_field(bytes@, pos as int) is None,
        },
{
    let n = bytes.len();
    let (key, p1) = match parse_varint(bytes, pos) {
        Option::None => {
            return Option::None;
        },
        Option::Some(kp) => kp,
    };
    let fnum = key / 8;
    let wt = key % 8;
    if fnum < 1 || fnum > 0x1FFFFFFF {
        return Option::None;
    }
    let f = fnum as u32;
    if wt == 0 {
        match parse_varint(bytes, p1) {
            Option::None => Option::None,
            Option::Some((x, p2)) => Option::Some((f, FieldValue::VInt(x), p2)),
        }
    } else if wt == 2 {
        match parse_varint(bytes, p1) {
            Option::None => Option::None,
            Option::Some((l, p2)) => {
                if l <= 0xFFFFFFFF && l <= (n - p2) as u64 {
                    let data = copy_range(bytes, p2, l as usize);
                    Option::Some((f, FieldValue::VBytes(data), p2 + l as usize))
                } else {
                    Option::None
                }
            },
        }
    } else {
        Option::None
    }
}

/// Parse a whole message body, as the specification parser does.
pub fn parse_fields(bytes: &Vec<u8>) -> (r: Option<Vec<(u32, FieldValue)>>)
    ensures
        match r {
            Option::Some(fs) => spec_parse_fields(bytes@, 0) == Some(fields_view(fs@)),
            Option::None => spec_parse_fields(bytes@, 0) is None,
        },
{
    let n = bytes.len();
    let mut out: Vec<(u32, FieldValue)> = Vec::new();
    let mut pos: usize = 0;
    while pos < n
        invariant
            pos <= n,
            n == bytes@.len(),
            ({
                match spec_parse_fields(bytes@, pos as int) {
                    Option::Some(rest) => spec_parse_fields(bytes@, 0) == Some(
                        fields_view(out@) + rest,
                    ),
                    Option::None => spec_parse_fields(bytes@, 0) is None,
                }
            }),
        decreases n - pos,
    {
        match parse_field(bytes, pos) {
            Option::None => {
                return Option::None;
            },
            Option::Some((f, v, p2)) => {
                let ghost pre = out@;
                out.push((f, v));
                proof {
                    assert(fields_view(out@) =~= fields_view(pre) + seq![(f, v.fv())]);
                    if spec_parse_fields(bytes@, p2 as int) is Some {
                        let rest = spec_parse_fields(bytes@, p2 as int)->Some_0;
                        assert(spec_parse_fields(bytes@, pos as int) == Some(
                            seq![(f, v.fv())] + rest,
                        ));
                        assert(fields_view(pre) + (seq![(f, v.fv())] + rest) =~= fields_view(out@)
                            + rest);
                    }
                }
                pos = p2;
            },
        }
    }
    proof {
        assert(spec_parse_fields(bytes@, pos as int) == Some(Seq::<(u32, FieldV)>::empty()));
        assert(fields_view(out@) + Seq::<(u32, FieldV)>::empty() =~= fields_view(out@));
    }
    Option::Some(out)
}


/// Appending a field appends its bytes to a message body.
pub proof fn lemma_fields_bytes_push(fs: Seq<(u32, FieldV)>, p: (u32, FieldV))
    ensures
        fields_bytes(fs.push(p)) == fields_bytes(fs) + field_bytes(p.0, p.1),
    decreases fs.len(),
{
    assert(fs.push(p).first() == if fs.len() == 0 {
        p
    } else {
        fs.first()
    });
    if fs.len() == 0 {
        assert(fs.push(p).drop_first() =~= Seq::<(u32, FieldV)>::empty());
        assert(fields_bytes(Seq::<(u32, FieldV)>::empty()) == Seq::<u8>::empty());
        assert(fields_bytes(fs) == Seq::<u8>::empty());
        assert(fields_bytes(fs.push(p)) == field_bytes(p.0, p.1) + Seq::<u8>::empty());
        assert(fields_bytes(fs.push(p)) =~= fields_bytes(fs) + field_bytes(p.0, p.1));
    } else {
        assert(fs.push(p).drop_first() =~= fs.drop_first().push(p));
        lemma_fields_bytes_push(fs.drop_first(), p);
        assert(fields_bytes(fs.push(p)) =~= fields_bytes(fs) + field_bytes(p.0, p.1));
    }
}

/// The bytes of a one-field body.
pub proof fn lemma_fields_bytes_one(f: u32, v: FieldV)
    ensures
        fields_bytes(seq![(f, v)]) == field_bytes(f, v),
{
    lemma_fields_bytes_push(Seq::empty(), (f, v));
    assert(Seq::<(u32, FieldV)>::empty().push((f, v)) =~= seq![(f, v)]);
    assert(fields_bytes(Seq::<(u32, FieldV)>::empty()) == Seq::<u8>::empty());
    assert(Seq::<u8>::empty() + field_bytes(f, v) =~= field_bytes(f, v));
}

/// The bytes of a two-field body.
pub proof fn lemma_fields_bytes_two(f1: u32, v1: FieldV, f2: u32, v2: FieldV)
    ensures
        fields_bytes(seq![(f1, v1), (f2, v2)]) == field_bytes(f1, v1) + field_bytes(f2, v2),
{
    lemma_fields_bytes_one(f1, v1);
    lemma_fields_bytes_push(seq![(f1, v1)], (f2, v2));
    assert(seq![(f1, v1)].push((f2, v2)) =~= seq![(f1, v1), (f2, v2)]);
}

/// The bytes of a three-field body.
pub proof fn lemma_fields_bytes_three(f1: u32, v1: FieldV, f2: u32, v2: FieldV, f3: u32, v3: FieldV)
    ensures
        fields_bytes(seq![(f1, v1), (f2, v2), (f3, v3)]) == field_bytes(f1, v1) + field_bytes(
            f2,
            v2,
        ) + field_bytes(f3, v3),
{
    lemma_fields_bytes_two(f1, v1, f2, v2);
    lemma_fields_bytes_push(seq![(f1, v1), (f2, v2)], (f3, v3));
    assert(seq![(f1, v1), (f2, v2)].push((f3, v3)) =~= seq![(f1, v1), (f2, v2), (f3, v3)]);
}

/// The varint values carried by a given field number, in arrival order.
pub open spec fn varints_of(fs: Seq<(u32, FieldV)>, f: u32) -> Seq<u64> {
    fs.filter(|p: (u32, FieldV)| p.0 == f).map_values(|p: (u32, FieldV)| p.1->VInt_0)
}

/// Whether a message body consists only of varint fields whose numbers do
/// not exceed `maxf`.
pub open spec fn only_varint_fields_upto(fs: Seq<(u32, FieldV)>, maxf: u32) -> bool {
    forall|i: int| 0 <= i < fs.len() ==> ((#[trigger] fs[i]).1 is VInt && 1 <= fs[i].0 <= maxf)
}

/// Sort a message body's varint values by field number: entry `f - 1` of
/// the result lists the values of field `f` in arrival order. Refuses a
/// body with a length-delimited field or a field number past `maxf`.
pub fn collect_varints(fields: &Vec<(u32, FieldValue)>, maxf: u32) -> (r: Option<Vec<Vec<u64>>>)
    requires
        1 <= maxf <= 8,
    ensures
        r is Some <==> only_varint_fields_upto(fields_view(fields@), maxf),
        r matches Some(cols) ==> cols@.len() == maxf && forall|f: u32|
            1 <= f <= maxf ==> #[trigger] varints_of(fields_view(fields@), f) == cols@[f - 1]@,
{
    let n = fields.len();
    let mut cols: Vec<Vec<u64>> = Vec::new();
    let mut j: usize = 0;
    while j < maxf as usize
        invariant
            j <= maxf,
            cols@.len() == j,
            forall|i: int| 0 <= i < j ==> (#[trigger] cols@[i])@ == Seq::<u64>::empty(),
        decreases maxf - j,
    {
        cols.push(Vec::new());
        j = j + 1;
    }
    proof {
        assert(fields_view(fields@.take(0)) =~= Seq::<(u32, FieldV)>::empty());
        assert forall|f: u32| 1 <= f <= maxf implies #[trigger] varints_of(
            fields_view(fields@.take(0)),
            f,
        ) == cols@[f - 1]@ by {
            assert(varints_of(Seq::<(u32, FieldV)>::empty(), f) =~= Seq::<u64>::empty());
        }
    }
    let mut k: usize = 0;
    while k < n
        invariant
            k <= n,
            n == fields@.len(),
            1 <= maxf <= 8,
            cols@.len() == maxf,
            only_varint_fields_upto(fields_view(fields@.take(k as int)), maxf),
            forall|f: u32|
                1 <= f <= maxf ==> #[trigger] varints_of(fields_view(fields@.take(k as int)), f)
                    == cols@[f - 1]@,
        decreases n - k,
    {
        let num = fields[k].0;
        let ghost pre = fields_view(fields@.take(k as int));
        let ghost cur = fields_view(fields@.take(k + 1));
        proof {
            assert(fields@.take(k + 1) =~= fields@.take(k as int).push(fields@[k as int]));
            assert(cur =~= pre.push((fields@[k as int].0, fields@[k as int].1.fv())));
        }
        let x = match &fields[k].1 {
            FieldValue::VInt(x) => *x,
            FieldValue::VBytes(_) => {
                proof {
                    assert(!only_varint_fields_upto(cur, maxf)) by {
                        assert(cur[cur.len() - 1].1 is VBytes);
                    }
                    lemma_only_varint_fields_prefix(fields_view(fields@), cur, maxf);
                }
                return Option::None;
            },
        };
        if num < 1 || num > maxf {
            proof {
                assert(!only_varint_fields_upto(cur, maxf)) by {
                    assert(cur[cur.len() - 1].0 == num);
                }
                lemma_only_varint_fields_prefix(fields_view(fields@), cur, maxf);
            }
            return Option::None;
        }
        let idx = (num - 1) as usize;
        let ghost colspre = cols@;
        let mut col = cols.remove(idx);
        col.push(x);
        cols.insert(idx, col);
        proof {
            assert(cols@.len() == maxf);
            assert forall|f: u32| 1 <= f <= maxf implies #[trigger] varints_of(cur, f) == cols@[f
                - 1]@ by {
                lemma_varints_of_push(pre, (num, FieldV::VInt(x)), f);
                if f != num {
                    assert(cols@[f - 1] == colspre[f - 1]);
                } else {
                    assert(cols@[f - 1]@ == colspre[f - 1]@.push(x));
                }
            }
        }
        k = k + 1;
    }
    proof {
        assert(fields@.take(n as int) =~= fields@);
    }
    Option::Some(cols)
}

/// A body whose prefix breaks the varint-fields-only condition breaks it too.
proof fn lemma_only_varint_fields_prefix(whole: Seq<(u32, FieldV)>, prefix: Seq<(u32, FieldV)>, maxf: u32)
    requires
        !only_varint_fields_upto(prefix, maxf),
        forall|i: int| 0 <= i < prefix.len() ==> prefix[i] == whole[i],
        prefix.len() <= whole.len(),
    ensures
        !only_varint_fields_upto(whole, maxf),
{
    let i = choose|i: int|
        0 <= i < prefix.len() && !((#[trigger] prefix[i]).1 is VInt && 1 <= prefix[i].0 <= maxf);
    assert(whole[i] == prefix[i]);
}

/// Appending a field appends its value to its own column and no other.
proof fn lemma_varints_of_push(fs: Seq<(u32, FieldV)>, p: (u32, FieldV), f: u32)
    ensures
        f == p.0 && p.1 is VInt ==> varints_of(fs.push(p), f) == varints_of(fs, f).push(
            p.1->VInt_0,
        ),
        f != p.0 ==> varints_of(fs.push(p), f) == varints_of(fs, f),
{
    reveal(Seq::filter);
    let pred = |q: (u32, FieldV)| q.0 == f;
    assert(fs.push(p).drop_last() =~= fs);
    assert(fs.push(p).last() == p);
    if pred(p) {
        assert(fs.push(p).filter(pred) =~= fs.filter(pred).push(p));
        assert(varints_of(fs.push(p), f) =~= varints_of(fs, f).push(p.1->VInt_0));
    } else {
        assert(fs.push(p).filter(pred) =~= fs.filter(pred));
    }
}

} // verus!
