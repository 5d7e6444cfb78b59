//! The little-endian, length-prefixed field layout in which the bridge
//! program writes its event records and instruction arguments: fixed-width
//! integers in little-endian order, addresses as their 32 bytes, and lists as
//! a 4-byte little-endian element count followed by the elements.
use vstd::prelude::*;
use vstd::bytes::*;
use vstd::slice::*;
use crate::pubkey::{Pubkey, lemma_from_bytes_roundtrip, lemma_bytes_determine_key};
use crate::program::state::PriceEntry;

verus! {

broadcast use vstd::seq_lib::group_seq_properties;

/// The kind of a single field of a record.
#[derive(Clone, Copy, Debug, PartialEq, Eq, Structural)]
pub enum FieldKind {
    Key,
    U16,
    U64,
    I64,
    Bytes,
    Prices,
}

/// The value of a single field of a record.
#[derive(Clone, Debug, PartialEq, Eq)]
pub enum FieldValue {
    Key(Pubkey),
    U16(u16),
    U64(u64),
    I64(i64),
    Bytes(Vec<u8>),
    Prices(Vec<PriceEntry>),
}

/// The mathematical content of a field value.
pub enum FieldData {
    Key(Pubkey),
    U16(u16),
    U64(u64),
    I64(i64),
    Bytes(Seq<u8>),
    Prices(Seq<PriceEntry>),
}

impl View for FieldValue {
    type V = FieldData;

    open spec fn view(&self) -> FieldData {
        match self {
            FieldValue::Key(k) => FieldData::Key(*k),
            FieldValue::U16(x) => FieldData::U16(*x),
            FieldValue::U64(x) => FieldData::U64(*x),
            FieldValue::I64(x) => FieldData::I64(*x),
            FieldValue::Bytes(b) => FieldData::Bytes(b@),
            FieldValue::Prices(p) => FieldData::Prices(p@),
        }
    }
}

/// The contents of a list of field values.
pub open spec fn fields_view(vs: Seq<FieldValue>) -> Seq<FieldData> {
    vs.map_values(|v: FieldValue| v@)
}

pub open spec fn kind_of(d: FieldData) -> FieldKind {
    match d {
        FieldData::Key(_) => FieldKind::Key,
        FieldData::U16(_) => FieldKind::U16,
        FieldData::U64(_) => FieldKind::U64,
        FieldData::I64(_) => FieldKind::I64,
        FieldData::Bytes(_) => FieldKind::Bytes,
        FieldData::Prices(_) => FieldKind::Prices,
    }
}

pub open spec fn kinds_of(ds: Seq<FieldData>) -> Seq<FieldKind> {
    ds.map_values(|d: FieldData| kind_of(d))
}

/// A field can be written only if its lists have at most `u32::MAX` elements.
pub open spec fn field_encodable(d: FieldData) -> bool {
    match d {
        FieldData::Bytes(b) => b.len() <= u32::MAX,
        FieldData::Prices(p) => p.len() <= u32::MAX,
        _ => true,
    }
}

pub open spec fn fields_encodable(ds: Seq<FieldData>) -> bool {
    forall|i: int| 0 <= i < ds.len() ==> field_encodable(#[trigger] ds[i])
}

pub open spec fn enc_i64(x: i64) -> Seq<u8> {
    spec_u64_to_le_bytes(x as u64)
}

pub open spec fn enc_price(p: PriceEntry) -> Seq<u8> {
    spec_u16_to_le_bytes(p.command_id) + spec_u64_to_le_bytes(p.price)
}

/// The entries of a price list, one after the other.
pub open spec fn enc_price_list(ps: Seq<PriceEntry>) -> Seq<u8>
    decreases ps.len(),
{
    if ps.len() == 0 {
        Seq::empty()
    } else {
        enc_price_list(ps.drop_last()) + enc_price(ps.last())
    }
}

/// The byte form of one field.
pub open spec fn enc_field(d: FieldData) -> Seq<u8> {
    match d {
        FieldData::Key(k) => k.bytes(),
        FieldData::U16(x) => spec_u16_to_le_bytes(x),
        FieldData::U64(x) => spec_u64_to_le_bytes(x),
        FieldData::I64(x) => enc_i64(x),
        FieldData::Bytes(b) => spec_u32_to_le_bytes(b.len() as u32) + b,
        FieldData::Prices(p) => spec_u32_to_le_bytes(p.len() as u32) + enc_price_list(p),
    }
}

/// The byte form of a record: its fields one after the other.
pub open spec fn enc_fields(ds: Seq<FieldData>) -> Seq<u8>
    decreases ds.len(),
{
    if ds.len() == 0 {
        Seq::empty()
    } else {
        enc_field(ds[0]) + enc_fields(ds.drop_first())
    }
}

/// The `i`-th entry of a price list whose entries start at the front of `d`.
pub open spec fn dec_price_at(d: Seq<u8>, i: int) -> PriceEntry {
    PriceEntry {
        command_id: spec_u16_from_le_bytes(d.subrange(10 * i, 10 * i + 2)),
        price: spec_u64_from_le_bytes(d.subrange(10 * i + 2, 10 * i + 10)),
    }
}

/// Reads one field of kind `k` from the front of `d`, giving the value and
/// what follows it, or `None` when `d` is too short.
pub open spec fn dec_field(k: FieldKind, d: Seq<u8>) -> Option<(FieldData, Seq<u8>)> {
    match k {
        FieldKind::Key => if d.len() >= 32 {
            Some((FieldData::Key(Pubkey::spec_from_bytes(d.subrange(0, 32))), d.skip(32)))
        } else {
            None
        },
        FieldKind::U16 => if d.len() >= 2 {
            Some((FieldData::U16(spec_u16_from_le_bytes(d.subrange(0, 2))), d.skip(2)))
        } else {
            None
        },
        FieldKind::U64 => if d.len() >= 8 {
            Some((FieldData::U64(spec_u64_from_le_bytes(d.subrange(0, 8))), d.skip(8)))
        } else {
            None
        },
        FieldKind::I64 => if d.len() >= 8 {
            Some((FieldData::I64(spec_u64_from_le_bytes(d.subrange(0, 8)) as i64), d.skip(8)))
        } else {
            None
        },
        FieldKind::Bytes => if d.len() >= 4 {
            let n = spec_u32_from_le_bytes(d.subrange(0, 4)) as int;
            if d.len() >= 4 + n {
                Some((FieldData::Bytes(d.subrange(4, 4 + n)), d.skip(4 + n)))
            } else {
                None
            }
        } else {
            None
        },
        FieldKind::Prices => if d.len() >= 4 {
            let n = spec_u32_from_le_bytes(d.subrange(0, 4)) as int;
            if d.len() >= 4 + 10 * n {
                let body = d.skip(4);
                Some(
                    (
                        FieldData::Prices(Seq::new(n as nat, |i: int| dec_price_at(body, i))),
                        d.skip(4 + 10 * n),
                    ),
                )
            } else {
                None
            }
        } else {
            None
        },
    }
}

/// Reads a record of the given field kinds that fills `d` exactly.
pub open spec fn dec_fields(ks: Seq<FieldKind>, d: Seq<u8>) -> Option<Seq<FieldData>>
    decreases ks.len(),
{
    if ks.len() == 0 {
        if d.len() == 0 {
            Some(Seq::empty())
        } else {
            None
        }
    } else {
        match dec_field(ks[0], d) {
            None => None,
            Some((v, rest)) => match dec_fields(ks.drop_first(), rest) {
                None => None,
                Some(vs) => Some(seq![v] + vs),
            },
        }
    }
}

// ---------------------------------------------------------------------------
// Lemmas
proof fn lemma_i64_u64_roundtrip(x: i64)
    ensures
        ((x as u64) as i64) == x,
{
    assert(((x as u64) as i64) == x) by (bit_vector);
}

proof fn lemma_u64_i64_roundtrip(x: u64)
    ensures
        ((x as i64) as u64) == x,
{
    assert(((x as i64) as u64) == x) by (bit_vector);
}

/// The price list takes ten bytes per entry, and entry `i` sits at `10 * i`.
pub proof fn lemma_price_list_layout(ps: Seq<PriceEntry>)
    ensures
        enc_price_list(ps).len() == 10 * ps.len(),
        forall|i: int|
            0 <= i < ps.len() ==> #[trigger] enc_price_list(ps).subrange(10 * i, 10 * i + 10)
                == enc_price(ps[i]),
        forall|i: int|
            0 <= i < ps.len() ==> #[trigger] enc_price_list(ps).subrange(10 * i, 10 * i + 10)
                == spec_u16_to_le_bytes(ps[i].command_id) + spec_u64_to_le_bytes(ps[i].price),
    decreases ps.len(),
{
    lemma_auto_spec_u16_to_from_le_bytes();
    lemma_auto_spec_u32_to_from_le_bytes();
    lemma_auto_spec_u64_to_from_le_bytes();
    if ps.len() > 0 {
        let init = ps.drop_last();
        lemma_price_list_layout(init);
        let e = enc_price_list(ps);
        let a = enc_price_list(init);
        let b = enc_price(ps.last());
        assert(e == a + b);
        assert forall|i: int| 0 <= i < ps.len() implies #[trigger] e.subrange(10 * i, 10 * i + 10)
            == enc_price(ps[i]) by {
            if i < ps.len() - 1 {
                assert(e.subrange(10 * i, 10 * i + 10) =~= a.subrange(10 * i, 10 * i + 10));
                assert(init[i] == ps[i]);
            } else {
                assert(e.subrange(10 * i, 10 * i + 10) =~= b);
            }
        }
    }
}

/// Reading an entry back from the written price list gives the entry.
proof fn lemma_price_list_read(ps: Seq<PriceEntry>, rest: Seq<u8>)
    ensures
        forall|i: int|
            0 <= i < ps.len() ==> #[trigger] dec_price_at(enc_price_list(ps) + rest, i) == ps[i],
{
    lemma_auto_spec_u16_to_from_le_bytes();
    lemma_auto_spec_u32_to_from_le_bytes();
    lemma_auto_spec_u64_to_from_le_bytes();
    lemma_price_list_layout(ps);
    let e = enc_price_list(ps);
    assert forall|i: int| 0 <= i < ps.len() implies #[trigger] dec_price_at(e + rest, i) == ps[i] by {
        let d = e + rest;
        let chunk = e.subrange(10 * i, 10 * i + 10);
        assert(chunk == enc_price(ps[i]));
        assert(d.subrange(10 * i, 10 * i + 2) =~= chunk.subrange(0, 2));
        assert(d.subrange(10 * i + 2, 10 * i + 10) =~= chunk.subrange(2, 10));
        assert(chunk.subrange(0, 2) =~= spec_u16_to_le_bytes(ps[i].command_id));
        assert(chunk.subrange(2, 10) =~= spec_u64_to_le_bytes(ps[i].price));
    }
}

/// Writing the entries read from a region gives the region back.
proof fn lemma_price_list_rewrite(d: Seq<u8>, n: nat)
    requires
        d.len() >= 10 * n,
    ensures
        enc_price_list(Seq::new(n, |i: int| dec_price_at(d, i))) == d.subrange(0, 10 * (n as int)),
    decreases n,
{
    lemma_auto_spec_u16_to_from_le_bytes();
    lemma_auto_spec_u32_to_from_le_bytes();
    lemma_auto_spec_u64_to_from_le_bytes();
    let ps = Seq::new(n, |i: int| dec_price_at(d, i));
    if n > 0 {
        let m: int = n - 1;
        lemma_price_list_rewrite(d, m as nat);
        let init = Seq::new(m as nat, |i: int| dec_price_at(d, i));
        assert(ps.drop_last() =~= init);
        let last = dec_price_at(d, m);
        assert(ps.last() == last);
        let lo = d.subrange(10 * m, 10 * m + 2);
        let hi = d.subrange(10 * m + 2, 10 * m + 10);
        assert(spec_u16_to_le_bytes(spec_u16_from_le_bytes(lo)) == lo);
        assert(spec_u64_to_le_bytes(spec_u64_from_le_bytes(hi)) == hi);
        assert(enc_price(last) =~= d.subrange(10 * m, 10 * m + 10));
        assert(d.subrange(0, 10 * m) + d.subrange(10 * m, 10 * m + 10) =~= d.subrange(0, 10 * (n as int)));
    }
}

/// A written field is read back whole, whatever follows it.
pub proof fn lemma_field_roundtrip(d: FieldData, rest: Seq<u8>)
    requires
        field_encodable(d),
    ensures
        dec_field(kind_of(d), enc_field(d) + rest) == Some((d, rest)),
{
    lemma_auto_spec_u16_to_from_le_bytes();
    lemma_auto_spec_u32_to_from_le_bytes();
    lemma_auto_spec_u64_to_from_le_bytes();
    let e = enc_field(d) + rest;
    match d {
        FieldData::Key(k) => {
            lemma_bytes_determine_key(k);
            assert(e.subrange(0, 32) =~= k.bytes());
            assert(e.skip(32) =~= rest);
        },
        FieldData::U16(x) => {
            assert(e.subrange(0, 2) =~= spec_u16_to_le_bytes(x));
            assert(e.skip(2) =~= rest);
        },
        FieldData::U64(x) => {
            assert(e.subrange(0, 8) =~= spec_u64_to_le_bytes(x));
            assert(e.skip(8) =~= rest);
        },
        FieldData::I64(x) => {
            lemma_i64_u64_roundtrip(x);
            assert(e.subrange(0, 8) =~= spec_u64_to_le_bytes(x as u64));
            assert(e.skip(8) =~= rest);
        },
        FieldData::Bytes(b) => {
            let n = b.len() as u32;
            assert(e.subrange(0, 4) =~= spec_u32_to_le_bytes(n));
            assert(spec_u32_from_le_bytes(e.subrange(0, 4)) == n);
            assert(e.subrange(4, 4 + b.len() as int) =~= b);
            assert(e.skip(4 + b.len() as int) =~= rest);
        },
        FieldData::Prices(p) => {
            let n = p.len() as u32;
            lemma_price_list_layout(p);
            assert(e.subrange(0, 4) =~= spec_u32_to_le_bytes(n));
            assert(spec_u32_from_le_bytes(e.subrange(0, 4)) == n);
            let body = e.skip(4);
            assert(body =~= enc_price_list(p) + rest);
            lemma_price_list_read(p, rest);
            assert(Seq::new(n as nat, |i: int| dec_price_at(body, i)) =~= p);
            assert(e.skip(4 + 10 * (p.len() as int)) =~= rest);
        },
    }
}

/// A field that was read is written back as exactly the bytes it was read from.
pub proof fn lemma_field_rewrite(k: FieldKind, d: Seq<u8>)
    requires
        dec_field(k, d) is Some,
    ensures
        ({
            let (v, rest) = dec_field(k, d).unwrap();
            &&& enc_field(v) + rest == d
            &&& kind_of(v) == k
            &&& field_encodable(v)
        }),
{
    lemma_auto_spec_u16_to_from_le_bytes();
    lemma_auto_spec_u32_to_from_le_bytes();
    lemma_auto_spec_u64_to_from_le_bytes();
    let (v, rest) = dec_field(k, d).unwrap();
    match k {
        FieldKind::Key => {
            lemma_from_bytes_roundtrip(d.subrange(0, 32));
            assert(enc_field(v) + rest =~= d);
        },
        FieldKind::U16 => {
            assert(enc_field(v) + rest =~= d);
        },
        FieldKind::U64 => {
            assert(enc_field(v) + rest =~= d);
        },
        FieldKind::I64 => {
            lemma_u64_i64_roundtrip(spec_u64_from_le_bytes(d.subrange(0, 8)));
            assert(enc_field(v) + rest =~= d);
        },
        FieldKind::Bytes => {
            assert(enc_field(v) + rest =~= d);
        },
        FieldKind::Prices => {
            let n = spec_u32_from_le_bytes(d.subrange(0, 4));
            let body = d.skip(4);
            lemma_price_list_rewrite(body, n as nat);
            assert(enc_field(v) + rest =~= d);
        },
    }
}

/// A written record is read back as the same fields.
pub proof fn lemma_fields_roundtrip(ds: Seq<FieldData>)
    requires
        fields_encodable(ds),
    ensures
        dec_fields(kinds_of(ds), enc_fields(ds)) == Some(ds),
    decreases ds.len(),
{
    if ds.len() > 0 {
        let tail = ds.drop_first();
        assert(fields_encodable(tail)) by {
            assert forall|i: int| 0 <= i < tail.len() implies field_encodable(#[trigger] tail[i]) by {
                assert(tail[i] == ds[i + 1]);
            }
        }
        lemma_fields_roundtrip(tail);
        lemma_field_roundtrip(ds[0], enc_fields(tail));
        assert(kinds_of(ds).drop_first() =~= kinds_of(tail));
        assert(seq![ds[0]] + tail =~= ds);
    }
}

/// A record that was read is written back as exactly the bytes it was read
/// from, and has the field kinds it was read with.
pub proof fn lemma_fields_rewrite(ks: Seq<FieldKind>, d: Seq<u8>)
    requires
        dec_fields(ks, d) is Some,
    ensures
        enc_fields(dec_fields(ks, d).unwrap()) == d,
        kinds_of(dec_fields(ks, d).unwrap()) == ks,
        fields_encodable(dec_fields(ks, d).unwrap()),
    decreases ks.len(),
{
    if ks.len() == 0 {
        assert(d =~= Seq::<u8>::empty());
        assert(kinds_of(Seq::<FieldData>::empty()) =~= ks);
    } else {
        lemma_field_rewrite(ks[0], d);
        let (v, rest) = dec_field(ks[0], d).unwrap();
        lemma_fields_rewrite(ks.drop_first(), rest);
        let vs = dec_fields(ks.drop_first(), rest).unwrap();
        let all = seq![v] + vs;
        assert(all.drop_first() =~= vs);
        assert(all[0] == v);
        assert(kinds_of(all) =~= ks);
    }
}

// ---------------------------------------------------------------------------
// Writing

/// Appends the byte form of one field to `out`.
pub fn write_field(v: &FieldValue, out: &mut Vec<u8>)
    requires
        field_encodable(v@),
    ensures
        final(out)@ == old(out)@ + enc_field(v@),
{
    match v {
        FieldValue::Key(k) => {
            let mut b = k.to_vec();
            out.append(&mut b);
        },
        FieldValue::U16(x) => {
            let mut b = u16_to_le_bytes(*x);
            out.append(&mut b);
        },
        FieldValue::U64(x) => {
            let mut b = u64_to_le_bytes(*x);
            out.append(&mut b);
        },
        FieldValue::I64(x) => {
            let mut b = u64_to_le_bytes(*x as u64);
            out.append(&mut b);
        },
        FieldValue::Bytes(bytes) => {
            let mut len = u32_to_le_bytes(bytes.len() as u32);
            out.append(&mut len);
            let mut i: usize = 0;
            let ghost start = out@;
            while i < bytes.len()
                invariant
                    i <= bytes.len(),
                    out@ == start + bytes@.subrange(0, i as int),
                decreases bytes.len() - i,
            {
                out.push(bytes[i]);
                i = i + 1;
                assert(out@ =~= start + bytes@.subrange(0, i as int));
            }
            assert(bytes@.subrange(0, bytes.len() as int) =~= bytes@);
            assert(out@ =~= old(out)@ + enc_field(v@));
        },
        FieldValue::Prices(ps) => {
            let mut len = u32_to_le_bytes(ps.len() as u32);
            out.append(&mut len);
            let ghost start = out@;
            let mut i: usize = 0;
            while i < ps.len()
                invariant
                    i <= ps.len(),
                    out@ == start + enc_price_list(ps@.subrange(0, i as int)),
                decreases ps.len() - i,
            {
                let e = ps[i];
                let mut a = u16_to_le_bytes(e.command_id);
                let mut b = u64_to_le_bytes(e.price);
                out.append(&mut a);
                out.append(&mut b);
                let ghost s = ps@.subrange(0, i + 1);
                assert(s.drop_last() =~= ps@.subrange(0, i as int));
                i = i + 1;
                assert(out@ =~= start + enc_price_list(ps@.subrange(0, i as int)));
            }
            assert(ps@.subrange(0, ps.len() as int) =~= ps@);
            assert(out@ =~= old(out)@ + enc_field(v@));
        },
    }
}

/// The byte form of a record.
pub fn write_fields(vs: &Vec<FieldValue>) -> (out: Vec<u8>)
    requires
        fields_encodable(fields_view(vs@)),
    ensures
        out@ == enc_fields(fields_view(vs@)),
{
    let mut out: Vec<u8> = Vec::new();
    let mut i: usize = 0;
    while i < vs.len()
        invariant
            i <= vs.len(),
            fields_encodable(fields_view(vs@)),
            enc_fields(fields_view(vs@)) == out@ + enc_fields(fields_view(vs@).skip(i as int)),
        decreases vs.len() - i,
    {
        let ghost rest = fields_view(vs@).skip(i as int);
        assert(rest[0] == vs@[i as int]@);
        assert(rest.drop_first() =~= fields_view(vs@).skip(i + 1));
        assert(field_encodable(fields_view(vs@)[i as int]));
        write_field(&vs[i], &mut out);
        i = i + 1;
    }
    assert(fields_view(vs@).skip(vs.len() as int) =~= Seq::<FieldData>::empty());
    assert(out@ =~= enc_fields(fields_view(vs@)));
    out
}

// ---------------------------------------------------------------------------
// Reading

/// Reads one field of kind `k` starting at `pos`, giving the value and the
/// position after it.
pub fn read_field(k: FieldKind, data: &[u8], pos: usize) -> (r: Option<(FieldValue, usize)>)
    requires
        pos <= data@.len(),
    ensures
        match r {
            Some((v, next)) => {
                &&& pos <= next <= data@.len()
                &&& dec_field(k, data@.skip(pos as int)) == Some(
                    (v@, data@.skip(next as int)),
                )
            },
            None => dec_field(k, data@.skip(pos as int)) is None,
        },
{
    let ghost d = data@.skip(pos as int);
    let avail = data.len() - pos;
    match k {
        FieldKind::Key => {
            if avail < 32 {
                return None;
            }
            let key = Pubkey::from_slice(slice_subrange(data, pos, pos + 32));
            assert(data@.subrange(pos as int, pos + 32) =~= d.subrange(0, 32));
            assert(data@.skip(pos + 32) =~= d.skip(32));
            Some((FieldValue::Key(key), pos + 32))
        },
        FieldKind::U16 => {
            if avail < 2 {
                return None;
            }
            let x = u16_from_le_bytes(slice_subrange(data, pos, pos + 2));
            assert(data@.subrange(pos as int, pos + 2) =~= d.subrange(0, 2));
            assert(data@.skip(pos + 2) =~= d.skip(2));
            Some((FieldValue::U16(x), pos + 2))
        },
        FieldKind::U64 => {
            if avail < 8 {
                return None;
            }
            let x = u64_from_le_bytes(slice_subrange(data, pos, pos + 8));
            assert(data@.subrange(pos as int, pos + 8) =~= d.subrange(0, 8));
            assert(data@.skip(pos + 8) =~= d.skip(8));
            Some((FieldValue::U64(x), pos + 8))
        },
        FieldKind::I64 => {
            if avail < 8 {
                return None;
            }
            let x = u64_from_le_bytes(slice_subrange(data, pos, pos + 8));
            assert(data@.subrange(pos as int, pos + 8) =~= d.subrange(0, 8));
            assert(data@.skip(pos + 8) =~= d.skip(8));
            Some((FieldValue::I64(#[verifier::truncate] (x as i64)), pos + 8))
        },
        FieldKind::Bytes => {
            if avail < 4 {
                return None;
            }
            let n = u32_from_le_bytes(slice_subrange(data, pos, pos + 4));
            assert(data@.subrange(pos as int, pos + 4) =~= d.subrange(0, 4));
            if (avail as u64) - 4 < n as u64 {
                return None;
            }
            let n = n as usize;
            let start = pos + 4;
            let mut out: Vec<u8> = Vec::new();
            let mut i: usize = 0;
            while i < n
                invariant
                    i <= n,
                    start + n <= data.len(),
                    out@ == data@.subrange(start as int, start + i),
                decreases n - i,
            {
                out.push(data[start + i]);
                i = i + 1;
                assert(out@ =~= data@.subrange(start as int, start + i));
            }
            assert(data@.subrange(start as int, start + n) =~= d.subrange(4, 4 + n));
            assert(data@.skip(start + n) =~= d.skip(4 + n));
            Some((FieldValue::Bytes(out), start + n))
        },
        FieldKind::Prices => {
            if avail < 4 {
                return None;
            }
            let n = u32_from_le_bytes(slice_subrange(data, pos, pos + 4));
            assert(data@.subrange(pos as int, pos + 4) =~= d.subrange(0, 4));
            if ((avail as u64) - 4) / 10 < n as u64 {
                return None;
            }
            let n = n as usize;
            let start = pos + 4;
            let ghost body = d.skip(4);
            assert(body =~= data@.skip(start as int));
            let mut out: Vec<PriceEntry> = Vec::new();
            let mut i: usize = 0;
            while i < n
                invariant
                    i <= n,
                    start + 10 * n <= data.len(),
                    body == data@.skip(start as int),
                    out@ == Seq::new(i as nat, |j: int| dec_price_at(body, j)),
                decreases n - i,
            {
                let at = start + 10 * i;
                let id = u16_from_le_bytes(slice_subrange(data, at, at + 2));
                let price = u64_from_le_bytes(slice_subrange(data, at + 2, at + 10));
                assert(data@.subrange(at as int, at + 2) =~= body.subrange(10 * i, 10 * i + 2));
                assert(data@.subrange(at + 2, at + 10) =~= body.subrange(
                    10 * i + 2,
                    10 * i + 10,
                ));
                out.push(PriceEntry { command_id: id, price });
                i = i + 1;
                assert(out@ =~= Seq::new(i as nat, |j: int| dec_price_at(body, j)));
            }
            assert(data@.skip(start + 10 * n) =~= d.skip(4 + 10 * n));
            Some((FieldValue::Prices(out), start + 10 * n))
        },
    }
}

/// Reads a record of the given field kinds that fills `data` exactly.
pub fn read_fields(kinds: &[FieldKind], data: &[u8]) -> (r: Option<Vec<FieldValue>>)
    ensures
        match r {
            Some(vs) => dec_fields(kinds@, data@) == Some(fields_view(vs@)),
            None => dec_fields(kinds@, data@) is None,
        },
{
    let mut out: Vec<FieldValue> = Vec::new();
    let mut pos: usize = 0;
    let mut i: usize = 0;
    assert(data@.skip(0) =~= data@);
    assert(kinds@.skip(0) =~= kinds@);
    while i < kinds.len()
        invariant
            i <= kinds.len(),
            pos <= data@.len(),
            dec_fields(kinds@, data@) == match dec_fields(
                kinds@.skip(i as int),
                data@.skip(pos as int),
            ) {
                Some(vs) => Some(fields_view(out@) + vs),
                None => None::<Seq<FieldData>>,
            },
        decreases kinds.len() - i,
    {
        let ghost ks = kinds@.skip(i as int);
        assert(ks[0] == kinds@[i as int]);
        assert(ks.drop_first() =~= kinds@.skip(i + 1));
        match read_field(kinds[i], data, pos) {
            None => {
                return None;
            },
            Some((v, next)) => {
                let ghost old_view = fields_view(out@);
                out.push(v);
                assert(fields_view(out@) =~= old_view + seq![v@]);
                assert forall|vs: Seq<FieldData>| true implies old_view + (seq![v@] + vs)
                    =~= fields_view(out@) + vs by {}
                pos = next;
                i = i + 1;
            },
        }
    }
    assert(kinds@.skip(i as int) =~= Seq::<FieldKind>::empty());
    if pos < data.len() {
        assert(data@.skip(pos as int).len() > 0);
        return None;
    }
    assert(data@.skip(pos as int) =~= Seq::<u8>::empty());
    assert(fields_view(out@) + Seq::<FieldData>::empty() =~= fields_view(out@));
    Some(out)
}


// ---------------------------------------------------------------------------
// Taking typed values out of a record

pub fn key_at(fs: &Vec<FieldValue>, i: usize) -> (r: Pubkey)
    requires
        i < fs@.len(),
        kind_of(fs@[i as int]@) == FieldKind::Key,
    ensures
        fs@[i as int]@ == FieldData::Key(r),
{
    match &fs[i] {
        FieldValue::Key(k) => *k,
        _ => {
            proof {
                assert(false);
            }
            Pubkey::zero()
        },
    }
}

pub fn u16_at(fs: &Vec<FieldValue>, i: usize) -> (r: u16)
    requires
        i < fs@.len(),
        kind_of(fs@[i as int]@) == FieldKind::U16,
    ensures
        fs@[i as int]@ == FieldData::U16(r),
{
    match &fs[i] {
        FieldValue::U16(x) => *x,
        _ => {
            proof {
                assert(false);
            }
            0
        },
    }
}

pub fn u64_at(fs: &Vec<FieldValue>, i: usize) -> (r: u64)
    requires
        i < fs@.len(),
        kind_of(fs@[i as int]@) == FieldKind::U64,
    ensures
        fs@[i as int]@ == FieldData::U64(r),
{
    match &fs[i] {
        FieldValue::U64(x) => *x,
        _ => {
            proof {
                assert(false);
            }
            0
        },
    }
}

pub fn i64_at(fs: &Vec<FieldValue>, i: usize) -> (r: i64)
    requires
        i < fs@.len(),
        kind_of(fs@[i as int]@) == FieldKind::I64,
    ensures
        fs@[i as int]@ == FieldData::I64(r),
{
    match &fs[i] {
        FieldValue::I64(x) => *x,
        _ => {
            proof {
                assert(false);
            }
            0
        },
    }
}

pub fn bytes_at(fs: &Vec<FieldValue>, i: usize) -> (r: Vec<u8>)
    requires
        i < fs@.len(),
        kind_of(fs@[i as int]@) == FieldKind::Bytes,
    ensures
        fs@[i as int]@ == FieldData::Bytes(r@),
{
    match &fs[i] {
        FieldValue::Bytes(b) => b.clone(),
        _ => {
            proof {
                assert(false);
            }
            Vec::new()
        },
    }
}

pub fn prices_at(fs: &Vec<FieldValue>, i: usize) -> (r: Vec<PriceEntry>)
    requires
        i < fs@.len(),
        kind_of(fs@[i as int]@) == FieldKind::Prices,
    ensures
        fs@[i as int]@ == FieldData::Prices(r@),
{
    match &fs[i] {
        FieldValue::Prices(p) => p.clone(),
        _ => {
            proof {
                assert(false);
            }
            Vec::new()
        },
    }
}

/// Byte-wise equality of two byte strings.
pub fn bytes_equal(a: &[u8], b: &[u8]) -> (r: bool)
    ensures
        r == (a@ == b@),
{
    if a.len() != b.len() {
        return false;
    }
    let mut i: usize = 0;
    while i < a.len()
        invariant
            i <= a@.len(),
            a@.len() == b@.len(),
            forall|j: int| 0 <= j < i ==> a@[j] == b@[j],
        decreases a@.len() - i,
    {
        if a[i] != b[i] {
            return false;
        }
        i = i + 1;
    }
    assert(a@ =~= b@);
    true
}


/// Appends the bytes of `s` to `out`.
pub fn append_bytes(out: &mut Vec<u8>, s: &[u8])
    ensures
        final(out)@ == old(out)@ + s@,
{
    let ghost start = out@;
    let mut i: usize = 0;
    while i < s.len()
        invariant
            i <= s@.len(),
            out@ == start + s@.subrange(0, i as int),
        decreases s@.len() - i,
    {
        out.push(s[i]);
        i = i + 1;
        assert(out@ =~= start + s@.subrange(0, i as int));
    }
    assert(s@.subrange(0, s@.len() as int) =~= s@);
}

} // verus!
