use crate::state::{AccountState, RecordModel};
use borsh::{BorshDeserialize, BorshSerialize};
use vstd::prelude::*;
use vstd::utf8::*;

verus! {

/// The four little-endian bytes of `n`.
pub open spec fn le32(n: u32) -> Seq<u8> {
    seq![n as u8, (n >> 8u32) as u8, (n >> 16u32) as u8, (n >> 24u32) as u8]
}

/// The number whose little-endian bytes start `b`.
pub open spec fn le32_value(b: Seq<u8>) -> u32
    recommends
        b.len() >= 4,
{
    (b[0] as u32) | ((b[1] as u32) << 8u32) | ((b[2] as u32) << 16u32) | ((b[3] as u32) << 24u32)
}

/// A string on the wire: its UTF-8 length as a little-endian u32, then its UTF-8 bytes.
pub open spec fn string_bytes(s: Seq<char>) -> Seq<u8> {
    le32(encode_utf8(s).len() as u32) + encode_utf8(s)
}

/// Whether a string fits the wire format's u32 length prefix.
pub open spec fn encodable_string(s: Seq<char>) -> bool {
    encode_utf8(s).len() <= u32::MAX
}

/// The string that starts `b`, and how many bytes it takes; `None` where the
/// length prefix runs past the end or the bytes are not UTF-8.
pub open spec fn parse_string(b: Seq<u8>) -> Option<(Seq<char>, nat)> {
    if b.len() >= 4 && 4 + le32_value(b) <= b.len() && valid_utf8(
        b.subrange(4, 4 + le32_value(b)),
    ) {
        Some((decode_utf8(b.subrange(4, 4 + le32_value(b))), (4 + le32_value(b)) as nat))
    } else {
        None
    }
}

pub open spec fn bool_byte(b: bool) -> u8 {
    if b {
        1
    } else {
        0
    }
}

/// A record on the wire: initialized flag, rating, description, title.
pub open spec fn record_bytes(m: RecordModel) -> Seq<u8> {
    seq![bool_byte(m.is_initialized), m.rating] + string_bytes(m.description) + string_bytes(
        m.title,
    )
}

/// Whether both strings of a record fit the wire format.
pub open spec fn encodable_record(m: RecordModel) -> bool {
    encodable_string(m.description) && encodable_string(m.title)
}

/// The record that starts `b`, and how many bytes it takes; bytes after it are ignored.
pub open spec fn parse_record(b: Seq<u8>) -> Option<(RecordModel, nat)> {
    if b.len() < 2 || b[0] > 1 {
        None
    } else {
        match parse_string(b.skip(2)) {
            None => None,
            Some((d, n1)) => match parse_string(b.skip(2 + n1 as int)) {
                None => None,
                Some((t, n2)) => Some(
                    (
                        RecordModel {
                            is_initialized: b[0] == 1,
                            rating: b[1],
                            description: d,
                            title: t,
                        },
                        2 + n1 + n2,
                    ),
                ),
            },
        }
    }
}

proof fn lemma_le32_value_of_le32(n: u32, rest: Seq<u8>)
    ensures
        le32_value(le32(n) + rest) == n,
{
    let b = le32(n) + rest;
    assert(b[0] == n as u8 && b[1] == (n >> 8u32) as u8 && b[2] == (n >> 16u32) as u8 && b[3] == (
    n >> 24u32) as u8);
    assert(((n as u8) as u32) | ((((n >> 8u32) as u8) as u32) << 8u32) | ((((n >> 16u32) as u8)
        as u32) << 16u32) | ((((n >> 24u32) as u8) as u32) << 24u32) == n) by (bit_vector);
}

proof fn lemma_le32_of_le32_value(b: Seq<u8>)
    requires
        b.len() >= 4,
    ensures
        le32(le32_value(b)) == b.take(4),
{
    let (b0, b1, b2, b3) = (b[0], b[1], b[2], b[3]);
    let v = le32_value(b);
    assert(v == (b0 as u32) | ((b1 as u32) << 8u32) | ((b2 as u32) << 16u32) | ((b3 as u32)
        << 24u32));
    assert(v as u8 == b0 && (v >> 8u32) as u8 == b1 && (v >> 16u32) as u8 == b2 && (v >> 24u32)
        as u8 == b3) by (bit_vector)
        requires
            v == (b0 as u32) | ((b1 as u32) << 8u32) | ((b2 as u32) << 16u32) | ((b3 as u32)
                << 24u32),
    ;
    assert(le32(v) =~= b.take(4));
}

proof fn lemma_parse_string_bytes(s: Seq<char>, rest: Seq<u8>)
    requires
        encodable_string(s),
    ensures
        parse_string(string_bytes(s) + rest) == Some((s, string_bytes(s).len())),
{
    let e = encode_utf8(s);
    let b = string_bytes(s) + rest;
    lemma_le32_value_of_le32(e.len() as u32, e + rest);
    assert(b =~= le32(e.len() as u32) + (e + rest));
    assert(b.subrange(4, 4 + e.len() as int) =~= e);
    encode_utf8_valid_utf8(s);
    encode_utf8_decode_utf8(s);
}

proof fn lemma_string_bytes_of_parse(b: Seq<u8>)
    requires
        parse_string(b) is Some,
    ensures
        encodable_string(parse_string(b)->Some_0.0),
        string_bytes(parse_string(b)->Some_0.0) == b.take(parse_string(b)->Some_0.1 as int),
{
    let n = le32_value(b);
    let payload = b.subrange(4, 4 + n);
    decode_utf8_encode_utf8(payload);
    lemma_le32_of_le32_value(b);
    assert(encode_utf8(decode_utf8(payload)).len() == n);
    assert(b.take(4 + n) =~= b.take(4) + payload);
}

/// Decoding the encoding of a record gives the record back, whatever bytes
/// follow it, and the encoding is exactly what decoding consumes.
pub proof fn lemma_parse_record_bytes(m: RecordModel, rest: Seq<u8>)
    requires
        encodable_record(m),
    ensures
        parse_record(record_bytes(m) + rest) == Some((m, record_bytes(m).len())),
{
    let b = record_bytes(m) + rest;
    let d = string_bytes(m.description);
    let t = string_bytes(m.title);
    assert(b.skip(2) =~= d + (t + rest));
    lemma_parse_string_bytes(m.description, t + rest);
    assert(b.skip(2 + d.len() as int) =~= t + rest);
    lemma_parse_string_bytes(m.title, rest);
}

/// Encoding a decoded record gives back exactly the bytes it was decoded from.
pub proof fn lemma_record_bytes_of_parse(b: Seq<u8>)
    requires
        parse_record(b) is Some,
    ensures
        encodable_record(parse_record(b)->Some_0.0),
        record_bytes(parse_record(b)->Some_0.0) == b.take(parse_record(b)->Some_0.1 as int),
{
    let n1: int = parse_string(b.skip(2))->Some_0.1 as int;
    let n2: int = parse_string(b.skip(2 + n1))->Some_0.1 as int;
    lemma_string_bytes_of_parse(b.skip(2));
    lemma_string_bytes_of_parse(b.skip(2 + n1));
    assert(b.skip(2).take(n1) =~= b.subrange(2, 2 + n1));
    assert(b.skip(2 + n1).take(n2) =~= b.subrange(2 + n1, 2 + n1 + n2));
    assert(seq![bool_byte(b[0] == 1), b[1]] =~= b.take(2));
    assert(b.take(2 + n1 + n2) =~= b.take(2) + b.subrange(2, 2 + n1) + b.subrange(
        2 + n1,
        2 + n1 + n2,
    ));
}

/// A record that fills a byte string exactly encodes back to that byte string,
/// and every encodable record decodes back to itself.
pub proof fn lemma_record_round_trip(b: Seq<u8>, m: RecordModel)
    requires
        parse_record(b) is Some,
        parse_record(b)->Some_0.1 == b.len(),
        encodable_record(m),
    ensures
        record_bytes(parse_record(b)->Some_0.0) == b,
        parse_record(record_bytes(m)) == Some((m, record_bytes(m).len())),
{
    lemma_record_bytes_of_parse(b);
    assert(b.take(b.len() as int) =~= b);
    lemma_parse_record_bytes(m, Seq::empty());
    assert(record_bytes(m) + Seq::<u8>::empty() =~= record_bytes(m));
}

/// The length of a record's encoding.
pub proof fn lemma_record_bytes_len(m: RecordModel)
    ensures
        record_bytes(m).len() == 10 + encode_utf8(m.description).len() + encode_utf8(m.title).len(),
{
}

/// Relies on borsh's `String::deserialize_reader` on a byte slice: it reads a
/// little-endian u32 length, then that many bytes, which `String::from_utf8`
/// must accept, and advances the slice past them.
#[verifier::external_body]
pub(crate) fn read_string(input: &[u8]) -> (r: Option<(String, &[u8])>)
    ensures
        r is Some <==> parse_string(input@) is Some,
        r matches Some((s, rest)) ==> s@ == parse_string(input@)->Some_0.0 && rest@ == input@.skip(
            parse_string(input@)->Some_0.1 as int,
        ),
{
    let mut rest = input;
    match String::deserialize(&mut rest) {
        Ok(s) => Some((s, rest)),
        Err(_) => None,
    }
}

/// Relies on borsh's `String::serialize` into a `Vec<u8>`: it appends the UTF-8
/// length as a little-endian u32, then the UTF-8 bytes; writing to a vector
/// does not fail.
#[verifier::external_body]
fn write_string(s: &String, out: &mut Vec<u8>) -> (ok: bool)
    requires
        encodable_string(s@),
    ensures
        ok,
        final(out)@ == old(out)@ + string_bytes(s@),
{
    s.serialize(out).is_ok()
}

impl AccountState {
    /// Decodes the record at the start of `data`; trailing bytes are ignored.
    pub fn deserialize(data: &[u8]) -> (r: Option<AccountState>)
        ensures
            r is Some <==> parse_record(data@) is Some,
            r matches Some(s) ==> s@ == parse_record(data@)->Some_0.0,
    {
        if data.len() < 2 || data[0] > 1 {
            return None;
        }
        let is_initialized = data[0] == 1;
        let rating = data[1];
        let rest = &data[2..data.len()];
        assert(rest@ == data@.skip(2));
        match read_string(rest) {
            None => None,
            Some((description, rest2)) => {
                assert(rest2@ == data@.skip(2 + parse_string(data@.skip(2))->Some_0.1 as int));
                match read_string(rest2) {
                    None => None,
                    Some((title, _)) => Some(
                        AccountState { is_initialized, rating, description, title },
                    ),
                }
            },
        }
    }

    /// Encodes the record in full.
    pub fn serialize(&self) -> (r: Vec<u8>)
        requires
            encodable_record(self@),
        ensures
            r@ == record_bytes(self@),
    {
        let mut out: Vec<u8> = Vec::new();
        out.push(if self.is_initialized {
            1u8
        } else {
            0u8
        });
        out.push(self.rating);
        write_string(&self.description, &mut out);
        write_string(&self.title, &mut out);
        assert(out@ =~= record_bytes(self@));
        out
    }
}

} // verus!
