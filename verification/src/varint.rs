use vstd::prelude::*;

verus! {

/// The base-128 varint encoding of `v`: seven bits per byte, least
/// significant group first, the high bit set on every byte but the last.
pub open spec fn spec_varint(v: u64) -> Seq<u8>
    decreases v,
{
    if v < 0x80 {
        seq![v as u8]
    } else {
        proof {
            lemma_shr7_decreases(v);
        }
        seq![((v & 0x7f) | 0x80) as u8] + spec_varint(v >> 7)
    }
}

pub proof fn lemma_shr7_decreases(v: u64)
    requires
        v >= 0x80,
    ensures
        v >> 7 < v,
{
    assert(v >= 0x80 ==> v >> 7 < v) by (bit_vector);
}

/// Reading a varint from `b`, `i` bytes already read and their groups
/// collected in `acc`: up to ten bytes, each adding its low seven bits at bit
/// `7 * i`; the first byte below `0x80` ends the varint, and a tenth byte
/// above `1` (which would overflow 64 bits) or running out of bytes fails.
/// The result is the value and the number of bytes read.
pub open spec fn spec_varint_from(b: Seq<u8>, i: nat, acc: u64) -> Option<(u64, nat)>
    decreases 10 - i,
{
    if i >= 10 || i >= b.len() {
        None
    } else {
        let byte = b[i as int];
        let acc2 = acc | (((byte & 0x7f) as u64) << ((7 * i) as u64));
        if byte < 0x80 {
            if i == 9 && byte >= 2 {
                None
            } else {
                Some((acc2, i + 1))
            }
        } else {
            spec_varint_from(b, i + 1, acc2)
        }
    }
}

/// Decodes the varint at the start of `b`: its value and its length.
pub open spec fn spec_decode_varint(b: Seq<u8>) -> Option<(u64, nat)> {
    spec_varint_from(b, 0, 0)
}

/// A decoded varint lies within the bytes it was read from and is at least
/// one byte long.
pub proof fn lemma_varint_from_bounds(b: Seq<u8>, i: nat, acc: u64)
    ensures
        spec_varint_from(b, i, acc) matches Some((v, n)) ==> i < n <= b.len() && n <= 10,
    decreases 10 - i,
{
    if i < 10 && i < b.len() && b[i as int] >= 0x80 {
        let acc2 = acc | (((b[i as int] & 0x7f) as u64) << ((7 * i) as u64));
        lemma_varint_from_bounds(b, i + 1, acc2);
    }
}

/// A decoded varint lies within the bytes it was read from.
pub proof fn lemma_decode_varint_bounds(b: Seq<u8>)
    ensures
        spec_decode_varint(b) matches Some((v, n)) ==> 1 <= n <= b.len() && n <= 10,
{
    lemma_varint_from_bounds(b, 0, 0);
}

/// Decoding only looks at the bytes the varint occupies.
pub proof fn lemma_varint_from_prefix(b: Seq<u8>, c: Seq<u8>, i: nat, acc: u64)
    requires
        spec_varint_from(b, i, acc) is Some,
        c.len() >= spec_varint_from(b, i, acc).unwrap().1,
        forall|j: int| 0 <= j < spec_varint_from(b, i, acc).unwrap().1 ==> b[j] == c[j],
    ensures
        spec_varint_from(c, i, acc) == spec_varint_from(b, i, acc),
    decreases 10 - i,
{
    lemma_varint_from_bounds(b, i, acc);
    if b[i as int] >= 0x80 {
        let acc2 = acc | (((b[i as int] & 0x7f) as u64) << ((7 * i) as u64));
        lemma_varint_from_prefix(b, c, i + 1, acc2);
    }
}

/// The mask of the `7 * i` low bits.
pub open spec fn low_mask(i: u64) -> u64 {
    ((1u64 << ((7 * i) as u64)) - 1) as u64
}

proof fn lemma_varint_step_bits(v: u64, i: u64)
    requires
        i <= 8,
        v >> ((7 * i) as u64) >= 0x80,
    ensures
        (v & low_mask(i)) | ((((((v >> ((7 * i) as u64)) & 0x7f) | 0x80) as u8 & 0x7f) as u64) << (7
            * i)) == v & low_mask((i + 1) as u64),
        (v >> ((7 * i) as u64)) >> 7 == v >> ((7 * (i + 1)) as u64),
{
    assert(i <= 8 ==> (v & (((1u64 << ((7 * i) as u64)) - 1) as u64)) | ((((((v >> ((7 * i) as u64)) & 0x7f)
        | 0x80) as u8 & 0x7f) as u64) << ((7 * i) as u64)) == v & (((1u64 << ((7 * (i + 1)) as u64)) - 1) as u64))
        by (bit_vector);
    assert(i <= 8 ==> (v >> ((7 * i) as u64)) >> 7 == v >> ((7 * (i + 1)) as u64)) by (bit_vector);
}

proof fn lemma_varint_last_bits(v: u64, i: u64)
    requires
        i <= 9,
        v >> ((7 * i) as u64) < 0x80,
    ensures
        (v & low_mask(i)) | (((((v >> ((7 * i) as u64)) as u8) & 0x7f) as u64) << ((7 * i) as u64)) == v,
        i == 9 ==> (v >> ((7 * i) as u64)) < 2,
{
    assert(i <= 9 && v >> ((7 * i) as u64) < 0x80 ==> (v & (((1u64 << ((7 * i) as u64)) - 1) as u64)) | (((((v
        >> ((7 * i) as u64)) as u8) & 0x7f) as u64) << ((7 * i) as u64)) == v) by (bit_vector);
    assert(i == 9 ==> (v >> ((7 * i) as u64)) < 2) by (bit_vector);
}

proof fn lemma_varint_decodes_at(b: Seq<u8>, i: nat, v: u64, rest: Seq<u8>)
    requires
        i <= 9,
        b.len() >= i,
        b.skip(i as int) == spec_varint(v >> ((7 * i) as u64)) + rest,
    ensures
        spec_varint_from(b, i, v & low_mask(i as u64)) == Some(
            (v, i + spec_varint(v >> ((7 * i) as u64)).len()),
        ),
    decreases 9 - i,
{
    let w = v >> ((7 * i) as u64);
    let s = spec_varint(w);
    assert(s.len() >= 1);
    assert(b.skip(i as int).len() == b.len() - i);
    assert(b[i as int] == b.skip(i as int)[0]);
    if w < 0x80 {
        assert(s == seq![w as u8]);
        lemma_varint_last_bits(v, i as u64);
    } else {
        if i == 9 {
            assert(v >> 63u64 < 2) by (bit_vector);
            assert(w == v >> 63u64);
        }
        lemma_varint_step_bits(v, i as u64);
        let tail = spec_varint(w >> 7);
        assert(s == seq![((w & 0x7f) | 0x80) as u8] + tail);
        assert(b.skip((i + 1) as int) =~= tail + rest) by {
            assert(b.skip((i + 1) as int) =~= b.skip(i as int).drop_first());
            assert((s + rest).drop_first() =~= tail + rest);
        }
        assert(((w & 0x7f) | 0x80) as u8 >= 0x80) by (bit_vector);
        lemma_varint_decodes_at(b, i + 1, v, rest);
    }
}

/// Decoding the encoding of `v`, followed by anything, gives back `v` and the
/// length of its encoding.
pub proof fn lemma_varint_roundtrip(v: u64, rest: Seq<u8>)
    ensures
        spec_decode_varint(spec_varint(v) + rest) == Some((v, spec_varint(v).len())),
{
    let b = spec_varint(v) + rest;
    assert(b.skip(0) =~= b);
    assert(v >> 0u64 == v) by (bit_vector);
    assert(v & low_mask(0) == 0) by (bit_vector);
    lemma_varint_decodes_at(b, 0, v, rest);
}

/// The encoding of `v` is one to ten bytes long.
pub proof fn lemma_varint_len(v: u64)
    ensures
        1 <= spec_varint(v).len() <= 10,
{
    lemma_varint_roundtrip(v, Seq::empty());
    lemma_decode_varint_bounds(spec_varint(v) + Seq::empty());
    assert(spec_varint(v) + Seq::<u8>::empty() =~= spec_varint(v));
}

/// Appends the varint encoding of `v` to `buf`.
pub fn encode_varint(v: u64, buf: &mut Vec<u8>)
    ensures
        final(buf)@ == old(buf)@ + spec_varint(v),
{
    let mut value = v;
    while value >= 0x80
        invariant
            old(buf)@ + spec_varint(v) == buf@ + spec_varint(value),
        decreases value,
    {
        let byte = ((value & 0x7f) | 0x80) as u8;
        let ghost prev = buf@;
        proof {
            lemma_shr7_decreases(value);
        }
        buf.push(byte);
        assert(spec_varint(value) == seq![byte] + spec_varint(value >> 7));
        assert(buf@ + spec_varint(value >> 7) =~= prev + spec_varint(value));
        value = value >> 7;
    }
    buf.push(value as u8);
    assert(spec_varint(value) == seq![value as u8]);
    assert(old(buf)@ + spec_varint(v) =~= buf@);
}

/// Decodes the varint that starts at `pos` in `b`: its value and the position
/// just after it.
pub fn decode_varint(b: &[u8], pos: usize) -> (r: Option<(u64, usize)>)
    requires
        pos <= b@.len(),
    ensures
        r == (match spec_decode_varint(b@.skip(pos as int)) {
            Some((v, n)) => Some((v, (pos + n) as usize)),
            None => None,
        }),
{
    let ghost bs = b@.skip(pos as int);
    let mut value: u64 = 0;
    let mut i: usize = 0;
    while i < 10 && i < b.len() - pos
        invariant
            pos <= b@.len(),
            bs == b@.skip(pos as int),
            i <= 10,
            spec_varint_from(bs, 0, 0) == spec_varint_from(bs, i as nat, value),
        decreases 10 - i,
    {
        let byte = b[pos + i];
        assert(byte == bs[i as int]);
        value = value | (((byte & 0x7f) as u64) << ((7 * i) as u64));
        if byte < 0x80 {
            if i == 9 && byte >= 2 {
                return None;
            }
            proof {
                lemma_decode_varint_bounds(bs);
            }
            return Some((value, pos + i + 1));
        }
        i = i + 1;
    }
    None
}

} // verus!
