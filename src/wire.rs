use crate::frame::FrameInfo;
use vstd::prelude::*;

verus! {

/// The length in bytes of an encoded frame announcement: eleven fields of
/// eight bytes each.
pub const INFO_LEN: usize = 88;

/// The byte of `x` that starts at bit `shift`.
pub open spec fn byte64(x: u64, shift: u64) -> u8 {
    ((x >> shift) & 0xffu64) as u8
}

/// The eight bytes of `x`, least significant first.
pub open spec fn le_bytes(x: u64) -> Seq<u8> {
    seq![
        byte64(x, 0),
        byte64(x, 8),
        byte64(x, 16),
        byte64(x, 24),
        byte64(x, 32),
        byte64(x, 40),
        byte64(x, 48),
        byte64(x, 56),
    ]
}

/// The little-endian integer held by the eight bytes of `b` from `i` on.
pub open spec fn le_u64(b: Seq<u8>, i: int) -> u64 {
    (b[i] as u64) | ((b[i + 1] as u64) << 8u64) | ((b[i + 2] as u64) << 16u64) | ((b[i
        + 3] as u64) << 24u64) | ((b[i + 4] as u64) << 32u64) | ((b[i + 5] as u64) << 40u64)
        | ((b[i + 6] as u64) << 48u64) | ((b[i + 7] as u64) << 56u64)
}

/// The fields of an announcement, in their order on the wire.
pub open spec fn info_words(info: FrameInfo) -> Seq<u64> {
    seq![
        info.width as u64,
        info.height as u64,
        info.stride as u64,
        info.fourcc as u64,
        info.size as u64,
        info.serial as u64,
        info.timestamp as u64,
        info.duration as u64,
        info.pts as u64,
        info.dts as u64,
        info.expires as u64,
    ]
}

/// The bytes of a sequence of words, eight per word.
pub open spec fn encode_words(w: Seq<u64>) -> Seq<u8>
    decreases w.len(),
{
    if w.len() == 0 {
        Seq::empty()
    } else {
        encode_words(w.drop_last()) + le_bytes(w.last())
    }
}

/// The encoded form of an announcement.
pub open spec fn encode_info(info: FrameInfo) -> Seq<u8> {
    encode_words(info_words(info))
}

/// The announcement that 88 bytes hold.
pub open spec fn decode_info(b: Seq<u8>) -> FrameInfo {
    FrameInfo {
        width: le_u64(b, 0) as u32,
        height: le_u64(b, 8) as u32,
        stride: le_u64(b, 16) as u32,
        fourcc: le_u64(b, 24) as u32,
        size: le_u64(b, 32) as usize,
        serial: le_u64(b, 40) as i64,
        timestamp: le_u64(b, 48) as i64,
        duration: le_u64(b, 56) as i64,
        pts: le_u64(b, 64) as i64,
        dts: le_u64(b, 72) as i64,
        expires: le_u64(b, 80) as i64,
    }
}

fn push_u64(v: &mut Vec<u8>, x: u64)
    ensures
        final(v)@ == old(v)@ + le_bytes(x),
{
    v.push((x & 0xffu64) as u8);
    v.push(((x >> 8u64) & 0xffu64) as u8);
    v.push(((x >> 16u64) & 0xffu64) as u8);
    v.push(((x >> 24u64) & 0xffu64) as u8);
    v.push(((x >> 32u64) & 0xffu64) as u8);
    v.push(((x >> 40u64) & 0xffu64) as u8);
    v.push(((x >> 48u64) & 0xffu64) as u8);
    v.push(((x >> 56u64) & 0xffu64) as u8);
    proof {
        assert(x >> 0u64 == x) by (bit_vector);
    }
    assert(final(v)@ =~= old(v)@ + le_bytes(x));
}

fn read_u64(b: &[u8], i: usize) -> (r: u64)
    requires
        i + 8 <= b@.len(),
    ensures
        r == le_u64(b@, i as int),
{
    (b[i] as u64) | ((b[i + 1] as u64) << 8u64) | ((b[i + 2] as u64) << 16u64) | ((b[i
        + 3] as u64) << 24u64) | ((b[i + 4] as u64) << 32u64) | ((b[i + 5] as u64) << 40u64)
        | ((b[i + 6] as u64) << 48u64) | ((b[i + 7] as u64) << 56u64)
}

impl FrameInfo {
    /// The announcement as bytes: each field widened to 64 bits and written
    /// little-endian, in declaration order.
    pub fn to_bytes(&self) -> (r: Vec<u8>)
        ensures
            r@ == encode_info(*self),
            r@.len() == INFO_LEN,
    {
        let mut v: Vec<u8> = Vec::new();
        let ghost w = info_words(*self);
        push_u64(&mut v, self.width as u64);
        push_u64(&mut v, self.height as u64);
        push_u64(&mut v, self.stride as u64);
        push_u64(&mut v, self.fourcc as u64);
        push_u64(&mut v, self.size as u64);
        push_u64(&mut v, self.serial as u64);
        push_u64(&mut v, self.timestamp as u64);
        push_u64(&mut v, self.duration as u64);
        push_u64(&mut v, self.pts as u64);
        push_u64(&mut v, self.dts as u64);
        push_u64(&mut v, self.expires as u64);
        proof {
            reveal_with_fuel(encode_words, 12);
            assert(w.drop_last().drop_last().drop_last().drop_last().drop_last().drop_last().drop_last().drop_last().drop_last().drop_last().drop_last() =~= Seq::<u64>::empty());
            assert(v@ =~= encode_words(w));
        }
        v
    }

    /// Reads an announcement: `None` unless `b` holds exactly `INFO_LEN`
    /// bytes.
    pub fn from_bytes(b: &[u8]) -> (r: Option<FrameInfo>)
        ensures
            b@.len() != INFO_LEN ==> r is None,
            b@.len() == INFO_LEN ==> r == Some(decode_info(b@)),
    {
        if b.len() != INFO_LEN {
            return None;
        }
        Some(
            FrameInfo {
                width: read_u64(b, 0) as u32,
                height: read_u64(b, 8) as u32,
                stride: read_u64(b, 16) as u32,
                fourcc: read_u64(b, 24) as u32,
                size: read_u64(b, 32) as usize,
                serial: read_u64(b, 40) as i64,
                timestamp: read_u64(b, 48) as i64,
                duration: read_u64(b, 56) as i64,
                pts: read_u64(b, 64) as i64,
                dts: read_u64(b, 72) as i64,
                expires: read_u64(b, 80) as i64,
            },
        )
    }
}

proof fn lemma_le_round_trip(x: u64)
    ensures
        le_u64(le_bytes(x), 0) == x,
{
    let b = le_bytes(x);
    assert(le_u64(b, 0) == (((x >> 0u64) & 0xffu64) as u8 as u64) | ((((x >> 8u64) & 0xffu64) as u8
        as u64) << 8u64) | ((((x >> 16u64) & 0xffu64) as u8 as u64) << 16u64) | ((((x >> 24u64)
        & 0xffu64) as u8 as u64) << 24u64) | ((((x >> 32u64) & 0xffu64) as u8 as u64) << 32u64)
        | ((((x >> 40u64) & 0xffu64) as u8 as u64) << 40u64) | ((((x >> 48u64) & 0xffu64) as u8
        as u64) << 48u64) | ((((x >> 56u64) & 0xffu64) as u8 as u64) << 56u64));
    assert((((x >> 0u64) & 0xffu64) as u8 as u64) | ((((x >> 8u64) & 0xffu64) as u8 as u64)
        << 8u64) | ((((x >> 16u64) & 0xffu64) as u8 as u64) << 16u64) | ((((x >> 24u64)
        & 0xffu64) as u8 as u64) << 24u64) | ((((x >> 32u64) & 0xffu64) as u8 as u64) << 32u64)
        | ((((x >> 40u64) & 0xffu64) as u8 as u64) << 40u64) | ((((x >> 48u64) & 0xffu64) as u8
        as u64) << 48u64) | ((((x >> 56u64) & 0xffu64) as u8 as u64) << 56u64) == x)
        by (bit_vector);
}

/// Reading an encoded announcement gives it back.
pub proof fn lemma_info_round_trip(info: FrameInfo)
    ensures
        encode_info(info).len() == INFO_LEN,
        decode_info(encode_info(info)) == info,
{
    let w = info_words(info);
    reveal_with_fuel(encode_words, 12);
    let e = encode_info(info);
    assert(w.drop_last().drop_last().drop_last().drop_last().drop_last().drop_last().drop_last().drop_last().drop_last().drop_last().drop_last() =~= Seq::<u64>::empty());
    assert forall|k: int| 0 <= k < 11 implies le_u64(e, 8 * k) == #[trigger] w[k] by {
        lemma_le_round_trip(w[k]);
        assert(e.subrange(8 * k, 8 * k + 8) =~= le_bytes(w[k])) by {
            assert(e =~= le_bytes(w[0]) + le_bytes(w[1]) + le_bytes(w[2]) + le_bytes(w[3])
                + le_bytes(w[4]) + le_bytes(w[5]) + le_bytes(w[6]) + le_bytes(w[7]) + le_bytes(
                w[8],
            ) + le_bytes(w[9]) + le_bytes(w[10]));
        }
        assert(le_u64(e, 8 * k) == le_u64(e.subrange(8 * k, 8 * k + 8), 0));
    }
    assert(le_u64(e, 0) == w[0]);
    assert(le_u64(e, 8) == w[1]);
    assert(le_u64(e, 16) == w[2]);
    assert(le_u64(e, 24) == w[3]);
    assert(le_u64(e, 32) == w[4]);
    assert(le_u64(e, 40) == w[5]);
    assert(le_u64(e, 48) == w[6]);
    assert(le_u64(e, 56) == w[7]);
    assert(le_u64(e, 64) == w[8]);
    assert(le_u64(e, 72) == w[9]);
    assert(le_u64(e, 80) == w[10]);
    assert((info.width as u64) as u32 == info.width);
    assert((info.size as u64) as usize == info.size);
    lemma_i64_round_trip(info.serial);
    lemma_i64_round_trip(info.timestamp);
    lemma_i64_round_trip(info.duration);
    lemma_i64_round_trip(info.pts);
    lemma_i64_round_trip(info.dts);
    lemma_i64_round_trip(info.expires);
}

proof fn lemma_i64_round_trip(x: i64)
    ensures
        (x as u64) as i64 == x,
{
    assert((x as u64) as i64 == x) by (bit_vector);
}

} // verus!
