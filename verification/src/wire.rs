//! Payload codecs for the wire protocol.
//!
//! Request and reply payloads travel as byte strings inside transport
//! frames. An unsigned 32-bit word is encoded as a variable-length integer
//! (seven payload bits per byte, least significant group first, the high bit
//! of each byte marking a continuation; at most five bytes, and the fifth
//! byte may only carry the top four bits). A 32-bit bit pattern — the wire
//! form of a single-precision reading — is encoded as four bytes, least
//! significant first. Decoders return `None` on malformed input; a decoder
//! for a value consumes a prefix and reports how far it read.

use vstd::prelude::*;

verus! {

/// Encoding of a 32-bit word as a variable-length integer.
pub open spec fn spec_varint(x: u32) -> Seq<u8>
    decreases x,
{
    if x < 0x80 {
        seq![x as u8]
    } else {
        seq![((x % 0x80) + 0x80) as u8] + spec_varint(x / 0x80)
    }
}

/// Largest value a variable-length integer can still hold when `iter` of
/// its bytes have already been read (exclusive bound).
pub open spec fn varint_bound(iter: int) -> int {
    if iter <= 0 {
        0x1_0000_0000
    } else if iter == 1 {
        0x200_0000
    } else if iter == 2 {
        0x4_0000
    } else if iter == 3 {
        0x800
    } else {
        0x10
    }
}

/// Value and end position of the variable-length integer starting at `i`,
/// with `iter` bytes of it already consumed; `None` if the bytes there are
/// not a well-formed encoding (truncated, longer than five bytes, or a
/// fifth byte above the top four bits).
pub open spec fn spec_decode_varint_at(s: Seq<u8>, i: int, iter: int) -> Option<(int, int)>
    decreases 5 - iter,
{
    if !(0 <= i < s.len()) || iter >= 5 {
        None
    } else {
        let b = s[i] as int;
        if b < 0x80 {
            if iter == 4 && b > 0x0f {
                None
            } else {
                Some((b, i + 1))
            }
        } else {
            if iter >= 4 {
                None
            } else {
                match spec_decode_varint_at(s, i + 1, iter + 1) {
                    None => None,
                    Some((v, j)) => Some(((b - 0x80) + 0x80 * v, j)),
                }
            }
        }
    }
}

/// A decoded variable-length integer fits under the bound for the bytes
/// still available, and the decoder consumed at least one byte and stayed
/// inside the input.
pub proof fn lemma_decode_varint_bound(s: Seq<u8>, i: int, iter: int)
    requires
        0 <= iter <= 4,
    ensures
        spec_decode_varint_at(s, i, iter) matches Some(vj) ==> {
            &&& 0 <= vj.0 < varint_bound(iter)
            &&& i < vj.1 <= s.len()
        },
    decreases 5 - iter,
{
    if 0 <= i < s.len() && iter < 5 {
        let b = s[i] as int;
        if b >= 0x80 && iter < 4 {
            lemma_decode_varint_bound(s, i + 1, iter + 1);
        }
    }
}

/// Decoding of a variable-length 32-bit word at position `i`: its value and
/// the position just past it, or `None` on malformed input.
pub open spec fn spec_decode_varint(s: Seq<u8>, i: int) -> Option<(u32, int)> {
    match spec_decode_varint_at(s, i, 0) {
        None => None,
        Some((v, j)) => Some((v as u32, j)),
    }
}

/// Reads a variable-length 32-bit word from `buf` at `start`.
pub fn decode_varint_u32(buf: &Vec<u8>, start: usize) -> (r: Option<(u32, usize)>)
    ensures
        match spec_decode_varint(buf@, start as int) {
            None => r is None,
            Some(vj) => r matches Some(e) && e.0 == vj.0 && e.1 as int == vj.1,
        },
{
    decode_varint_inner(buf, start, 0)
}

fn decode_varint_inner(buf: &Vec<u8>, i: usize, iter: usize) -> (r: Option<(u32, usize)>)
    requires
        iter <= 4,
    ensures
        match spec_decode_varint_at(buf@, i as int, iter as int) {
            None => r is None,
            Some(vj) => r matches Some(e) && e.0 as int == vj.0 && e.1 as int == vj.1,
        },
    decreases 4 - iter,
{
    proof {
        lemma_decode_varint_bound(buf@, i as int, iter as int);
    }
    if i >= buf.len() {
        return None;
    }
    let b: u8 = buf[i];
    if b < 0x80 {
        if iter == 4 && b > 0x0f {
            None
        } else {
            Some((b as u32, i + 1))
        }
    } else {
        if iter >= 4 {
            None
        } else {
            proof {
                lemma_decode_varint_bound(buf@, i as int + 1, iter as int + 1);
            }
            match decode_varint_inner(buf, i + 1, iter + 1) {
                None => None,
                Some((v, j)) => Some(((b - 0x80) as u32 + 0x80 * v, j)),
            }
        }
    }
}

/// Appends the variable-length encoding of `x` to `out`.
pub fn encode_varint_u32(x: u32, out: &mut Vec<u8>)
    ensures
        final(out)@ == old(out)@ + spec_varint(x),
    decreases x,
{
    if x < 0x80 {
        out.push(x as u8);
        assert(out@ =~= old(out)@ + spec_varint(x));
    } else {
        out.push(((x % 0x80) + 0x80) as u8);
        encode_varint_u32(x / 0x80, out);
        assert(out@ =~= old(out)@ + spec_varint(x));
    }
}

/// Decoding a variable-length encoding placed at `i` in any byte string
/// yields back the encoded value and stops right past its last byte: the
/// codec round-trips.
pub proof fn lemma_varint_round_trip(s: Seq<u8>, i: int, x: u32)
    requires
        0 <= i,
        i + spec_varint(x).len() <= s.len(),
        s.subrange(i, i + spec_varint(x).len() as int) == spec_varint(x),
    ensures
        spec_decode_varint(s, i) == Some((x, i + spec_varint(x).len())),
{
    lemma_varint_round_trip_at(s, i, x, 0);
}

proof fn lemma_varint_round_trip_at(s: Seq<u8>, i: int, x: u32, iter: int)
    requires
        0 <= i,
        0 <= iter <= 4,
        x < varint_bound(iter),
        i + spec_varint(x).len() <= s.len(),
        s.subrange(i, i + spec_varint(x).len() as int) == spec_varint(x),
    ensures
        spec_decode_varint_at(s, i, iter) == Some((x as int, i + spec_varint(x).len())),
    decreases 5 - iter,
{
    let enc = spec_varint(x);
    assert(s.subrange(i, i + enc.len() as int)[0] == s[i]);
    if x < 0x80 {
        assert(s[i] == x as u8);
    } else {
        assert(s[i] == ((x % 0x80) + 0x80) as u8);
        let rest = spec_varint(x / 0x80);
        assert(enc == seq![((x % 0x80) + 0x80) as u8] + rest);
        assert(x / 0x80 < varint_bound(iter + 1)) by {
            assert(x < varint_bound(iter));
        };
        assert(s.subrange(i + 1, i + 1 + rest.len() as int) =~= rest) by {
            assert forall|k: int| 0 <= k < rest.len() implies s.subrange(
                i + 1,
                i + 1 + rest.len() as int,
            )[k] == rest[k] by {
                assert(s.subrange(i, i + enc.len() as int)[k + 1] == enc[k + 1]);
            }
        };
        lemma_varint_round_trip_at(s, i + 1, x / 0x80, iter + 1);
        assert(s[i] as int - 0x80 + 0x80 * ((x / 0x80) as int) == x as int);
    }
}

/// Encoding of a 32-bit bit pattern as four bytes, least significant first.
pub open spec fn spec_le4(x: u32) -> Seq<u8> {
    seq![
        (x & 0xff) as u8,
        ((x >> 8) & 0xff) as u8,
        ((x >> 16) & 0xff) as u8,
        ((x >> 24) & 0xff) as u8,
    ]
}

/// Value of four little-endian bytes starting at `i`, or `None` if fewer
/// than four bytes remain.
pub open spec fn spec_decode_le4(s: Seq<u8>, i: int) -> Option<(u32, int)> {
    if 0 <= i && i + 4 <= s.len() {
        Some(
            (
                (s[i] as u32) | ((s[i + 1] as u32) << 8) | ((s[i + 2] as u32) << 16) | ((s[i + 3]
                    as u32) << 24),
                i + 4,
            ),
        )
    } else {
        None
    }
}

/// Appends the four-byte little-endian encoding of `x` to `out`.
pub fn encode_le4(x: u32, out: &mut Vec<u8>)
    ensures
        final(out)@ == old(out)@ + spec_le4(x),
{
    out.push((x & 0xff) as u8);
    out.push(((x >> 8) & 0xff) as u8);
    out.push(((x >> 16) & 0xff) as u8);
    out.push(((x >> 24) & 0xff) as u8);
    assert(out@ =~= old(out)@ + spec_le4(x));
}

/// Reads four little-endian bytes from `buf` at `start`.
pub fn decode_le4(buf: &Vec<u8>, start: usize) -> (r: Option<(u32, usize)>)
    ensures
        match spec_decode_le4(buf@, start as int) {
            None => r is None,
            Some(vj) => r matches Some(e) && e.0 == vj.0 && e.1 as int == vj.1,
        },
{
    if start < buf.len() && buf.len() - start >= 4 {
        let b0: u32 = buf[start] as u32;
        let b1: u32 = buf[start + 1] as u32;
        let b2: u32 = buf[start + 2] as u32;
        let b3: u32 = buf[start + 3] as u32;
        Some((b0 | (b1 << 8) | (b2 << 16) | (b3 << 24), start + 4))
    } else {
        None
    }
}

/// The four little-endian bytes of a word decode back to that word: the
/// fixed-width codec round-trips.
pub proof fn lemma_le4_round_trip(s: Seq<u8>, i: int, x: u32)
    requires
        0 <= i,
        i + 4 <= s.len(),
        s.subrange(i, i + 4) == spec_le4(x),
    ensures
        spec_decode_le4(s, i) == Some((x, i + 4)),
{
    assert(s[i] == spec_le4(x)[0] && s[i + 1] == spec_le4(x)[1] && s[i + 2] == spec_le4(x)[2] && s[i
        + 3] == spec_le4(x)[3]) by {
        assert(s.subrange(i, i + 4)[0] == s[i]);
        assert(s.subrange(i, i + 4)[1] == s[i + 1]);
        assert(s.subrange(i, i + 4)[2] == s[i + 2]);
        assert(s.subrange(i, i + 4)[3] == s[i + 3]);
    };
    let b0 = (x & 0xff) as u8;
    let b1 = ((x >> 8) & 0xff) as u8;
    let b2 = ((x >> 16) & 0xff) as u8;
    let b3 = ((x >> 24) & 0xff) as u8;
    assert((b0 as u32) | ((b1 as u32) << 8) | ((b2 as u32) << 16) | ((b3 as u32) << 24) == x)
        by (bit_vector)
        requires
            b0 == (x & 0xff) as u8,
            b1 == ((x >> 8) & 0xff) as u8,
            b2 == ((x >> 16) & 0xff) as u8,
            b3 == ((x >> 24) & 0xff) as u8,
    ;
}

} // verus!
