use vstd::prelude::*;

use crate::hex::push_all;

verus! {

/// Little-endian eight-byte representation of a length.
pub open spec fn le8(n: nat) -> Seq<u8> {
    let q1 = n / 256;
    let q2 = q1 / 256;
    let q3 = q2 / 256;
    let q4 = q3 / 256;
    let q5 = q4 / 256;
    let q6 = q5 / 256;
    let q7 = q6 / 256;
    seq![
        (n % 256) as u8,
        (q1 % 256) as u8,
        (q2 % 256) as u8,
        (q3 % 256) as u8,
        (q4 % 256) as u8,
        (q5 % 256) as u8,
        (q6 % 256) as u8,
        (q7 % 256) as u8,
    ]
}

/// Value of the eight length bytes at the front of a sequence.
pub open spec fn le_val(s: Seq<u8>) -> nat
    recommends
        s.len() >= 8,
{
    (s[0] + 256 * (s[1] + 256 * (s[2] + 256 * (s[3] + 256 * (s[4] + 256 * (s[5] + 256 * (s[6]
        + 256 * s[7]))))))) as nat
}

/// The length bytes of a length below `2^64` give the length back.
pub proof fn lemma_le8_val(n: nat)
    requires
        n < 0x10000000000000000,
    ensures
        le8(n).len() == 8,
        le_val(le8(n)) == n,
{
    let q1 = n / 256;
    let q2 = q1 / 256;
    let q3 = q2 / 256;
    let q4 = q3 / 256;
    let q5 = q4 / 256;
    let q6 = q5 / 256;
    let q7 = q6 / 256;
    assert(n == 256 * q1 + n % 256);
    assert(q1 == 256 * q2 + q1 % 256);
    assert(q2 == 256 * q3 + q2 % 256);
    assert(q3 == 256 * q4 + q3 % 256);
    assert(q4 == 256 * q5 + q4 % 256);
    assert(q5 == 256 * q6 + q5 % 256);
    assert(q6 == 256 * q7 + q6 % 256);
    assert(q7 < 256);
    assert(q7 % 256 == q7);
}

/// A length-prefixed frame: eight length bytes, then the payload.
pub open spec fn frame(b: Seq<u8>) -> Seq<u8> {
    le8(b.len()) + b
}

/// Appends the eight length bytes of `n`.
pub fn push_le8(dst: &mut Vec<u8>, n: u64)
    ensures
        final(dst)@ == old(dst)@ + le8(n as nat),
{
    let q1 = n / 256;
    let q2 = q1 / 256;
    let q3 = q2 / 256;
    let q4 = q3 / 256;
    let q5 = q4 / 256;
    let q6 = q5 / 256;
    let q7 = q6 / 256;
    dst.push((n % 256) as u8);
    dst.push((q1 % 256) as u8);
    dst.push((q2 % 256) as u8);
    dst.push((q3 % 256) as u8);
    dst.push((q4 % 256) as u8);
    dst.push((q5 % 256) as u8);
    dst.push((q6 % 256) as u8);
    dst.push((q7 % 256) as u8);
    assert(final(dst)@ =~= old(dst)@ + le8(n as nat));
}

/// Appends one frame: the length bytes of `src`, then its bytes.
pub fn push_frame(dst: &mut Vec<u8>, src: &Vec<u8>)
    ensures
        final(dst)@ == old(dst)@ + frame(src@),
{
    push_le8(dst, src.len() as u64);
    push_all(dst, src);
    assert(final(dst)@ =~= old(dst)@ + frame(src@));
}

/// Reads the eight length bytes at `pos`.
fn read_le8(s: &Vec<u8>, pos: usize) -> (n: u64)
    requires
        pos + 8 <= s@.len(),
    ensures
        n as nat == le_val(s@.subrange(pos as int, pos as int + 8)),
{
    let slen = s.len();
    assert(slen == s@.len());
    let b0 = s[pos] as u64;
    let b1 = s[pos + 1] as u64;
    let b2 = s[pos + 2] as u64;
    let b3 = s[pos + 3] as u64;
    let b4 = s[pos + 4] as u64;
    let b5 = s[pos + 5] as u64;
    let b6 = s[pos + 6] as u64;
    let b7 = s[pos + 7] as u64;
    let mut v: u64 = b7;
    v = v * 256 + b6;
    v = v * 256 + b5;
    v = v * 256 + b4;
    v = v * 256 + b3;
    v = v * 256 + b2;
    v = v * 256 + b1;
    v = v * 256 + b0;
    proof {
        let sub = s@.subrange(pos as int, pos as int + 8);
        assert(sub[0] == s@[pos as int]);
        assert(sub[1] == s@[pos as int + 1]);
        assert(sub[2] == s@[pos as int + 2]);
        assert(sub[3] == s@[pos as int + 3]);
        assert(sub[4] == s@[pos as int + 4]);
        assert(sub[5] == s@[pos as int + 5]);
        assert(sub[6] == s@[pos as int + 6]);
        assert(sub[7] == s@[pos as int + 7]);
    }
    v
}

/// Reads one frame at `pos`: returns the payload and the position just past
/// it, or nothing where the buffer is too short for the length bytes or for
/// the payload length they announce.
pub fn read_frame(s: &Vec<u8>, pos: usize) -> (r: Option<(Vec<u8>, usize)>)
    requires
        pos <= s@.len(),
    ensures
        match r {
            Some(pair) => pos + 8 <= s@.len() && pair.1 == pos + 8 + pair.0@.len() && pair.1
                <= s@.len() && pair.0@ == s@.subrange(pos as int + 8, pair.1 as int)
                && pair.0@.len() == le_val(s@.subrange(pos as int, pos as int + 8)),
            None => pos + 8 > s@.len() || pos + 8 + le_val(
                s@.subrange(pos as int, pos as int + 8),
            ) > s@.len(),
        },
{
    if s.len() - pos < 8 {
        return None;
    }
    let l = read_le8(s, pos);
    let remaining = s.len() - pos - 8;
    if l > remaining as u64 {
        return None;
    }
    let lu = l as usize;
    let mut chunk: Vec<u8> = Vec::new();
    let mut i: usize = 0;
    while i < lu
        invariant
            i <= lu,
            pos + 8 + lu <= s@.len(),
            s@.len() <= usize::MAX,
            chunk@ == s@.subrange(pos as int + 8, pos as int + 8 + i),
        decreases lu - i,
    {
        chunk.push(s[pos + 8 + i]);
        assert(chunk@ =~= s@.subrange(pos as int + 8, pos as int + 8 + i + 1));
        i += 1;
    }
    Some((chunk, pos + 8 + lu))
}

/// In a buffer whose tail at `pos` is `frame(p) + rest`, the frame reads
/// back as exactly `p`, and `rest` follows it.
pub proof fn lemma_frame_decomp(s: Seq<u8>, pos: int, p: Seq<u8>, rest: Seq<u8>)
    requires
        0 <= pos <= s.len(),
        s.subrange(pos, s.len() as int) == frame(p) + rest,
        p.len() < 0x10000000000000000,
    ensures
        pos + 8 + p.len() + rest.len() == s.len(),
        s.subrange(pos, pos + 8) == le8(p.len()),
        le_val(s.subrange(pos, pos + 8)) == p.len(),
        s.subrange(pos + 8, pos + 8 + p.len()) == p,
        s.subrange(pos + 8 + p.len(), s.len() as int) == rest,
{
    lemma_le8_val(p.len());
    let tail = s.subrange(pos, s.len() as int);
    assert(tail.len() == 8 + p.len() + rest.len());
    assert forall|i: int| 0 <= i < 8 implies s[pos + i] == le8(p.len())[i] by {
        assert(s[pos + i] == tail[i]);
        assert(tail[i] == (frame(p) + rest)[i]);
        assert((frame(p) + rest)[i] == frame(p)[i]);
        assert(frame(p)[i] == le8(p.len())[i]);
    }
    assert(s.subrange(pos, pos + 8) =~= le8(p.len()));
    assert forall|i: int| 0 <= i < p.len() implies s[pos + 8 + i] == p[i] by {
        assert(s[pos + 8 + i] == tail[8 + i]);
        assert(tail[8 + i] == (frame(p) + rest)[8 + i]);
        assert((frame(p) + rest)[8 + i] == frame(p)[8 + i]);
        assert(frame(p)[8 + i] == p[i]);
    }
    assert(s.subrange(pos + 8, pos + 8 + p.len()) =~= p);
    assert forall|i: int| 0 <= i < rest.len() implies s[pos + 8 + p.len() + i] == rest[i] by {
        assert(s[pos + 8 + p.len() + i] == tail[8 + p.len() + i]);
        assert(tail[8 + p.len() + i] == (frame(p) + rest)[8 + p.len() + i]);
        assert((frame(p) + rest)[8 + p.len() + i] == rest[i]);
    }
    assert(s.subrange(pos + 8 + p.len(), s.len() as int) =~= rest);
}

} // verus!
