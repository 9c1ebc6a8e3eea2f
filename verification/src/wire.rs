//! Little-endian wire primitives: byte-level readers and writers for the
//! 32-bit scalars and one-byte flags that make up the save-data format,
//! together with the spec-level parsers and encoders that the codec's
//! contracts are stated over.

use vstd::bytes::*;
use vstd::prelude::*;
use vstd::slice::*;

verus! {

/// Little-endian encoding of a signed 32-bit scalar.
pub open spec fn i32_le(v: i32) -> Seq<u8> {
    spec_u32_to_le_bytes(v as u32)
}

/// Little-endian encoding of an unsigned 32-bit scalar.
pub open spec fn u32_le(x: u32) -> Seq<u8> {
    spec_u32_to_le_bytes(x)
}

/// Single-byte encoding of a flag: 1 for true, 0 for false.
pub open spec fn bool_le(v: bool) -> Seq<u8> {
    seq![if v { 1u8 } else { 0u8 }]
}

/// Concatenated little-endian encodings of a sequence of 32-bit scalars.
pub open spec fn i32s_le(s: Seq<i32>) -> Seq<u8>
    decreases s.len(),
{
    if s.len() == 0 {
        Seq::<u8>::empty()
    } else {
        i32_le(s[0]) + i32s_le(s.drop_first())
    }
}

/// Reads an unsigned 32-bit little-endian scalar at `pos`; fails exactly when
/// fewer than four bytes remain.
pub open spec fn sp_u32(b: Seq<u8>, pos: int) -> Option<(u32, int)> {
    if 0 <= pos && pos + 4 <= b.len() {
        Some((spec_u32_from_le_bytes(b.subrange(pos, pos + 4)), pos + 4))
    } else {
        None
    }
}

/// Reads a signed 32-bit little-endian scalar at `pos`; fails exactly when
/// fewer than four bytes remain.
pub open spec fn sp_i32(b: Seq<u8>, pos: int) -> Option<(i32, int)> {
    match sp_u32(b, pos) {
        Some((x, p)) => Some(((x as i32), p)),
        None => None,
    }
}

/// Reads a one-byte flag at `pos`; any non-zero byte stands for true.
pub open spec fn sp_bool(b: Seq<u8>, pos: int) -> Option<(bool, int)> {
    if 0 <= pos && pos + 1 <= b.len() {
        Some(((b[pos] != 0), pos + 1))
    } else {
        None
    }
}

/// Reads `n` consecutive signed 32-bit scalars starting at `pos`.
pub open spec fn sp_i32_seq(b: Seq<u8>, pos: int, n: nat) -> Option<(Seq<i32>, int)>
    decreases n,
{
    if n == 0 {
        Some((Seq::<i32>::empty(), pos))
    } else {
        match sp_i32(b, pos) {
            Some((v, p)) => match sp_i32_seq(b, p, (n - 1) as nat) {
                Some((s, p2)) => Some((seq![v] + s, p2)),
                None => None,
            },
            None => None,
        }
    }
}

/// Casting a signed 32-bit value to unsigned and back is the identity.
pub proof fn lemma_i32_cast_roundtrip(v: i32)
    ensures
        ((v as u32) as i32) == v,
{
    assert(((v as u32) as i32) == v) by (bit_vector);
}

/// A successful scalar read lands within the stream.
pub proof fn lemma_sp_u32_bounds(b: Seq<u8>, pos: int)
    ensures
        sp_u32(b, pos) matches Some((x, p)) ==> p == pos + 4 && p <= b.len(),
{
}

/// Reading an unsigned scalar straight after `pre` from a stream that
/// continues with that scalar's bytes yields the scalar back.
pub proof fn lemma_sp_u32_at(pre: Seq<u8>, x: u32, suf: Seq<u8>)
    ensures
        sp_u32(pre + (u32_le(x) + suf), pre.len() as int) == Some((x, pre.len() as int + 4)),
{
    lemma_auto_spec_u32_to_from_le_bytes();
    let b = pre + (u32_le(x) + suf);
    assert(b.subrange(pre.len() as int, pre.len() as int + 4) =~= spec_u32_to_le_bytes(x));
}

/// Reading a signed scalar straight after `pre` from a stream that continues
/// with that scalar's bytes yields the scalar back.
pub proof fn lemma_sp_i32_at(pre: Seq<u8>, v: i32, suf: Seq<u8>)
    ensures
        sp_i32(pre + (i32_le(v) + suf), pre.len() as int) == Some((v, pre.len() as int + 4)),
{
    lemma_sp_u32_at(pre, v as u32, suf);
    lemma_i32_cast_roundtrip(v);
}

/// Reading a flag straight after `pre` from a stream that continues with that
/// flag's byte yields the flag back.
pub proof fn lemma_sp_bool_at(pre: Seq<u8>, v: bool, suf: Seq<u8>)
    ensures
        sp_bool(pre + (bool_le(v) + suf), pre.len() as int) == Some((v, pre.len() as int + 1)),
{
    let b = pre + (bool_le(v) + suf);
    assert(b[pre.len() as int] == bool_le(v)[0]);
}

/// Reading `s.len()` scalars straight after `pre` from a stream that
/// continues with the encodings of `s` yields `s` back.
pub proof fn lemma_sp_i32_seq_at(pre: Seq<u8>, s: Seq<i32>, suf: Seq<u8>)
    ensures
        sp_i32_seq(pre + (i32s_le(s) + suf), pre.len() as int, s.len()) == Some(
            (s, pre.len() as int + 4 * s.len()),
        ),
    decreases s.len(),
{
    let b = pre + (i32s_le(s) + suf);
    if s.len() == 0 {
        assert(b =~= pre + suf);
        assert(sp_i32_seq(b, pre.len() as int, 0) == Some((Seq::<i32>::empty(), pre.len() as int)));
        assert(s =~= Seq::<i32>::empty());
    } else {
        lemma_auto_spec_u32_to_from_le_bytes();
        let rest = s.drop_first();
        assert(b =~= pre + (i32_le(s[0]) + (i32s_le(rest) + suf)));
        lemma_sp_i32_at(pre, s[0], i32s_le(rest) + suf);
        let pre2 = pre + i32_le(s[0]);
        assert(b =~= pre2 + (i32s_le(rest) + suf));
        lemma_sp_i32_seq_at(pre2, rest, suf);
        assert(pre2.len() == pre.len() + 4);
        assert(seq![s[0]] + rest =~= s);
    }
}

/// Appending one more scalar to a sequence appends its four bytes to the
/// sequence's encoding.
pub proof fn lemma_i32s_le_push(s: Seq<i32>, v: i32)
    ensures
        i32s_le(s.push(v)) == i32s_le(s) + i32_le(v),
    decreases s.len(),
{
    let sp = s.push(v);
    if s.len() == 0 {
        assert(sp.drop_first() =~= Seq::<i32>::empty());
        assert(i32s_le(sp) == i32_le(v) + i32s_le(Seq::<i32>::empty()));
        assert(i32_le(v) + Seq::<u8>::empty() =~= i32_le(v));
        assert(Seq::<u8>::empty() + i32_le(v) =~= i32_le(v));
    } else {
        assert(sp.drop_first() =~= s.drop_first().push(v));
        lemma_i32s_le_push(s.drop_first(), v);
        assert(i32_le(s[0]) + (i32s_le(s.drop_first()) + i32_le(v)) =~= (i32_le(s[0]) + i32s_le(
            s.drop_first(),
        )) + i32_le(v));
    }
}

/// The encoding of `s` is four bytes per element.
pub proof fn lemma_i32s_le_len(s: Seq<i32>)
    ensures
        i32s_le(s).len() == 4 * s.len(),
    decreases s.len(),
{
    lemma_auto_spec_u32_to_from_le_bytes();
    if s.len() > 0 {
        lemma_i32s_le_len(s.drop_first());
    }
}

/// Reads an unsigned 32-bit little-endian scalar.
pub fn read_u32(b: &[u8], pos: usize) -> (r: Option<(u32, usize)>)
    ensures
        match r {
            Some((v, p)) => sp_u32(b@, pos as int) == Some((v, p as int)) && p == pos + 4 && p
                <= b@.len(),
            None => sp_u32(b@, pos as int) is None,
        },
{
    if pos <= b.len() && b.len() - pos >= 4 {
        let s = slice_subrange(b, pos, pos + 4);
        let x = u32_from_le_bytes(s);
        Some((x, pos + 4))
    } else {
        None
    }
}

/// Reads a signed 32-bit little-endian scalar.
pub fn read_i32(b: &[u8], pos: usize) -> (r: Option<(i32, usize)>)
    ensures
        match r {
            Some((v, p)) => sp_i32(b@, pos as int) == Some((v, p as int)) && p == pos + 4 && p
                <= b@.len(),
            None => sp_i32(b@, pos as int) is None,
        },
{
    match read_u32(b, pos) {
        Some((x, p)) => Some((#[verifier::truncate] (x as i32), p)),
        None => None,
    }
}

/// Reads a one-byte flag; any non-zero byte stands for true.
pub fn read_bool(b: &[u8], pos: usize) -> (r: Option<(bool, usize)>)
    ensures
        match r {
            Some((v, p)) => sp_bool(b@, pos as int) == Some((v, p as int)) && p == pos + 1 && p
                <= b@.len(),
            None => sp_bool(b@, pos as int) is None,
        },
{
    if pos < b.len() {
        let byte = *slice_index_get(b, pos);
        Some((byte != 0, pos + 1))
    } else {
        None
    }
}

/// Reads `n` consecutive signed 32-bit scalars into a vector.
pub fn read_i32_vec(b: &[u8], pos: usize, n: usize) -> (r: Option<(Vec<i32>, usize)>)
    requires
        pos <= b@.len(),
    ensures
        match r {
            Some((vs, p)) => sp_i32_seq(b@, pos as int, n as nat) == Some((vs@, p as int)) && p
                <= b@.len() && vs@.len() == n,
            None => sp_i32_seq(b@, pos as int, n as nat) is None,
        },
{
    let mut acc: Vec<i32> = Vec::new();
    let mut cur: usize = pos;
    let mut i: usize = 0;
    while i < n
        invariant
            i <= n,
            acc@.len() == i,
            cur <= b@.len(),
            match sp_i32_seq(b@, cur as int, (n - i) as nat) {
                Some((s, p)) => sp_i32_seq(b@, pos as int, n as nat) == Some((acc@ + s, p)),
                None => sp_i32_seq(b@, pos as int, n as nat) is None,
            },
        decreases n - i,
    {
        match read_i32(b, cur) {
            Some((v, p2)) => {
                proof {
                    let tail = sp_i32_seq(b@, p2 as int, (n - i - 1) as nat);
                    match tail {
                        Some((s, pend)) => {
                            assert(acc@ + (seq![v] + s) =~= acc@.push(v) + s);
                        },
                        None => {},
                    }
                }
                acc.push(v);
                cur = p2;
                i = i + 1;
            },
            None => {
                return None;
            },
        }
    }
    proof {
        assert(acc@ + Seq::<i32>::empty() =~= acc@);
    }
    Some((acc, cur))
}

/// Appends the little-endian bytes of an unsigned 32-bit scalar.
pub fn write_u32(out: &mut Vec<u8>, x: u32)
    ensures
        final(out)@ == old(out)@ + u32_le(x),
{
    let mut bs = u32_to_le_bytes(x);
    out.append(&mut bs);
}

/// Appends the little-endian bytes of a signed 32-bit scalar.
pub fn write_i32(out: &mut Vec<u8>, v: i32)
    ensures
        final(out)@ == old(out)@ + i32_le(v),
{
    write_u32(out, #[verifier::truncate] (v as u32));
}

/// Appends the single byte of a flag.
pub fn write_bool(out: &mut Vec<u8>, v: bool)
    ensures
        final(out)@ == old(out)@ + bool_le(v),
{
    out.push(if v { 1 } else { 0 });
    proof {
        assert(old(out)@.push(if v { 1u8 } else { 0u8 }) =~= old(out)@ + bool_le(v));
    }
}

/// Appends the little-endian bytes of every scalar in the vector, in order.
pub fn write_i32_vec(out: &mut Vec<u8>, vs: &Vec<i32>)
    ensures
        final(out)@ == old(out)@ + i32s_le(vs@),
{
    let mut i: usize = 0;
    proof {
        assert(out@ + i32s_le(vs@.take(0)) =~= out@);
    }
    while i < vs.len()
        invariant
            i <= vs@.len(),
            out@ == old(out)@ + i32s_le(vs@.take(i as int)),
        decreases vs@.len() - i,
    {
        proof {
            assert(vs@.take(i + 1 as int).drop_last() =~= vs@.take(i as int));
            assert(vs@.take(i + 1 as int).last() == vs@[i as int]);
            lemma_i32s_le_push(vs@.take(i as int), vs@[i as int]);
            assert(vs@.take(i as int).push(vs@[i as int]) =~= vs@.take(i + 1 as int));
        }
        write_i32(out, vs[i]);
        proof {
            assert((old(out)@ + i32s_le(vs@.take(i as int))) + i32_le(vs@[i as int]) =~= old(out)@
                + (i32s_le(vs@.take(i as int)) + i32_le(vs@[i as int])));
        }
        i = i + 1;
    }
    proof {
        assert(vs@.take(vs@.len() as int) =~= vs@);
    }
}

} // verus!
