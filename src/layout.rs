use vstd::prelude::*;
use vstd::utf8::{encode_scalar, encode_utf8};

verus! {

/// The low `n` bytes of `x`, least significant first.
pub open spec fn le_bytes(x: nat, n: nat) -> Seq<u8>
    decreases n,
{
    if n == 0 {
        seq![]
    } else {
        seq![(x % 256) as u8] + le_bytes(x / 256, (n - 1) as nat)
    }
}

/// A byte string preceded by its length as a little-endian `u32`.
pub open spec fn sized(b: Seq<u8>) -> Seq<u8> {
    le_bytes(b.len(), 4) + b
}

/// The UTF-8 bytes of a text.
pub open spec fn text_bytes(s: Seq<char>) -> Seq<u8> {
    encode_utf8(s)
}

/// A text whose byte length can be written as a `u32` prefix.
pub open spec fn fits_prefix(s: Seq<char>) -> bool {
    text_bytes(s).len() <= u32::MAX
}

/// UTF-8 takes at most four bytes per character.
pub proof fn lemma_text_bytes_bound(s: Seq<char>)
    ensures
        text_bytes(s).len() <= 4 * s.len(),
    decreases s.len(),
{
    if s.len() > 0 {
        assert(encode_scalar(s[0] as u32).len() <= 4);
        lemma_text_bytes_bound(s.drop_first());
    }
}

/// Appends the low `n` bytes of `x`, least significant first.
pub fn push_le(out: &mut Vec<u8>, x: u64, n: usize)
    requires
        n <= 8,
    ensures
        final(out)@ == old(out)@ + le_bytes(x as nat, n as nat),
{
    let mut v: u64 = x;
    let mut i: usize = 0;
    while i < n
        invariant
            i <= n,
            old(out)@ + le_bytes(x as nat, n as nat) == out@ + le_bytes(v as nat, (n - i) as nat),
        decreases n - i,
    {
        let ghost prev = out@;
        out.push((v % 256) as u8);
        proof {
            let rest = le_bytes((v / 256) as nat, (n - i - 1) as nat);
            assert(le_bytes(v as nat, (n - i) as nat) == seq![(v % 256) as u8] + rest);
            assert(prev + (seq![(v % 256) as u8] + rest) =~= out@ + rest);
        }
        v = v / 256;
        i = i + 1;
    }
    assert(out@ + le_bytes(v as nat, 0) =~= out@);
}

/// Appends every byte of `b`.
pub fn push_all(out: &mut Vec<u8>, b: &[u8])
    ensures
        final(out)@ == old(out)@ + b@,
{
    let mut i: usize = 0;
    while i < b.len()
        invariant
            i <= b@.len(),
            out@ == old(out)@ + b@.subrange(0, i as int),
        decreases b@.len() - i,
    {
        out.push(b[i]);
        assert(b@.subrange(0, i + 1) =~= b@.subrange(0, i as int).push(b@[i as int]));
        i = i + 1;
    }
    assert(b@.subrange(0, b@.len() as int) =~= b@);
}

/// Appends a text as its byte length (`u32`, little-endian) and its UTF-8
/// bytes. Leaves `out` as it was and returns false when the length does not
/// fit in a `u32`.
pub fn push_text(out: &mut Vec<u8>, s: &str) -> (ok: bool)
    ensures
        ok == fits_prefix(s@),
        ok ==> final(out)@ == old(out)@ + sized(text_bytes(s@)),
        !ok ==> final(out)@ == old(out)@,
{
    let b = s.as_bytes();
    if b.len() > 0xffff_ffff {
        return false;
    }
    let ghost start = out@;
    push_le(out, b.len() as u64, 4);
    push_all(out, b);
    assert(start + le_bytes(b@.len(), 4) + b@ =~= start + sized(b@));
    true
}

/// True when two texts hold the same characters.
pub fn same_text(a: &str, b: &str) -> (r: bool)
    ensures
        r == (a@ == b@),
{
    let x = a.as_bytes();
    let y = b.as_bytes();
    proof {
        vstd::utf8::encode_utf8_decode_utf8(a@);
        vstd::utf8::encode_utf8_decode_utf8(b@);
    }
    if x.len() != y.len() {
        return false;
    }
    let mut i: usize = 0;
    while i < x.len()
        invariant
            x@.len() == y@.len(),
            a@ == b@ ==> x@ == y@,
            i <= x@.len(),
            forall|j: int| 0 <= j < i ==> x@[j] == y@[j],
        decreases x@.len() - i,
    {
        if x[i] != y[i] {
            return false;
        }
        i = i + 1;
    }
    assert(x@ =~= y@);
    true
}

} // verus!
