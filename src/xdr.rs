//! The XDR wire encoding shared by every message: big-endian four-byte
//! words and length-prefixed opaque data padded to a multiple of four bytes.
use vstd::prelude::*;

verus! {

/// The four big-endian bytes of a 32-bit word.
pub open spec fn be32(x: u32) -> Seq<u8> {
    seq![
        (x / 0x1000000) as u8,
        ((x / 0x10000) % 0x100) as u8,
        ((x / 0x100) % 0x100) as u8,
        (x % 0x100) as u8,
    ]
}

/// The eight big-endian bytes of a 64-bit hyper.
pub open spec fn be64(x: u64) -> Seq<u8> {
    be32((x / 0x1_0000_0000) as u32) + be32((x % 0x1_0000_0000) as u32)
}

/// The boolean word: one for true, zero for false.
pub open spec fn xdr_bool(b: bool) -> Seq<u8> {
    be32(if b { 1 } else { 0 })
}

/// Number of zero bytes that pad `n` bytes up to a multiple of four.
pub open spec fn pad_len(n: nat) -> nat {
    ((4 - (n % 4) as int) % 4) as nat
}

pub open spec fn zeros(n: nat) -> Seq<u8> {
    Seq::new(n, |i: int| 0u8)
}

/// Variable-length opaque data: its length word, the bytes, then padding.
pub open spec fn opaque(b: Seq<u8>) -> Seq<u8> {
    be32(b.len() as u32) + b + zeros(pad_len(b.len()))
}

/// The 32-bit word that starts at position `p` of `s`.
pub open spec fn word_at(s: Seq<u8>, p: int) -> u32 {
    (s[p] as int * 0x1000000 + s[p + 1] as int * 0x10000 + s[p + 2] as int * 0x100
        + s[p + 3] as int) as u32
}

/// The 64-bit hyper that starts at position `p` of `s`.
pub open spec fn hyper_at(s: Seq<u8>, p: int) -> u64 {
    (word_at(s, p) as int * 0x1_0000_0000 + word_at(s, p + 4) as int) as u64
}

/// Opaque data of at most `max` bytes at position `p`: its body and the
/// position just past its padding.
pub open spec fn parse_opaque(s: Seq<u8>, p: int, max: int) -> Option<(Seq<u8>, int)> {
    if 0 <= p && p + 4 <= s.len() {
        let n = word_at(s, p) as int;
        let end = p + 4 + n + pad_len(n as nat);
        if n <= max && end <= s.len() {
            Some((s.subrange(p + 4, p + 4 + n), end))
        } else {
            None
        }
    } else {
        None
    }
}

/// Reading a word back from its four bytes gives the word, whatever
/// follows them.
pub proof fn lemma_word_be32(x: u32)
    ensures
        word_at(be32(x), 0) == x,
        forall|t: Seq<u8>| #[trigger] word_at(be32(x) + t, 0) == x,
{
    let a = x / 0x1000000;
    let b = (x / 0x10000) % 0x100;
    let c = (x / 0x100) % 0x100;
    let d = x % 0x100;
    assert(a * 0x1000000 + b * 0x10000 + c * 0x100 + d == x) by (nonlinear_arith)
        requires
            a == x / 0x1000000,
            b == (x / 0x10000) % 0x100,
            c == (x / 0x100) % 0x100,
            d == x % 0x100,
    ;
    assert forall|t: Seq<u8>| #[trigger] word_at(be32(x) + t, 0) == x by {
        let u = be32(x) + t;
        assert(u[0] == be32(x)[0] && u[1] == be32(x)[1] && u[2] == be32(x)[2] && u[3] == be32(x)[3]);
    }
}

/// Appends one word.
pub fn put_u32(out: &mut Vec<u8>, x: u32)
    ensures
        final(out)@ == old(out)@ + be32(x),
{
    out.push((x / 0x1000000) as u8);
    out.push(((x / 0x10000) % 0x100) as u8);
    out.push(((x / 0x100) % 0x100) as u8);
    out.push((x % 0x100) as u8);
    assert(out@ =~= old(out)@ + be32(x));
}

/// Appends one hyper.
pub fn put_u64(out: &mut Vec<u8>, x: u64)
    ensures
        final(out)@ == old(out)@ + be64(x),
{
    put_u32(out, (x / 0x1_0000_0000) as u32);
    put_u32(out, (x % 0x1_0000_0000) as u32);
    assert(out@ =~= old(out)@ + be64(x));
}

/// Appends one boolean.
pub fn put_bool(out: &mut Vec<u8>, b: bool)
    ensures
        final(out)@ == old(out)@ + xdr_bool(b),
{
    put_u32(out, if b { 1 } else { 0 });
}

/// Appends variable-length opaque data.
pub fn put_opaque(out: &mut Vec<u8>, b: &[u8])
    requires
        b@.len() <= u32::MAX,
    ensures
        final(out)@ == old(out)@ + opaque(b@),
{
    let n = b.len();
    put_u32(out, n as u32);
    let ghost start = out@;
    let mut i: usize = 0;
    while i < n
        invariant
            n == b@.len(),
            i <= n,
            out@ == start + b@.subrange(0, i as int),
        decreases n - i,
    {
        out.push(b[i]);
        i += 1;
        assert(out@ =~= start + b@.subrange(0, i as int));
    }
    let pad: usize = (4 - n % 4) % 4;
    let mut k: usize = 0;
    while k < pad
        invariant
            i == n,
            n == b@.len(),
            pad == pad_len(n as nat),
            k <= pad,
            out@ == start + b@ + zeros(k as nat),
        decreases pad - k,
    {
        out.push(0u8);
        k += 1;
        assert(out@ =~= start + b@ + zeros(k as nat));
    }
    assert(b@.subrange(0, n as int) =~= b@);
    assert(out@ =~= old(out)@ + opaque(b@));
}

/// Reads the word at `pos`.
pub fn get_u32(s: &[u8], pos: usize) -> (r: u32)
    requires
        pos + 4 <= s@.len(),
    ensures
        r == word_at(s@, pos as int),
{
    let a = s[pos] as u32;
    let b = s[pos + 1] as u32;
    let c = s[pos + 2] as u32;
    let d = s[pos + 3] as u32;
    assert(a * 0x1000000 + b * 0x10000 + c * 0x100 + d <= u32::MAX) by (nonlinear_arith)
        requires
            a <= 255,
            b <= 255,
            c <= 255,
            d <= 255,
    ;
    a * 0x1000000 + b * 0x10000 + c * 0x100 + d
}

/// Reads the hyper at `pos`.
pub fn get_u64(s: &[u8], pos: usize) -> (r: u64)
    requires
        pos + 8 <= s@.len(),
    ensures
        r == hyper_at(s@, pos as int),
{
    let len = s.len();
    let hi = get_u32(s, pos) as u64;
    let lo = get_u32(s, pos + 4) as u64;
    assert(hi * 0x1_0000_0000 + lo <= u64::MAX) by (nonlinear_arith)
        requires
            hi <= u32::MAX,
            lo <= u32::MAX,
    ;
    hi * 0x1_0000_0000 + lo
}

/// Copies the bytes of `s` from `start` up to `end`.
pub fn copy_range(s: &[u8], start: usize, end: usize) -> (r: Vec<u8>)
    requires
        start <= end <= s@.len(),
    ensures
        r@ == s@.subrange(start as int, end as int),
{
    let mut r: Vec<u8> = Vec::new();
    let mut i: usize = start;
    while i < end
        invariant
            start <= i <= end,
            end <= s@.len(),
            r@ == s@.subrange(start as int, i as int),
        decreases end - i,
    {
        r.push(s[i]);
        i += 1;
        assert(r@ =~= s@.subrange(start as int, i as int));
    }
    r
}

/// Reads opaque data of at most `max` bytes at `pos`.
pub fn get_opaque(s: &[u8], pos: usize, max: u32) -> (r: Option<(Vec<u8>, usize)>)
    ensures
        match parse_opaque(s@, pos as int, max as int) {
            Some((body, end)) => r.is_some() && r.unwrap().0@ == body && r.unwrap().1 == end,
            None => r.is_none(),
        },
{
    if s.len() < 4 || pos > s.len() - 4 {
        return None;
    }
    let n = get_u32(s, pos);
    if n > max {
        return None;
    }
    let avail = s.len() - pos - 4;
    let pad: usize = ((4 - n % 4) % 4) as usize;
    if n as usize > avail || pad > avail - n as usize {
        return None;
    }
    let body = copy_range(s, pos + 4, pos + 4 + n as usize);
    Some((body, pos + 4 + n as usize + pad))
}

} // verus!
