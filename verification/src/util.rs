//! Byte-string helpers: concatenation, XOR and big-endian integer encoding.

use vstd::prelude::*;

verus! {

/// `n` zero bytes.
pub open spec fn spec_zeros(n: nat) -> Seq<u8> {
    Seq::new(n, |i: int| 0u8)
}

/// Bytewise XOR of two strings; the result has the length of `a`.
pub open spec fn spec_xor(a: Seq<u8>, b: Seq<u8>) -> Seq<u8> {
    Seq::new(a.len(), |i: int| a[i] ^ b[i])
}

/// The big-endian encoding of `x` in exactly `n` bytes (of `x` modulo
/// `256^n` where `x` does not fit).
pub open spec fn spec_i2osp(x: nat, n: nat) -> Seq<u8>
    decreases n,
{
    if n == 0 {
        Seq::empty()
    } else {
        spec_i2osp(x / 256, (n - 1) as nat).push((x % 256) as u8)
    }
}

/// A result that carries bytes, with the bytes taken as a sequence.
pub open spec fn spec_bytes_result<E>(r: Result<Vec<u8>, E>) -> Result<Seq<u8>, E> {
    match r {
        Ok(v) => Ok(v@),
        Err(e) => Err(e),
    }
}

/// A result that carries two byte strings, each taken as a sequence.
pub open spec fn spec_bytes_pair_result<E>(r: Result<(Vec<u8>, Vec<u8>), E>) -> Result<
    (Seq<u8>, Seq<u8>),
    E,
> {
    match r {
        Ok(p) => Ok((p.0@, p.1@)),
        Err(e) => Err(e),
    }
}

/// An optional byte string, taken as a sequence.
pub open spec fn spec_bytes_option(o: Option<Vec<u8>>) -> Option<Seq<u8>> {
    match o {
        Some(v) => Some(v@),
        None => None,
    }
}

/// The number that `s` encodes in big-endian order.
pub open spec fn spec_os2ip(s: Seq<u8>) -> nat
    decreases s.len(),
{
    if s.len() == 0 {
        0
    } else {
        spec_os2ip(s.drop_last()) * 256 + s.last() as nat
    }
}

/// `256^n`.
pub open spec fn spec_pow256(n: nat) -> nat
    decreases n,
{
    if n == 0 {
        1
    } else {
        256 * spec_pow256((n - 1) as nat)
    }
}

/// Whether every byte of `s` is zero.
pub open spec fn spec_all_zero(s: Seq<u8>) -> bool {
    forall|i: int| 0 <= i < s.len() ==> s[i] == 0u8
}

/// An encoding has the length that was asked for.
pub proof fn lemma_i2osp_len(x: nat, n: nat)
    ensures
        spec_i2osp(x, n).len() == n,
    decreases n,
{
    if n > 0 {
        lemma_i2osp_len(x / 256, (n - 1) as nat);
    }
}

/// Two numbers below `256^n` with the same `n`-byte encoding are equal.
pub proof fn lemma_i2osp_injective(x: nat, y: nat, n: nat)
    requires
        x < spec_pow256(n),
        y < spec_pow256(n),
        spec_i2osp(x, n) == spec_i2osp(y, n),
    ensures
        x == y,
    decreases n,
{
    if n > 0 {
        let m = (n - 1) as nat;
        let a = spec_i2osp(x / 256, m);
        let b = spec_i2osp(y / 256, m);
        lemma_i2osp_len(x / 256, m);
        lemma_i2osp_len(y / 256, m);
        assert(a.push((x % 256) as u8)[m as int] == (x % 256) as u8);
        assert(b.push((y % 256) as u8)[m as int] == (y % 256) as u8);
        assert(x % 256 == y % 256);
        assert(a =~= a.push((x % 256) as u8).drop_last());
        assert(b =~= b.push((y % 256) as u8).drop_last());
        assert(a == b);
        lemma_i2osp_injective(x / 256, y / 256, m);
    }
}

/// XOR with a fixed string is injective on strings of that string's length.
pub proof fn lemma_xor_injective(base: Seq<u8>, a: Seq<u8>, b: Seq<u8>)
    requires
        a.len() == base.len(),
        b.len() == base.len(),
        spec_xor(base, a) == spec_xor(base, b),
    ensures
        a == b,
{
    assert forall|i: int| 0 <= i < a.len() implies a[i] == b[i] by {
        let p = base[i];
        let q = a[i];
        let r = b[i];
        assert(spec_xor(base, a)[i] == p ^ q);
        assert(spec_xor(base, b)[i] == p ^ r);
        assert(p ^ q == p ^ r ==> q == r) by (bit_vector);
    }
    assert(a =~= b);
}

/// The bytes of an optional argument; none stands for the empty string.
pub fn slice_or_empty<'a>(o: Option<&'a [u8]>) -> (r: &'a [u8])
    ensures
        r@ == (match o {
            Some(s) => s@,
            None => Seq::<u8>::empty(),
        }),
{
    match o {
        Some(s) => s,
        None => &[],
    }
}

/// Appends the bytes of `s` to `v`.
pub fn append(v: &mut Vec<u8>, s: &[u8])
    ensures
        final(v)@ == old(v)@ + s@,
{
    let n: usize = s.len();
    let mut i: usize = 0;
    while i < n
        invariant
            n == s@.len(),
            i <= n,
            v@ == old(v)@ + s@.subrange(0, i as int),
        decreases n - i,
    {
        v.push(s[i]);
        i = i + 1;
        assert(v@ =~= old(v)@ + s@.subrange(0, i as int));
    }
    assert(s@.subrange(0, n as int) =~= s@);
}

/// The concatenation of two byte strings.
pub fn concat(a: &[u8], b: &[u8]) -> (r: Vec<u8>)
    ensures
        r@ == a@ + b@,
{
    let mut r: Vec<u8> = Vec::new();
    append(&mut r, a);
    append(&mut r, b);
    assert(r@ =~= a@ + b@);
    r
}

/// A vector of `n` zero bytes.
pub fn zeros(n: usize) -> (r: Vec<u8>)
    ensures
        r@ == spec_zeros(n as nat),
{
    let mut r: Vec<u8> = Vec::new();
    let mut i: usize = 0;
    while i < n
        invariant
            i <= n,
            r@ == spec_zeros(i as nat),
        decreases n - i,
    {
        r.push(0u8);
        i = i + 1;
        assert(r@ =~= spec_zeros(i as nat));
    }
    r
}

/// Bytewise XOR of two strings of one length.
pub fn xor_bytes(a: &[u8], b: &[u8]) -> (r: Vec<u8>)
    requires
        a@.len() == b@.len(),
    ensures
        r@ == spec_xor(a@, b@),
{
    let n: usize = a.len();
    let mut r: Vec<u8> = Vec::new();
    let mut i: usize = 0;
    while i < n
        invariant
            n == a@.len(),
            n == b@.len(),
            i <= n,
            r@ == spec_xor(a@, b@).subrange(0, i as int),
        decreases n - i,
    {
        r.push(a[i] ^ b[i]);
        i = i + 1;
        assert(r@ =~= spec_xor(a@, b@).subrange(0, i as int));
    }
    assert(r@ =~= spec_xor(a@, b@));
    r
}

/// The big-endian encoding of `x` in `n` bytes.
pub fn i2osp(x: u64, n: usize) -> (r: Vec<u8>)
    ensures
        r@ == spec_i2osp(x as nat, n as nat),
        r@.len() == n,
{
    let mut r: Vec<u8> = zeros(n);
    let mut rem: u64 = x;
    let mut k: usize = 0;
    assert(spec_i2osp(x as nat, n as nat) =~= spec_i2osp(rem as nat, (n - k) as nat)
        + r@.subrange(n - k, n as int));
    while k < n
        invariant
            k <= n,
            r@.len() == n,
            spec_i2osp(x as nat, n as nat) == spec_i2osp(rem as nat, (n - k) as nat)
                + r@.subrange(n - k, n as int),
        decreases n - k,
    {
        let ghost before = r@;
        let ghost prev = rem;
        r.set(n - k - 1, (rem % 256) as u8);
        rem = rem / 256;
        k = k + 1;
        assert(spec_i2osp(prev as nat, (n - k + 1) as nat) == spec_i2osp(
            rem as nat,
            (n - k) as nat,
        ).push((prev % 256) as u8));
        assert(r@.subrange(n - k, n as int) =~= seq![(prev % 256) as u8] + before.subrange(
            n - k + 1,
            n as int,
        ));
        assert(spec_i2osp(x as nat, n as nat) =~= spec_i2osp(rem as nat, (n - k) as nat)
            + r@.subrange(n - k, n as int));
    }
    assert(r@.subrange(0, n as int) =~= r@);
    assert(spec_i2osp(x as nat, n as nat) =~= r@);
    r
}

/// A string of zero bytes encodes zero.
pub proof fn lemma_os2ip_zeros(n: nat)
    ensures
        spec_os2ip(spec_zeros(n)) == 0,
    decreases n,
{
    if n > 0 {
        assert(spec_zeros(n).drop_last() =~= spec_zeros((n - 1) as nat));
        lemma_os2ip_zeros((n - 1) as nat);
    }
}

/// Whether the number that `a` encodes is below the one that `b` encodes,
/// both in big-endian order and of one length. Every byte is read, whatever
/// the bytes are.
pub fn less_than(a: &[u8], b: &[u8]) -> (r: bool)
    requires
        a@.len() == b@.len(),
    ensures
        r == (spec_os2ip(a@) < spec_os2ip(b@)),
{
    let n: usize = a.len();
    let mut below: bool = false;
    let mut same: bool = true;
    let mut i: usize = 0;
    while i < n
        invariant
            n == a@.len(),
            n == b@.len(),
            i <= n,
            below == (spec_os2ip(a@.subrange(0, i as int)) < spec_os2ip(b@.subrange(0, i as int))),
            same == (spec_os2ip(a@.subrange(0, i as int)) == spec_os2ip(b@.subrange(0, i as int))),
        decreases n - i,
    {
        proof {
            assert(a@.subrange(0, i + 1).drop_last() =~= a@.subrange(0, i as int));
            assert(b@.subrange(0, i + 1).drop_last() =~= b@.subrange(0, i as int));
        }
        if same && a[i] < b[i] {
            below = true;
        }
        if a[i] != b[i] {
            same = false;
        }
        i = i + 1;
    }
    assert(a@.subrange(0, n as int) =~= a@);
    assert(b@.subrange(0, n as int) =~= b@);
    below
}

/// Whether every byte of `s` is zero.
pub fn is_all_zero(s: &[u8]) -> (r: bool)
    ensures
        r == spec_all_zero(s@),
{
    let n: usize = s.len();
    let mut i: usize = 0;
    while i < n
        invariant
            n == s@.len(),
            i <= n,
            forall|j: int| 0 <= j < i ==> s@[j] == 0u8,
        decreases n - i,
    {
        if s[i] != 0u8 {
            return false;
        }
        i = i + 1;
    }
    true
}

} // verus!
