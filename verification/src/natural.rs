//! Arbitrary-precision natural numbers held as big-endian byte strings.
//!
//! Bytecode words and entry-point selectors arrive as integers of any size.
//! Their mathematical model is a `nat`: the value that the bytes spell in
//! base 256, most significant byte first. Leading zero bytes do not change it.

use vstd::prelude::*;

verus! {

/// The number that `bytes` spells in base 256, most significant byte first.
pub open spec fn be_value(bytes: Seq<u8>) -> nat
    decreases bytes.len(),
{
    if bytes.len() == 0 {
        0
    } else {
        be_value(bytes.drop_last()) * 256 + bytes.last() as nat
    }
}

/// 256 to the power `n`.
pub open spec fn pow256(n: nat) -> nat
    decreases n,
{
    if n == 0 {
        1
    } else {
        256 * pow256((n - 1) as nat)
    }
}

/// A byte string of length `n` spells a number below `256^n`.
pub proof fn lemma_be_value_upper_bound(bytes: Seq<u8>)
    ensures
        be_value(bytes) < pow256(bytes.len()),
    decreases bytes.len(),
{
    if bytes.len() > 0 {
        lemma_be_value_upper_bound(bytes.drop_last());
    }
}

/// A byte string of length `n` whose first byte is not zero spells a number
/// of at least `256^(n-1)`.
pub proof fn lemma_be_value_lower_bound(bytes: Seq<u8>)
    requires
        bytes.len() > 0,
        bytes[0] != 0,
    ensures
        be_value(bytes) >= pow256((bytes.len() - 1) as nat),
    decreases bytes.len(),
{
    if bytes.len() > 1 {
        lemma_be_value_lower_bound(bytes.drop_last());
    }
}

/// `256^n` grows with `n`.
pub proof fn lemma_pow256_monotonic(m: nat, n: nat)
    requires
        m <= n,
    ensures
        pow256(m) <= pow256(n),
        pow256(m) >= 1,
    decreases n,
{
    if m < n {
        lemma_pow256_monotonic(m, (n - 1) as nat);
    } else if n > 0 {
        lemma_pow256_monotonic((m - 1) as nat, (n - 1) as nat);
    }
}

/// Zero bytes in front do not change the number.
pub proof fn lemma_be_value_skip_zeros(bytes: Seq<u8>, k: int)
    requires
        0 <= k <= bytes.len(),
        forall|i: int| 0 <= i < k ==> bytes[i] == 0,
    ensures
        be_value(bytes) == be_value(bytes.skip(k)),
    decreases bytes.len(),
{
    if k == bytes.len() {
        if bytes.len() > 0 {
            lemma_be_value_skip_zeros(bytes.drop_last(), k - 1);
        }
    } else {
        lemma_be_value_skip_zeros(bytes.drop_last(), k);
        assert(bytes.skip(k).drop_last() =~= bytes.drop_last().skip(k));
    }
}

/// The number that `bytes` spells is the first byte times `256^(n-1)` plus
/// the number that the rest spells.
pub proof fn lemma_be_value_split_first(bytes: Seq<u8>)
    requires
        bytes.len() > 0,
    ensures
        be_value(bytes) == bytes[0] as nat * pow256((bytes.len() - 1) as nat) + be_value(
            bytes.skip(1),
        ),
    decreases bytes.len(),
{
    if bytes.len() == 1 {
        assert(be_value(bytes.drop_last()) == 0);
        let unit = pow256(0);
        assert(bytes[0] as nat * unit == bytes[0] as nat) by (nonlinear_arith)
            requires
                unit == 1,
        ;
    } else {
        let front = bytes.drop_last();
        lemma_be_value_split_first(front);
        assert(bytes.skip(1).drop_last() =~= front.skip(1));
        let p = pow256((front.len() - 1) as nat);
        let first = bytes[0] as nat;
        let q = pow256((bytes.len() - 1) as nat);
        assert(first * q == (first * p) * 256) by (nonlinear_arith)
            requires
                q == 256 * p,
        ;
    }
}

/// Two byte strings of one length that spell the same number are the same.
pub proof fn lemma_be_value_injective(a: Seq<u8>, b: Seq<u8>)
    requires
        a.len() == b.len(),
        be_value(a) == be_value(b),
    ensures
        a == b,
    decreases a.len(),
{
    if a.len() > 0 {
        lemma_be_value_injective(a.drop_last(), b.drop_last());
        assert(b =~= b.drop_last().push(b.last()));
    }
}

/// Appending one byte multiplies the number by 256 and adds the byte.
pub proof fn lemma_be_value_push(bytes: Seq<u8>, byte: u8)
    ensures
        be_value(bytes.push(byte)) == be_value(bytes) * 256 + byte as nat,
{
    assert(bytes.push(byte).drop_last() =~= bytes);
}

/// Index of the first byte of `bytes` that is not zero, or its length.
fn leading_zeros(bytes: &[u8]) -> (k: usize)
    ensures
        k <= bytes@.len(),
        forall|i: int| 0 <= i < k ==> bytes@[i] == 0,
        k < bytes@.len() ==> bytes@[k as int] != 0,
{
    let mut k: usize = 0;
    while k < bytes.len() && bytes[k] == 0
        invariant
            k <= bytes@.len(),
            forall|i: int| 0 <= i < k ==> bytes@[i] == 0,
        decreases bytes@.len() - k,
    {
        k = k + 1;
    }
    k
}

/// Whether two big-endian byte strings spell the same number.
pub fn be_eq(a: &[u8], b: &[u8]) -> (same: bool)
    ensures
        same == (be_value(a@) == be_value(b@)),
{
    let i = leading_zeros(a);
    let j = leading_zeros(b);
    let ghost sa = a@.skip(i as int);
    let ghost sb = b@.skip(j as int);
    proof {
        lemma_be_value_skip_zeros(a@, i as int);
        lemma_be_value_skip_zeros(b@, j as int);
    }
    let m = a.len() - i;
    let n = b.len() - j;
    if m != n {
        proof {
            lemma_be_value_upper_bound(sa);
            lemma_be_value_upper_bound(sb);
            if m < n {
                lemma_be_value_lower_bound(sb);
                lemma_pow256_monotonic(m as nat, (n - 1) as nat);
            } else {
                lemma_be_value_lower_bound(sa);
                lemma_pow256_monotonic(n as nat, (m - 1) as nat);
            }
        }
        return false;
    }
    let mut k: usize = 0;
    while k < m
        invariant
            k <= m,
            m == n,
            i <= a@.len() <= usize::MAX,
            j <= b@.len() <= usize::MAX,
            m == a@.len() - i,
            n == b@.len() - j,
            sa == a@.skip(i as int),
            sb == b@.skip(j as int),
            be_value(a@) == be_value(sa),
            be_value(b@) == be_value(sb),
            forall|t: int| 0 <= t < k ==> sa[t] == sb[t],
        decreases m - k,
    {
        if a[i + k] != b[j + k] {
            proof {
                if be_value(sa) == be_value(sb) {
                    lemma_be_value_injective(sa, sb);
                    assert(sa[k as int] == sb[k as int]);
                }
            }
            return false;
        }
        k = k + 1;
    }
    assert(sa =~= sb);
    true
}

/// An arbitrary-precision natural number, as big-endian bytes.
///
/// Its view is the number itself, so `[1]`, `[0, 1]` and `[0, 0, 1]` all
/// stand for one.
#[derive(Debug, Clone, PartialEq, Eq)]
pub struct BigNat {
    pub bytes: Vec<u8>,
}

impl View for BigNat {
    type V = nat;

    open spec fn view(&self) -> nat {
        be_value(self.bytes@)
    }
}

impl DeepView for BigNat {
    type V = nat;

    open spec fn deep_view(&self) -> nat {
        self@
    }
}

impl BigNat {
    /// The number spelled by `bytes`, most significant byte first.
    pub fn from_be_bytes(bytes: Vec<u8>) -> (n: BigNat)
        ensures
            n@ == be_value(bytes@),
            n.bytes == bytes,
    {
        BigNat { bytes }
    }
}

} // verus!
