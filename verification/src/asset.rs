//! Asset descriptors and the canonical total ordering used by the
//! liquidity-pool rules: assets compare by kind, then code, then issuer.
use vstd::prelude::*;

verus! {

/// An asset on the ledger: the native token, or a credit asset identified
/// by a short code (1..=4 bytes) or a long code (5..=12 bytes) together
/// with the 32-byte public key of its issuing account.
#[derive(Debug)]
pub enum Asset {
    Native,
    CreditAlphanum4 { code: Vec<u8>, issuer: [u8; 32] },
    CreditAlphanum12 { code: Vec<u8>, issuer: [u8; 32] },
}

/// Well-formedness: alphanumeric asset codes have the lengths the wire
/// format reserves for their kind.
pub open spec fn wf_asset(a: Asset) -> bool {
    match a {
        Asset::Native => true,
        Asset::CreditAlphanum4 { code, issuer } => 1 <= code@.len() <= 4,
        Asset::CreditAlphanum12 { code, issuer } => 5 <= code@.len() <= 12,
    }
}

/// Rank of the asset kind in the canonical ordering:
/// native before short codes before long codes.
pub open spec fn spec_rank(a: Asset) -> int {
    match a {
        Asset::Native => 0,
        Asset::CreditAlphanum4 { .. } => 1,
        Asset::CreditAlphanum12 { .. } => 2,
    }
}

pub open spec fn spec_code(a: Asset) -> Seq<u8> {
    match a {
        Asset::Native => Seq::empty(),
        Asset::CreditAlphanum4 { code, .. } => code@,
        Asset::CreditAlphanum12 { code, .. } => code@,
    }
}

pub open spec fn spec_issuer(a: Asset) -> Seq<u8> {
    match a {
        Asset::Native => Seq::empty(),
        Asset::CreditAlphanum4 { issuer, .. } => issuer@,
        Asset::CreditAlphanum12 { issuer, .. } => issuer@,
    }
}

/// Lexicographic comparison of byte sequences; -1, 0 or 1.
pub open spec fn spec_lex_cmp(a: Seq<u8>, b: Seq<u8>) -> int
    decreases a.len(),
{
    if a.len() == 0 && b.len() == 0 {
        0
    } else if a.len() == 0 {
        -1
    } else if b.len() == 0 {
        1
    } else if a[0] < b[0] {
        -1
    } else if a[0] > b[0] {
        1
    } else {
        spec_lex_cmp(a.skip(1), b.skip(1))
    }
}

/// The canonical asset ordering: by kind rank, then code bytes, then
/// issuer key bytes, each lexicographically.
pub open spec fn spec_compare(a: Asset, b: Asset) -> int {
    if spec_rank(a) < spec_rank(b) {
        -1
    } else if spec_rank(a) > spec_rank(b) {
        1
    } else if spec_lex_cmp(spec_code(a), spec_code(b)) != 0 {
        spec_lex_cmp(spec_code(a), spec_code(b))
    } else {
        spec_lex_cmp(spec_issuer(a), spec_issuer(b))
    }
}

proof fn lemma_lex_cmp_range(a: Seq<u8>, b: Seq<u8>)
    ensures
        -1 <= spec_lex_cmp(a, b) <= 1,
    decreases a.len(),
{
    if a.len() != 0 && b.len() != 0 && a[0] == b[0] {
        lemma_lex_cmp_range(a.skip(1), b.skip(1));
    }
}

proof fn lemma_lex_cmp_antisym(a: Seq<u8>, b: Seq<u8>)
    ensures
        spec_lex_cmp(a, b) == -spec_lex_cmp(b, a),
    decreases a.len(),
{
    if a.len() != 0 && b.len() != 0 && a[0] == b[0] {
        lemma_lex_cmp_antisym(a.skip(1), b.skip(1));
    }
}

proof fn lemma_lex_cmp_zero_iff_eq(a: Seq<u8>, b: Seq<u8>)
    ensures
        spec_lex_cmp(a, b) == 0 <==> a == b,
    decreases a.len(),
{
    if a.len() != 0 && b.len() != 0 && a[0] == b[0] {
        lemma_lex_cmp_zero_iff_eq(a.skip(1), b.skip(1));
        if a.skip(1) == b.skip(1) {
            assert forall|i: int| 0 <= i < a.len() implies a[i] == b[i] by {
                if i > 0 {
                    assert(a.skip(1)[i - 1] == a[i]);
                    assert(b.skip(1)[i - 1] == b[i]);
                }
            }
            assert(a =~= b);
        }
        if a == b {
            assert(a.skip(1) =~= b.skip(1));
        }
    } else {
        if a.len() == 0 && b.len() == 0 {
            assert(a =~= b);
        }
    }
}

/// The ordering accepts exactly one of the two orders of a pair of
/// distinct assets: `compare` is antisymmetric, and it returns 0 only
/// when kind, code and issuer all coincide.
pub proof fn lemma_compare_antisymmetric(a: Asset, b: Asset)
    ensures
        spec_compare(a, b) == -spec_compare(b, a),
        spec_compare(a, b) == 0 <==> (spec_rank(a) == spec_rank(b) && spec_code(a)
            == spec_code(b) && spec_issuer(a) == spec_issuer(b)),
{
    lemma_lex_cmp_antisym(spec_code(a), spec_code(b));
    lemma_lex_cmp_antisym(spec_issuer(a), spec_issuer(b));
    lemma_lex_cmp_zero_iff_eq(spec_code(a), spec_code(b));
    lemma_lex_cmp_zero_iff_eq(spec_issuer(a), spec_issuer(b));
}

/// Exactly one of (a, b) and (b, a) is accepted as strictly ordered when
/// the assets differ in kind, code or issuer; neither is when they do not.
pub proof fn lemma_strict_order_dichotomy(a: Asset, b: Asset)
    ensures
        (spec_rank(a) != spec_rank(b) || spec_code(a) != spec_code(b) || spec_issuer(a)
            != spec_issuer(b)) ==> ((spec_compare(a, b) == -1) <==> !(spec_compare(b, a) == -1)),
        (spec_rank(a) == spec_rank(b) && spec_code(a) == spec_code(b) && spec_issuer(a)
            == spec_issuer(b)) ==> (spec_compare(a, b) != -1 && spec_compare(b, a) != -1),
{
    lemma_compare_antisymmetric(a, b);
    lemma_lex_cmp_range(spec_code(a), spec_code(b));
    lemma_lex_cmp_range(spec_issuer(a), spec_issuer(b));
}

fn lex_cmp(a: &[u8], b: &[u8]) -> (r: i32)
    ensures
        r as int == spec_lex_cmp(a@, b@),
{
    let n: usize = if a.len() < b.len() {
        a.len()
    } else {
        b.len()
    };
    let mut i: usize = 0;
    proof {
        assert(a@.skip(0) =~= a@);
        assert(b@.skip(0) =~= b@);
    }
    while i < n
        invariant
            0 <= i <= n,
            n == if a@.len() < b@.len() {
                a@.len()
            } else {
                b@.len()
            },
            forall|j: int| 0 <= j < i ==> a@[j] == b@[j],
            spec_lex_cmp(a@, b@) == spec_lex_cmp(a@.skip(i as int), b@.skip(i as int)),
        decreases n - i,
    {
        if a[i] < b[i] {
            proof {
                assert(a@.skip(i as int)[0] == a@[i as int]);
                assert(b@.skip(i as int)[0] == b@[i as int]);
            }
            return -1;
        }
        if a[i] > b[i] {
            proof {
                assert(a@.skip(i as int)[0] == a@[i as int]);
                assert(b@.skip(i as int)[0] == b@[i as int]);
            }
            return 1;
        }
        proof {
            assert(a@.skip(i as int)[0] == b@.skip(i as int)[0]);
            assert(a@.skip(i as int).skip(1) =~= a@.skip(i + 1));
            assert(b@.skip(i as int).skip(1) =~= b@.skip(i + 1));
        }
        i = i + 1;
    }
    proof {
        if a@.len() == b@.len() {
            assert(a@.skip(i as int).len() == 0);
            assert(b@.skip(i as int).len() == 0);
        }
    }
    if a.len() == b.len() {
        0
    } else if a.len() < b.len() {
        proof {
            assert(a@.skip(i as int).len() == 0);
            assert(b@.skip(i as int).len() > 0);
        }
        -1
    } else {
        proof {
            assert(b@.skip(i as int).len() == 0);
            assert(a@.skip(i as int).len() > 0);
        }
        1
    }
}

impl Asset {
    /// The native token of the network.
    pub fn native() -> (r: Asset)
        ensures
            r is Native,
    {
        Asset::Native
    }

    /// Compares two assets in the canonical kind-then-code-then-issuer
    /// order; returns -1, 0 or 1.
    pub fn compare(a: &Asset, b: &Asset) -> (r: i32)
        ensures
            r as int == spec_compare(*a, *b),
    {
        match (a, b) {
            (Asset::Native, Asset::Native) => 0,
            (Asset::Native, _) => -1,
            (Asset::CreditAlphanum4 { .. }, Asset::Native) => 1,
            (Asset::CreditAlphanum4 { code: ca, issuer: ia }, Asset::CreditAlphanum4 {
                code: cb,
                issuer: ib,
            }) => {
                let c = lex_cmp(ca.as_slice(), cb.as_slice());
                if c != 0 {
                    c
                } else {
                    lex_cmp(ia.as_slice(), ib.as_slice())
                }
            },
            (Asset::CreditAlphanum4 { .. }, Asset::CreditAlphanum12 { .. }) => -1,
            (Asset::CreditAlphanum12 { .. }, Asset::Native) => 1,
            (Asset::CreditAlphanum12 { .. }, Asset::CreditAlphanum4 { .. }) => 1,
            (Asset::CreditAlphanum12 { code: ca, issuer: ia }, Asset::CreditAlphanum12 {
                code: cb,
                issuer: ib,
            }) => {
                let c = lex_cmp(ca.as_slice(), cb.as_slice());
                if c != 0 {
                    c
                } else {
                    lex_cmp(ia.as_slice(), ib.as_slice())
                }
            },
        }
    }
}

} // verus!
