//! Little-endian byte strings as numbers, and the canonical form of a
//! compressed Edwards point.
use vstd::prelude::*;

verus! {

/// `256^k`.
pub open spec fn pow256(k: nat) -> nat
    decreases k,
{
    if k == 0 {
        1
    } else {
        256 * pow256((k - 1) as nat)
    }
}

/// The number held by the first `k` bytes of `s`, least significant byte first.
pub open spec fn le_prefix(s: Seq<u8>, k: nat) -> nat
    decreases k,
{
    if k == 0 {
        0
    } else {
        le_prefix(s, (k - 1) as nat) + pow256((k - 1) as nat) * (s[k - 1] as nat)
    }
}

/// The number that the little-endian byte string `s` holds.
pub open spec fn le_nat(s: Seq<u8>) -> nat {
    le_prefix(s, s.len())
}

/// The `k`-byte little-endian encoding of `n` (taken modulo `256^k`).
pub open spec fn le_bytes(n: nat, k: nat) -> Seq<u8> {
    Seq::new(k, |i: int| ((n / pow256(i as nat)) % 256) as u8)
}

/// The prime `p = 2^255 - 19` of the field over which the curve is defined.
pub open spec fn field_prime() -> nat {
    (128 * pow256(31) - 19) as nat
}

/// The y-coordinate that a 32-byte point encoding carries: its low 255 bits.
pub open spec fn encoded_y(b: Seq<u8>) -> nat {
    le_prefix(b, 31) + pow256(31) * ((b[31] % 128) as nat)
}

/// The sign bit of the x-coordinate: the top bit of the last byte.
pub open spec fn encoded_sign(b: Seq<u8>) -> bool {
    b[31] >= 128
}

/// A 32-byte point encoding is canonical when its y-coordinate is a reduced
/// field element and it does not set the sign bit for a point whose
/// x-coordinate is zero (y = 1 or y = p - 1), which has a single encoding.
pub open spec fn canonical_point_encoding(b: Seq<u8>) -> bool {
    &&& b.len() == 32
    &&& encoded_y(b) < field_prime()
    &&& !(encoded_sign(b) && (encoded_y(b) == 1 || encoded_y(b) == field_prime() - 1))
}

proof fn lemma_pow256_positive(k: nat)
    ensures
        pow256(k) >= 1,
        k >= 1 ==> pow256(k) >= 256,
    decreases k,
{
    if k > 0 {
        lemma_pow256_positive((k - 1) as nat);
    }
}

proof fn lemma_le_prefix_bound(s: Seq<u8>, k: nat)
    requires
        k <= s.len(),
    ensures
        le_prefix(s, k) < pow256(k),
    decreases k,
{
    if k > 0 {
        let k1 = (k - 1) as nat;
        lemma_le_prefix_bound(s, k1);
        let p = pow256(k1);
        let x = s[k - 1] as nat;
        assert(p * x <= p * 255) by (nonlinear_arith)
            requires
                x <= 255,
        ;
    }
}

/// The prefix reaches `256^k - 256 + c` exactly when its upper bytes are all
/// `0xff` and its lowest byte reaches `c`; it equals that value exactly when
/// its lowest byte equals `c` as well.
proof fn lemma_le_prefix_high(s: Seq<u8>, k: nat, c: nat)
    requires
        1 <= k <= s.len(),
        c <= 255,
    ensures
        (le_prefix(s, k) + 256 >= pow256(k) + c) == ((forall|j: int| 1 <= j < k ==> s[j] == 255)
            && s[0] >= c),
        (le_prefix(s, k) + 256 == pow256(k) + c) == ((forall|j: int| 1 <= j < k ==> s[j] == 255)
            && s[0] == c),
    decreases k,
{
    reveal_with_fuel(le_prefix, 2);
    reveal_with_fuel(pow256, 2);
    if k == 1 {
        assert(le_prefix(s, 1) == s[0] as nat);
    } else {
        let k1 = (k - 1) as nat;
        lemma_le_prefix_high(s, k1, c);
        lemma_le_prefix_bound(s, k1);
        lemma_pow256_positive(k1);
        let p = pow256(k1);
        let x = s[k1 as int] as nat;
        assert(le_prefix(s, k) == le_prefix(s, k1) + p * x);
        assert(pow256(k) == 256 * p);
        if x == 255 {
            assert(p * x == 255 * p) by (nonlinear_arith)
                requires
                    x == 255,
            ;
            assert((forall|j: int| 1 <= j < k ==> s[j] == 255) == (forall|j: int|
                1 <= j < k1 ==> s[j] == 255)) by {
                if forall|j: int| 1 <= j < k1 ==> s[j] == 255 {
                    assert forall|j: int| 1 <= j < k implies s[j] == 255 by {
                        if j < k1 {
                        }
                    }
                }
            }
        } else {
            assert(p * x <= 254 * p) by (nonlinear_arith)
                requires
                    x <= 254,
            ;
            assert(!(1 <= k1 < k ==> s[k1 as int] == 255));
        }
    }
}

/// The prefix holds the small value `c` exactly when its upper bytes are zero
/// and its lowest byte is `c`.
proof fn lemma_le_prefix_low(s: Seq<u8>, k: nat, c: nat)
    requires
        1 <= k <= s.len(),
        c <= 255,
    ensures
        (le_prefix(s, k) == c) == ((forall|j: int| 1 <= j < k ==> s[j] == 0) && s[0] == c),
    decreases k,
{
    reveal_with_fuel(le_prefix, 2);
    reveal_with_fuel(pow256, 2);
    if k == 1 {
        assert(le_prefix(s, 1) == s[0] as nat);
    } else {
        let k1 = (k - 1) as nat;
        lemma_le_prefix_low(s, k1, c);
        lemma_pow256_positive(k1);
        let p = pow256(k1);
        let x = s[k1 as int] as nat;
        assert(le_prefix(s, k) == le_prefix(s, k1) + p * x);
        if x == 0 {
            assert(p * x == 0) by (nonlinear_arith)
                requires
                    x == 0,
            ;
            assert((forall|j: int| 1 <= j < k ==> s[j] == 0) == (forall|j: int|
                1 <= j < k1 ==> s[j] == 0)) by {
                if forall|j: int| 1 <= j < k1 ==> s[j] == 0 {
                    assert forall|j: int| 1 <= j < k implies s[j] == 0 by {
                        if j < k1 {
                        }
                    }
                }
            }
        } else {
            assert(p * x >= p) by (nonlinear_arith)
                requires
                    x >= 1,
            ;
            assert(!(1 <= k1 < k ==> s[k1 as int] == 0));
        }
    }
}

/// Whether `b` is the canonical encoding of a y-coordinate and sign bit.
/// Whether such a point lies on the curve is a separate question.
pub fn is_canonical_point_encoding(b: &[u8; 32]) -> (r: bool)
    ensures
        r == canonical_point_encoding(b@),
{
    let mut all_ff = true;
    let mut all_zero = true;
    let mut i: usize = 1;
    while i < 31
        invariant
            1 <= i <= 31,
            b@.len() == 32,
            all_ff == (forall|j: int| 1 <= j < i ==> b@[j] == 255),
            all_zero == (forall|j: int| 1 <= j < i ==> b@[j] == 0),
        decreases 31 - i,
    {
        all_ff = all_ff && b[i] == 0xff;
        all_zero = all_zero && b[i] == 0;
        i = i + 1;
    }
    let last = b[31];
    let top = last & 0x7f;
    let sign = last >> 7u8 == 1;
    let y_too_large = top == 0x7f && all_ff && b[0] >= 0xed;
    let y_is_p_minus_one = top == 0x7f && all_ff && b[0] == 0xec;
    let y_is_one = top == 0 && all_zero && b[0] == 1;
    proof {
        assert(top == last % 128 && (last >> 7u8 == 1) == (last >= 128)) by (bit_vector)
            requires
                top == last & 0x7f,
        ;
        lemma_encoded_y_cases(b@);
    }
    !y_too_large && !(sign && (y_is_one || y_is_p_minus_one))
}

/// How the y-coordinate of an encoding compares with `1`, `p - 1` and `p`,
/// stated on the encoding's bytes.
proof fn lemma_encoded_y_cases(b: Seq<u8>)
    requires
        b.len() == 32,
    ensures
        (encoded_y(b) >= field_prime()) == (b[31] % 128 == 127 && (forall|j: int|
            1 <= j < 31 ==> b[j] == 255) && b[0] >= 237),
        (encoded_y(b) == field_prime() - 1) == (b[31] % 128 == 127 && (forall|j: int|
            1 <= j < 31 ==> b[j] == 255) && b[0] == 236),
        (encoded_y(b) == 1) == (b[31] % 128 == 0 && (forall|j: int| 1 <= j < 31 ==> b[j] == 0)
            && b[0] == 1),
{
    let q = pow256(31);
    let top = (b[31] % 128) as nat;
    let low = le_prefix(b, 31);
    lemma_le_prefix_high(b, 31, 237);
    lemma_le_prefix_high(b, 31, 236);
    lemma_le_prefix_low(b, 31, 1);
    lemma_le_prefix_bound(b, 31);
    lemma_pow256_positive(31);
    assert(encoded_y(b) == low + q * top);
    if top < 127 {
        assert(q * top <= q * 126) by (nonlinear_arith)
            requires
                top <= 126,
        ;
    } else {
        assert(q * top == 127 * q) by (nonlinear_arith)
            requires
                top == 127,
        ;
    }
    if top >= 1 {
        assert(q * top >= q) by (nonlinear_arith)
            requires
                top >= 1,
        ;
    } else {
        assert(q * top == 0) by (nonlinear_arith)
            requires
                top == 0,
        ;
    }
}

} // verus!
