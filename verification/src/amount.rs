use vstd::prelude::*;
use vstd::string::StringSliceAdditionalSpecFns;

use crate::error::DecStrError;

verus! {

/// The least value that does not fit in 256 bits.
pub open spec fn u256_limit() -> nat {
    0x10000000000000000000000000000000000000000000000000000000000000000nat
}

/// A 256-bit unsigned integer, least significant 64-bit limb first.
#[derive(Clone, Copy, Debug, PartialEq, Eq, Structural)]
pub struct U256 {
    pub w0: u64,
    pub w1: u64,
    pub w2: u64,
    pub w3: u64,
}

impl U256 {
    /// The number that the four limbs stand for.
    pub open spec fn value(self) -> nat {
        self.w0 as nat + self.w1 as nat * 0x10000000000000000nat + self.w2 as nat
            * 0x100000000000000000000000000000000nat + self.w3 as nat
            * 0x1000000000000000000000000000000000000000000000000nat
    }

    /// The zero value.
    pub fn zero() -> (r: U256)
        ensures
            r.value() == 0,
    {
        U256 { w0: 0, w1: 0, w2: 0, w3: 0 }
    }
}

/// Whether a byte is the ASCII code of a decimal digit.
pub open spec fn is_dec_digit(b: u8) -> bool {
    0x30 <= b && b <= 0x39
}

/// The numeric value of the decimal digit with ASCII code `b`,
/// and zero for any other byte.
pub open spec fn dec_digit_value(b: u8) -> nat {
    if is_dec_digit(b) {
        (b - 0x30) as nat
    } else {
        0
    }
}

/// The number that a sequence of decimal digit bytes stands for,
/// most significant digit first.
pub open spec fn dec_value(s: Seq<u8>) -> nat
    decreases s.len(),
{
    if s.len() == 0 {
        0
    } else {
        dec_value(s.drop_last()) * 10 + dec_digit_value(s.last())
    }
}

/// The length of the longest prefix of `s` made of decimal digits.
pub open spec fn digits_prefix_len(s: Seq<u8>) -> nat
    decreases s.len(),
{
    if s.len() == 0 || !is_dec_digit(s[0]) {
        0
    } else {
        1 + digits_prefix_len(s.drop_first())
    }
}

/// Whether the string bytes `b` read as a decimal number that fits in
/// 256 bits: digits from start to end, value below the limit.
pub open spec fn dec_str_ok_spec(b: Seq<u8>) -> bool {
    digits_prefix_len(b) == b.len() && dec_value(b) < u256_limit()
}

/// Whether `e` is the error that reading the string bytes `b` as a
/// 256-bit decimal number must report.
pub open spec fn dec_str_error_spec(b: Seq<u8>, e: DecStrError) -> bool {
    match e {
        DecStrError::InvalidCharacter => digits_prefix_len(b) < b.len() && dec_value(
            b.take(digits_prefix_len(b) as int),
        ) < u256_limit(),
        DecStrError::InvalidLength => dec_value(b.take(digits_prefix_len(b) as int))
            >= u256_limit(),
    }
}

proof fn lemma_digits_prefix_len_le_len(s: Seq<u8>)
    ensures
        digits_prefix_len(s) <= s.len(),
    decreases s.len(),
{
    if s.len() != 0 && is_dec_digit(s[0]) {
        lemma_digits_prefix_len_le_len(s.drop_first());
    }
}

proof fn lemma_digits_prefix_len_at_least(s: Seq<u8>, k: int)
    requires
        0 <= k <= s.len(),
        forall|j: int| 0 <= j < k ==> is_dec_digit(s[j]),
    ensures
        digits_prefix_len(s) >= k,
    decreases k,
{
    if k > 0 {
        assert(is_dec_digit(s[0]));
        assert(forall|j: int| 0 <= j < k - 1 ==> is_dec_digit(s.drop_first()[j]));
        lemma_digits_prefix_len_at_least(s.drop_first(), k - 1);
    }
}

proof fn lemma_digits_prefix_len_exact(s: Seq<u8>, k: int)
    requires
        0 <= k <= s.len(),
        forall|j: int| 0 <= j < k ==> is_dec_digit(s[j]),
        k < s.len() ==> !is_dec_digit(s[k]),
    ensures
        digits_prefix_len(s) == k,
    decreases k,
{
    if k == 0 {
        if s.len() != 0 {
            assert(!is_dec_digit(s[0]));
        }
    } else {
        assert(is_dec_digit(s[0]));
        assert(forall|j: int| 0 <= j < k - 1 ==> is_dec_digit(s.drop_first()[j]));
        assert(k - 1 < s.drop_first().len() ==> !is_dec_digit(s.drop_first()[k - 1]));
        lemma_digits_prefix_len_exact(s.drop_first(), k - 1);
    }
}

proof fn lemma_dec_value_take_step(s: Seq<u8>, i: int)
    requires
        0 <= i < s.len(),
    ensures
        dec_value(s.take(i + 1)) == dec_value(s.take(i)) * 10 + dec_digit_value(s[i]),
{
    assert(s.take(i + 1).drop_last() =~= s.take(i));
    assert(s.take(i + 1).last() == s[i]);
}

proof fn lemma_dec_value_take_monotonic(s: Seq<u8>, i: int, j: int)
    requires
        0 <= i <= j <= s.len(),
    ensures
        dec_value(s.take(i)) <= dec_value(s.take(j)),
    decreases j - i,
{
    if i < j {
        lemma_dec_value_take_monotonic(s, i, j - 1);
        lemma_dec_value_take_step(s, j - 1);
    }
}

/// One step of reading a decimal string: the value so far times ten,
/// plus the next digit, with a flag that reports 256-bit overflow.
fn mul10_add(a: &U256, d: u8) -> (r: (U256, bool))
    requires
        d < 10,
    ensures
        r.1 == (a.value() * 10 + d >= u256_limit()),
        !r.1 ==> r.0.value() == a.value() * 10 + d,
{
    let t0: u128 = (a.w0 as u128) * 10 + (d as u128);
    let n0: u64 = (t0 % 0x10000000000000000) as u64;
    let c0: u64 = (t0 / 0x10000000000000000) as u64;
    let t1: u128 = (a.w1 as u128) * 10 + (c0 as u128);
    let n1: u64 = (t1 % 0x10000000000000000) as u64;
    let c1: u64 = (t1 / 0x10000000000000000) as u64;
    let t2: u128 = (a.w2 as u128) * 10 + (c1 as u128);
    let n2: u64 = (t2 % 0x10000000000000000) as u64;
    let c2: u64 = (t2 / 0x10000000000000000) as u64;
    let t3: u128 = (a.w3 as u128) * 10 + (c2 as u128);
    let n3: u64 = (t3 % 0x10000000000000000) as u64;
    let c3: u64 = (t3 / 0x10000000000000000) as u64;
    proof {
        assert(t0 as nat == n0 as nat + c0 as nat * 0x10000000000000000nat);
        assert(t1 as nat == n1 as nat + c1 as nat * 0x10000000000000000nat);
        assert(t2 as nat == n2 as nat + c2 as nat * 0x10000000000000000nat);
        assert(t3 as nat == n3 as nat + c3 as nat * 0x10000000000000000nat);
    }
    let out = U256 { w0: n0, w1: n1, w2: n2, w3: n3 };
    proof {
        assert(out.value() + c3 * u256_limit() == a.value() * 10 + d);
        assert(out.value() < u256_limit());
    }
    (out, c3 != 0)
}

impl U256 {
    /// Reads a decimal string into a 256-bit value, exactly as far as
    /// the digits carry: a byte outside `0-9` stops the reading with
    /// `InvalidCharacter`, unless the digits before it already pushed
    /// the value past 256 bits, which reports `InvalidLength` instead.
    pub fn from_dec_str(s: &str) -> (r: Result<U256, DecStrError>)
        ensures
            (match r {
                Ok(u) => dec_str_ok_spec(s.spec_bytes()) && u.value() == dec_value(s.spec_bytes()),
                Err(e) => dec_str_error_spec(s.spec_bytes(), e),
            }),
    {
        let bytes: &[u8] = s.as_bytes();
        let n: usize = bytes.len();
        let mut res = U256 { w0: 0, w1: 0, w2: 0, w3: 0 };
        let mut i: usize = 0;
        while i < n
            invariant
                n == bytes@.len(),
                bytes@ == s.spec_bytes(),
                i <= n,
                forall|j: int| 0 <= j < i ==> is_dec_digit(#[trigger] bytes@[j]),
                res.value() == dec_value(bytes@.take(i as int)),
                dec_value(bytes@.take(i as int)) < u256_limit(),
            decreases n - i,
        {
            let b: u8 = *vstd::slice::slice_index_get(bytes, i);
            if b < 0x30 || 0x39 < b {
                proof {
                    lemma_digits_prefix_len_exact(bytes@, i as int);
                }
                return Err(DecStrError::InvalidCharacter);
            }
            let d: u8 = b - 0x30;
            let step = mul10_add(&res, d);
            proof {
                lemma_dec_value_take_step(bytes@, i as int);
            }
            if step.1 {
                proof {
                    lemma_digits_prefix_len_at_least(bytes@, i as int + 1);
                    lemma_digits_prefix_len_le_len(bytes@);
                    lemma_dec_value_take_monotonic(
                        bytes@,
                        i as int + 1,
                        digits_prefix_len(bytes@) as int,
                    );
                }
                return Err(DecStrError::InvalidLength);
            }
            res = step.0;
            i = i + 1;
        }
        proof {
            lemma_digits_prefix_len_exact(bytes@, n as int);
            assert(bytes@.take(n as int) =~= bytes@);
        }
        Ok(res)
    }
}

} // verus!
