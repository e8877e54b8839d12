//! Decimal and hexadecimal digit strings as encodings of natural numbers.
//!
//! Every scalar and group element in this crate travels as a decimal
//! string.  The spec functions here say what such a string is worth as a
//! `nat`, what it means for it to be canonical (no leading zero), and
//! prove that canonical encodings are unique: equal values have equal
//! strings.  That uniqueness is what lets the verifier compare group
//! elements by comparing their decimal encodings.

use vstd::prelude::*;
use vstd::string::{StrSliceExecFns, StringSliceAdditionalSpecFns};

verus! {

/// `c` is one of the characters `'0'` through `'9'`.
pub open spec fn is_dec_digit(c: char) -> bool {
    48 <= c as int && c as int <= 57
}

/// The numeric value of a decimal digit character.
pub open spec fn dec_digit_val(c: char) -> nat {
    (c as int - 48) as nat
}

/// The digit character for a value below ten.
pub open spec fn dec_digit_char(n: nat) -> char {
    (n + 48) as char
}

/// A non-empty string of decimal digit characters.
pub open spec fn is_dec_digits(s: Seq<char>) -> bool {
    s.len() > 0 && forall|i: int| 0 <= i < s.len() ==> is_dec_digit(#[trigger] s[i])
}

/// The natural number that a string of decimal digits denotes,
/// most significant digit first.  The empty string denotes zero.
pub open spec fn dec_value(s: Seq<char>) -> nat
    decreases s.len(),
{
    if s.len() == 0 {
        0
    } else {
        dec_value(s.drop_last()) * 10 + dec_digit_val(s.last())
    }
}

/// A canonical decimal encoding: non-empty, all digits, and no leading
/// zero except for the one-character string `"0"` itself.
pub open spec fn is_canon_dec(s: Seq<char>) -> bool {
    is_dec_digits(s) && (s.len() == 1 || s[0] != '0')
}

/// The canonical decimal encoding of a natural number.
pub open spec fn dec_of(n: nat) -> Seq<char>
    decreases n,
{
    if n < 10 {
        seq![dec_digit_char(n)]
    } else {
        dec_of(n / 10).push(dec_digit_char(n % 10))
    }
}

/// `c` is a hexadecimal digit character, upper or lower case.
pub open spec fn is_hex_digit(c: char) -> bool {
    (48 <= c as int && c as int <= 57)  // '0' ..= '9'
    || (65 <= c as int && c as int <= 70)  // 'A' ..= 'F'
    || (97 <= c as int && c as int <= 102)  // 'a' ..= 'f'
}

/// The numeric value of a hexadecimal digit character.
pub open spec fn hex_digit_val(c: char) -> nat {
    if 48 <= c as int && c as int <= 57 {
        (c as int - 48) as nat
    } else if 65 <= c as int && c as int <= 70 {
        (c as int - 55) as nat
    } else {
        (c as int - 87) as nat
    }
}

/// A non-empty string of hexadecimal digit characters.
pub open spec fn is_hex_digits(s: Seq<char>) -> bool {
    s.len() > 0 && forall|i: int| 0 <= i < s.len() ==> is_hex_digit(#[trigger] s[i])
}

/// The natural number that a string of hexadecimal digits denotes,
/// most significant digit first.
pub open spec fn hex_value(s: Seq<char>) -> nat
    decreases s.len(),
{
    if s.len() == 0 {
        0
    } else {
        hex_value(s.drop_last()) * 16 + hex_digit_val(s.last())
    }
}

/// The natural number that a byte string denotes, big-endian.
pub open spec fn bytes_be_value(s: Seq<u8>) -> nat
    decreases s.len(),
{
    if s.len() == 0 {
        0
    } else {
        bytes_be_value(s.drop_last()) * 256 + s.last() as nat
    }
}

/// A canonical encoding of two or more digits is at least ten.
pub proof fn lemma_canon_ge_ten(s: Seq<char>)
    requires
        is_dec_digits(s),
        s.len() >= 2,
        s[0] != '0',
    ensures
        dec_value(s) >= 10,
    decreases s.len(),
{
    if s.len() == 2 {
        assert(dec_digit_val(s[0]) >= 1);
        assert(s.drop_last() =~= seq![s[0]]);
        assert(dec_value(seq![s[0]]) == dec_value(seq![s[0]].drop_last()) * 10 + dec_digit_val(
            s[0],
        ));
        assert(seq![s[0]].drop_last() =~= Seq::<char>::empty());
        assert(dec_value(s.drop_last()) == dec_digit_val(s[0]));
    } else {
        lemma_canon_ge_ten(s.drop_last());
    }
}

/// The canonical encoding of `n` has value `n` and is canonical.
pub proof fn lemma_dec_of_value(n: nat)
    ensures
        is_canon_dec(dec_of(n)),
        dec_value(dec_of(n)) == n,
    decreases n,
{
    if n < 10 {
        let s = dec_of(n);
        assert(s =~= seq![dec_digit_char(n)]);
        assert(s.drop_last() =~= Seq::<char>::empty());
        assert(dec_value(Seq::<char>::empty()) == 0);
        assert(dec_value(s) == dec_value(s.drop_last()) * 10 + dec_digit_val(s.last()));
        assert(dec_digit_val(dec_digit_char(n)) == n);
    } else {
        lemma_dec_of_value(n / 10);
        let p = dec_of(n / 10);
        let s = dec_of(n);
        assert(s == p.push(dec_digit_char(n % 10)));
        assert(s.drop_last() =~= p);
        assert(s.last() == dec_digit_char(n % 10));
        assert(dec_value(s) == (n / 10) * 10 + dec_digit_val(dec_digit_char(n % 10)));
        assert(dec_digit_val(dec_digit_char(n % 10)) == n % 10);
        assert((n / 10) * 10 + n % 10 == n) by {
            vstd::arithmetic::div_mod::lemma_fundamental_div_mod(n as int, 10);
        }
        assert(s[0] == p[0]);
        assert(n / 10 >= 1);
        assert(p[0] != '0') by {
            if p.len() == 1 {
                assert(dec_value(p) == dec_digit_val(p[0])) by {
                    assert(p.drop_last() =~= Seq::<char>::empty());
                    assert(dec_value(Seq::<char>::empty()) == 0);
                    assert(p.last() == p[0]);
                }
            }
        }
        assert(forall|i: int| 0 <= i < s.len() ==> is_dec_digit(#[trigger] s[i])) by {
            assert(forall|i: int| 0 <= i < p.len() ==> is_dec_digit(#[trigger] p[i]));
            assert(is_dec_digit(dec_digit_char(n % 10)));
        }
    }
}

/// A canonical encoding is the canonical encoding of its own value:
/// canonicalisation is the inverse of evaluation.
pub proof fn lemma_canon_dec_of(s: Seq<char>)
    requires
        is_canon_dec(s),
    ensures
        dec_of(dec_value(s)) == s,
    decreases s.len(),
{
    if s.len() == 1 {
        assert(s.drop_last() =~= Seq::<char>::empty());
        assert(dec_value(Seq::<char>::empty()) == 0);
        assert(s.last() == s[0]);
        assert(dec_value(s) == dec_digit_val(s[0]));
        assert(dec_of(dec_value(s)) =~= seq![dec_digit_char(dec_digit_val(s[0]))]);
        assert(dec_digit_char(dec_digit_val(s[0])) == s[0]);
        assert(dec_of(dec_value(s)) =~= s);
    } else {
        let p = s.drop_last();
        let v = dec_value(s);
        assert(is_dec_digits(p)) by {
            assert(forall|i: int| 0 <= i < p.len() ==> p[i] == s[i]);
        }
        assert(p[0] == s[0]);
        assert(is_canon_dec(p));
        lemma_canon_dec_of(p);
        lemma_canon_ge_ten(s);
        assert(v == dec_value(p) * 10 + dec_digit_val(s.last()));
        assert(v / 10 == dec_value(p) && v % 10 == dec_digit_val(s.last())) by {
            vstd::arithmetic::div_mod::lemma_fundamental_div_mod_converse(
                v as int,
                10,
                dec_value(p) as int,
                dec_digit_val(s.last()) as int,
            );
        }
        assert(dec_of(v) == dec_of(dec_value(p)).push(dec_digit_char(dec_digit_val(s.last()))));
        assert(dec_digit_char(dec_digit_val(s.last())) == s.last());
        assert(p.push(s.last()) =~= s);
    }
}

/// Canonical decimal encodings are unique: equal values mean equal
/// strings, so group elements can be compared by their encodings.
pub proof fn lemma_canon_unique(a: Seq<char>, b: Seq<char>)
    requires
        is_canon_dec(a),
        is_canon_dec(b),
        dec_value(a) == dec_value(b),
    ensures
        a == b,
{
    lemma_canon_dec_of(a);
    lemma_canon_dec_of(b);
}

/// A string of zero digits denotes zero.
pub proof fn lemma_all_zero_value(s: Seq<char>)
    requires
        forall|i: int| 0 <= i < s.len() ==> #[trigger] s[i] == '0',
    ensures
        dec_value(s) == 0,
    decreases s.len(),
{
    if s.len() > 0 {
        lemma_all_zero_value(s.drop_last());
        assert(s.last() == s[s.len() - 1]);
        assert(dec_digit_val('0') == 0);
    }
}

/// Dropping leading zeros does not change the value of a digit string.
pub proof fn lemma_skip_leading_zeros(s: Seq<char>, k: int)
    requires
        0 <= k <= s.len(),
        forall|i: int| 0 <= i < k ==> #[trigger] s[i] == '0',
    ensures
        dec_value(s.skip(k)) == dec_value(s),
    decreases s.len(),
{
    if s.len() == k {
        assert(s.skip(k) =~= Seq::<char>::empty());
        lemma_all_zero_value(s);
    } else {
        let p = s.drop_last();
        lemma_skip_leading_zeros(p, k);
        assert(s.skip(k).drop_last() =~= p.skip(k));
        assert(s.skip(k).last() == s.last());
        assert(s.skip(k).len() == s.len() - k >= 1);
    }
}

/// The value of a one-digit string is that digit's value.
pub proof fn lemma_single_digit_value(s: Seq<char>)
    requires
        s.len() == 1,
    ensures
        dec_value(s) == dec_digit_val(s[0]),
{
    assert(s.drop_last() =~= Seq::<char>::empty());
    assert(dec_value(Seq::<char>::empty()) == 0);
    assert(s.last() == s[0]);
}

/// True exactly when the two strings hold the same characters.
pub fn str_equal(a: &str, b: &str) -> (r: bool)
    ensures
        r == (a@ == b@),
{
    let na = a.unicode_len();
    let nb = b.unicode_len();
    if na != nb {
        return false;
    }
    let mut i: usize = 0;
    while i < na
        invariant
            na == a@.len(),
            nb == b@.len(),
            na == nb,
            i <= na,
            forall|j: int| 0 <= j < i ==> a@[j] == b@[j],
        decreases na - i,
    {
        if a.get_char(i) != b.get_char(i) {
            return false;
        }
        i = i + 1;
    }
    proof {
        assert(a@ =~= b@);
    }
    true
}

/// Checks that a string is all decimal digits and strips its leading
/// zeros: the canonical encoding of the same value, or `None` for a
/// string that is not a non-empty run of digits.
pub fn canonical_decimal(s: &str) -> (r: Option<String>)
    ensures
        r matches Some(c) ==> is_dec_digits(s@) && is_canon_dec(c@) && dec_value(c@) == dec_value(
            s@,
        ),
        r is None ==> !is_dec_digits(s@),
{
    let n = s.unicode_len();
    if n == 0 {
        return None;
    }
    let mut i: usize = 0;
    while i < n
        invariant
            n == s@.len(),
            i <= n,
            forall|j: int| 0 <= j < i ==> is_dec_digit(#[trigger] s@[j]),
        decreases n - i,
    {
        let c = s.get_char(i);
        if (c as u32) < 48 || (c as u32) > 57 {
            assert(!is_dec_digit(s@[i as int]));
            return None;
        }
        i = i + 1;
    }
    assert(is_dec_digits(s@));
    let mut k: usize = 0;
    while k < n - 1 && s.get_char(k) == '0'
        invariant
            n == s@.len(),
            1 <= n,
            k <= n - 1,
            forall|j: int| 0 <= j < k ==> #[trigger] s@[j] == '0',
        decreases n - k,
    {
        k = k + 1;
    }
    let t = s.substring_char(k, n);
    proof {
        lemma_skip_leading_zeros(s@, k as int);
        assert(s@.skip(k as int) =~= s@.subrange(k as int, n as int));
        if t@.len() >= 2 {
            assert(s@[k as int] != '0');
            assert(t@[0] == s@[k as int]);
        }
    }
    Some(t.to_owned())
}

/// True exactly when the string is a non-empty run of hexadecimal
/// digits.
pub fn hex_digits_ok(s: &str) -> (r: bool)
    ensures
        r == is_hex_digits(s@),
{
    let n = s.unicode_len();
    if n == 0 {
        return false;
    }
    let mut i: usize = 0;
    while i < n
        invariant
            n == s@.len(),
            i <= n,
            forall|j: int| 0 <= j < i ==> is_hex_digit(#[trigger] s@[j]),
        decreases n - i,
    {
        let u = s.get_char(i) as u32;
        if !((48 <= u && u <= 57) || (65 <= u && u <= 70) || (97 <= u && u <= 102)) {
            assert(!is_hex_digit(s@[i as int]));
            return false;
        }
        i = i + 1;
    }
    true
}

/// For a canonical encoding, compares its value against a one-digit
/// bound.
pub fn dec_at_least(s: &str, d: u8) -> (r: bool)
    requires
        is_canon_dec(s@),
        d <= 9,
    ensures
        r == (dec_value(s@) >= d),
{
    let n = s.unicode_len();
    if n >= 2 {
        proof {
            lemma_canon_ge_ten(s@);
        }
        true
    } else {
        let c = s.get_char(0);
        proof {
            lemma_single_digit_value(s@);
        }
        (c as u32) >= 48 + (d as u32)
    }
}

} // verus!
