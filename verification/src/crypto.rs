//! Group parameters and arbitrary-precision modular arithmetic.
//!
//! The group is described by a prime modulus `P`, a generator `G` and
//! the subgroup order `Q = (P - 1) / 2`, all carried as canonical
//! decimal strings.  The big-integer operations themselves are
//! performed by the `num_bigint` crate behind trusted wrappers whose
//! contracts state the result's value in terms of [`dec_value`]; every
//! proof in this crate rests on those contracts.

use crate::arith::pow_mod;
use crate::digits::{
    dec_at_least, dec_value, hex_digits_ok, hex_value, is_canon_dec, is_dec_digits, is_hex_digits,
    lemma_single_digit_value, str_equal,
};
use vstd::prelude::*;
use vstd::string::StringSliceAdditionalSpecFns;

verus! {

/// The fixed 2048-bit MODP prime, in hexadecimal.
pub const PRIME_HEX: &'static str = "FFFFFFFFFFFFFFFFC90FDAA22168C234C4C6628B80DC1CD129024E088A67CC74020BBEA63B139B22514A08798E3404DDEF9519B3CD3A431B302B0A6DF25F14374FE1356D6D51C245E485B576625E7EC6F44C42E9A637ED6B0BFF5CB6F406B7EDEE386BFB5A899FA5AE9F24117C4B1FE649286651ECE45B3DC2007CB8A163BF0598DA48361C55D39A69163FA8FD24CF5F83655D23DCA3AD961C62F356208552BB9ED529077096966D670C354E4ABC9804F1746C08CA18217C32905E462E36CE3BE39E772C180E86039B2783A2EC07A28FB5C55DF06F4C52C9DE2BCBF6955817183995497CEA956AE515D2261898FA051015728E5A8AACAA68FFFFFFFFFFFFFFFF";

/// The fixed generator, in hexadecimal.
pub const GENERATOR_HEX: &'static str = "02";

/// The cyclic-group description every proof is made and checked
/// against: prime modulus `p`, generator `g`, subgroup order `q`, each
/// a canonical decimal string.
pub struct GroupParams {
    pub p: String,
    pub g: String,
    pub q: String,
}

impl GroupParams {
    /// The modulus as a natural number.
    pub open spec fn p_val(&self) -> nat {
        dec_value(self.p@)
    }

    /// The generator as a natural number.
    pub open spec fn g_val(&self) -> nat {
        dec_value(self.g@)
    }

    /// The subgroup order as a natural number.
    pub open spec fn q_val(&self) -> nat {
        dec_value(self.q@)
    }

    /// Well-formed parameters: canonical encodings, a modulus of at
    /// least seven, `q == (p - 1) / 2`, and a generator whose order
    /// divides `q` — the fact the constructors check by computing
    /// `g^q mod p` and that completeness of verification rests on.
    pub open spec fn wf(&self) -> bool {
        &&& is_canon_dec(self.p@)
        &&& is_canon_dec(self.g@)
        &&& is_canon_dec(self.q@)
        &&& self.p_val() >= 2
        &&& self.g_val() >= 1
        &&& self.q_val() >= 3
        &&& self.q_val() == (self.p_val() - 1) / 2
        &&& pow_mod(self.g_val(), self.q_val(), self.p_val()) == 1
    }
}

/// What the fixed hexadecimal literals must satisfy for [`GroupParams::standard`]
/// to accept them: they parse, the generator is non-trivial, the
/// subgroup is large enough, and the generator's order divides `q`.
pub open spec fn standard_params_ok() -> bool {
    &&& is_hex_digits(PRIME_HEX@)
    &&& is_hex_digits(GENERATOR_HEX@)
    &&& hex_value(GENERATOR_HEX@) >= 1
    &&& hex_value(PRIME_HEX@) >= 2
    &&& (hex_value(PRIME_HEX@) - 1) / 2 >= 3
    &&& pow_mod(
        hex_value(GENERATOR_HEX@),
        ((hex_value(PRIME_HEX@) - 1) / 2) as nat,
        hex_value(PRIME_HEX@),
    ) == 1
}

/// What three decimal strings must satisfy to describe a usable group:
/// the same conditions [`GroupParams::wf`] asks of the values.
pub open spec fn decimal_params_ok(p: Seq<char>, g: Seq<char>, q: Seq<char>) -> bool {
    &&& is_dec_digits(p)
    &&& is_dec_digits(g)
    &&& is_dec_digits(q)
    &&& dec_value(p) >= 2
    &&& dec_value(g) >= 1
    &&& dec_value(q) >= 3
    &&& dec_value(q) == (dec_value(p) - 1) / 2
    &&& pow_mod(dec_value(g), dec_value(q), dec_value(p)) == 1
}

/// Relies on `num_bigint::BigUint`: `parse_bytes(_, 10)` reads a string
/// of decimal digits, `&a * &b` multiplies, and `to_str_radix(10)`
/// writes the value back without leading zeros.
#[verifier::external_body]
pub(crate) fn mul_dec(a: &str, b: &str) -> (r: String)
    requires
        is_dec_digits(a@),
        is_dec_digits(b@),
    ensures
        is_canon_dec(r@),
        dec_value(r@) == dec_value(a@) * dec_value(b@),
{
    let x = num_bigint::BigUint::parse_bytes(a.as_bytes(), 10).unwrap();
    let y = num_bigint::BigUint::parse_bytes(b.as_bytes(), 10).unwrap();
    (&x * &y).to_str_radix(10)
}

/// Relies on `num_bigint::BigUint`: `&a + &b` adds.
#[verifier::external_body]
pub(crate) fn add_dec(a: &str, b: &str) -> (r: String)
    requires
        is_dec_digits(a@),
        is_dec_digits(b@),
    ensures
        is_canon_dec(r@),
        dec_value(r@) == dec_value(a@) + dec_value(b@),
{
    let x = num_bigint::BigUint::parse_bytes(a.as_bytes(), 10).unwrap();
    let y = num_bigint::BigUint::parse_bytes(b.as_bytes(), 10).unwrap();
    (&x + &y).to_str_radix(10)
}

/// Relies on `num_bigint::BigUint`: `&a - &b` subtracts, and panics on
/// underflow, which the precondition rules out.
#[verifier::external_body]
pub(crate) fn sub_dec(a: &str, b: &str) -> (r: String)
    requires
        is_dec_digits(a@),
        is_dec_digits(b@),
        dec_value(a@) >= dec_value(b@),
    ensures
        is_canon_dec(r@),
        dec_value(r@) == dec_value(a@) - dec_value(b@),
{
    let x = num_bigint::BigUint::parse_bytes(a.as_bytes(), 10).unwrap();
    let y = num_bigint::BigUint::parse_bytes(b.as_bytes(), 10).unwrap();
    (&x - &y).to_str_radix(10)
}

/// Relies on `num_bigint::BigUint`: `&a / &b` is floor division, and
/// panics on a zero divisor, which the precondition rules out.
#[verifier::external_body]
pub(crate) fn div_dec(a: &str, b: &str) -> (r: String)
    requires
        is_dec_digits(a@),
        is_dec_digits(b@),
        dec_value(b@) > 0,
    ensures
        is_canon_dec(r@),
        dec_value(r@) == dec_value(a@) / dec_value(b@),
{
    let x = num_bigint::BigUint::parse_bytes(a.as_bytes(), 10).unwrap();
    let y = num_bigint::BigUint::parse_bytes(b.as_bytes(), 10).unwrap();
    (&x / &y).to_str_radix(10)
}

/// Relies on `num_bigint::BigUint`: `&a % &m` is the Euclidean
/// remainder, and panics on a zero modulus, which the precondition
/// rules out.
#[verifier::external_body]
pub(crate) fn rem_dec(a: &str, m: &str) -> (r: String)
    requires
        is_dec_digits(a@),
        is_dec_digits(m@),
        dec_value(m@) > 0,
    ensures
        is_canon_dec(r@),
        dec_value(r@) == dec_value(a@) % dec_value(m@),
{
    let x = num_bigint::BigUint::parse_bytes(a.as_bytes(), 10).unwrap();
    let y = num_bigint::BigUint::parse_bytes(m.as_bytes(), 10).unwrap();
    (&x % &y).to_str_radix(10)
}

/// Fast modular exponentiation: `base ^ exp mod mod_val` over decimal
/// strings.
///
/// Relies on `num_bigint::BigUint::modpow`, which returns
/// `self ^ exponent % modulus` and panics on a zero modulus, which the
/// precondition rules out.
#[verifier::external_body]
pub fn power_mod(base: &str, exp: &str, mod_val: &str) -> (r: String)
    requires
        is_dec_digits(base@),
        is_dec_digits(exp@),
        is_dec_digits(mod_val@),
        dec_value(mod_val@) > 0,
    ensures
        is_canon_dec(r@),
        dec_value(r@) == pow_mod(dec_value(base@), dec_value(exp@), dec_value(mod_val@)),
{
    let b = num_bigint::BigUint::parse_bytes(base.as_bytes(), 10).unwrap();
    let e = num_bigint::BigUint::parse_bytes(exp.as_bytes(), 10).unwrap();
    let m = num_bigint::BigUint::parse_bytes(mod_val.as_bytes(), 10).unwrap();
    b.modpow(&e, &m).to_str_radix(10)
}

/// Relies on `num_bigint::BigUint::parse_bytes` with radix 16, which
/// reads a string of hexadecimal digits in either case.
#[verifier::external_body]
pub(crate) fn hex_to_dec(h: &str) -> (r: String)
    requires
        is_hex_digits(h@),
    ensures
        is_canon_dec(r@),
        dec_value(r@) == hex_value(h@),
{
    num_bigint::BigUint::parse_bytes(h.as_bytes(), 16).unwrap().to_str_radix(10)
}

/// Relies on `num_bigint::BigUint::from_bytes_be`, which reads bytes as
/// one big-endian number.
#[verifier::external_body]
pub(crate) fn bytes_be_to_dec(b: &[u8]) -> (r: String)
    ensures
        is_canon_dec(r@),
        dec_value(r@) == crate::digits::bytes_be_value(b@),
{
    num_bigint::BigUint::from_bytes_be(b).to_str_radix(10)
}

/// Relies on `num_bigint::RandBigInt::gen_biguint_range` over
/// `rand::thread_rng`, a cryptographically secure source: the result
/// lies in `[low, high)`, and the call panics on an empty range, which
/// the precondition rules out.  Nothing more is promised: the draw is
/// random and two calls may disagree.
#[verifier::external_body]
pub(crate) fn random_range_dec(low: &str, high: &str) -> (r: String)
    requires
        is_dec_digits(low@),
        is_dec_digits(high@),
        dec_value(low@) < dec_value(high@),
    ensures
        is_canon_dec(r@),
        dec_value(low@) <= dec_value(r@) < dec_value(high@),
{
    let lo = num_bigint::BigUint::parse_bytes(low.as_bytes(), 10).unwrap();
    let hi = num_bigint::BigUint::parse_bytes(high.as_bytes(), 10).unwrap();
    let mut rng = rand::thread_rng();
    num_bigint::RandBigInt::gen_biguint_range(&mut rng, &lo, &hi).to_str_radix(10)
}

/// A uniformly random scalar in `[1, q - 2]`, fit to serve as a private
/// key or a nonce: never zero, and never the degenerate `q - 1`.
pub fn get_random_secret(params: &GroupParams) -> (r: String)
    requires
        params.wf(),
    ensures
        is_canon_dec(r@),
        1 <= dec_value(r@) < params.q_val() - 1,
{
    proof {
        reveal_strlit("1");
        lemma_single_digit_value("1"@);
    }
    let limit = sub_dec(params.q.as_str(), "1");
    random_range_dec("1", limit.as_str())
}

/// The big-endian value of a string's bytes, as a decimal string.
pub fn str_to_int(s: &str) -> (r: String)
    ensures
        is_canon_dec(r@),
        dec_value(r@) == crate::digits::bytes_be_value(s.spec_bytes()),
{
    bytes_be_to_dec(s.as_bytes())
}

impl GroupParams {
    /// A second copy of the parameters, character for character; the
    /// usual way to hand one copy to a prover and keep one for the
    /// verifier.
    pub fn duplicate(&self) -> (r: GroupParams)
        ensures
            r.p@ == self.p@,
            r.g@ == self.g@,
            r.q@ == self.q@,
            r.wf() == self.wf(),
    {
        GroupParams { p: self.p.clone(), g: self.g.clone(), q: self.q.clone() }
    }

    /// The process-wide parameters, read from the fixed hexadecimal
    /// literals and checked: `None` exactly when the literals do not
    /// describe a usable group, a fatal configuration error.
    pub fn standard() -> (r: Option<GroupParams>)
        ensures
            r is Some <==> standard_params_ok(),
            r matches Some(ps) ==> {
                &&& ps.wf()
                &&& ps.p_val() == hex_value(PRIME_HEX@)
                &&& ps.g_val() == hex_value(GENERATOR_HEX@)
                &&& ps.q_val() == (hex_value(PRIME_HEX@) - 1) / 2
            },
    {
        proof {
            reveal_strlit("1");
            reveal_strlit("2");
            lemma_single_digit_value("1"@);
            lemma_single_digit_value("2"@);
        }
        if !hex_digits_ok(PRIME_HEX) {
            return None;
        }
        if !hex_digits_ok(GENERATOR_HEX) {
            return None;
        }
        let p = hex_to_dec(PRIME_HEX);
        let g = hex_to_dec(GENERATOR_HEX);
        if !dec_at_least(g.as_str(), 1) {
            return None;
        }
        if !dec_at_least(p.as_str(), 2) {
            return None;
        }
        let p_minus_1 = sub_dec(p.as_str(), "1");
        let q = div_dec(p_minus_1.as_str(), "2");
        if !dec_at_least(q.as_str(), 3) {
            return None;
        }
        let g_to_q = power_mod(g.as_str(), q.as_str(), p.as_str());
        if !str_equal(g_to_q.as_str(), "1") {
            proof {
                if pow_mod(hex_value(GENERATOR_HEX@), dec_value(q@), hex_value(PRIME_HEX@)) == 1 {
                    crate::digits::lemma_canon_unique(g_to_q@, "1"@);
                }
            }
            return None;
        }
        Some(GroupParams { p, g, q })
    }

    /// Parameters from caller-supplied decimal strings — a small test
    /// modulus, say — checked the same way as the fixed ones: `None`
    /// exactly when the strings do not describe a usable group.
    pub fn from_decimal(p: &str, g: &str, q: &str) -> (r: Option<GroupParams>)
        ensures
            r is Some <==> decimal_params_ok(p@, g@, q@),
            r matches Some(ps) ==> {
                &&& ps.wf()
                &&& ps.p_val() == dec_value(p@)
                &&& ps.g_val() == dec_value(g@)
                &&& ps.q_val() == dec_value(q@)
            },
    {
        proof {
            reveal_strlit("1");
            reveal_strlit("2");
            lemma_single_digit_value("1"@);
            lemma_single_digit_value("2"@);
        }
        let pc = match crate::digits::canonical_decimal(p) {
            Some(v) => v,
            None => {
                return None;
            },
        };
        let gc = match crate::digits::canonical_decimal(g) {
            Some(v) => v,
            None => {
                return None;
            },
        };
        let qc = match crate::digits::canonical_decimal(q) {
            Some(v) => v,
            None => {
                return None;
            },
        };
        if !dec_at_least(pc.as_str(), 2) {
            return None;
        }
        if !dec_at_least(gc.as_str(), 1) {
            return None;
        }
        if !dec_at_least(qc.as_str(), 3) {
            return None;
        }
        let p_minus_1 = sub_dec(pc.as_str(), "1");
        let q_check = div_dec(p_minus_1.as_str(), "2");
        if !str_equal(q_check.as_str(), qc.as_str()) {
            proof {
                if dec_value(q@) == (dec_value(p@) - 1) / 2 {
                    crate::digits::lemma_canon_unique(q_check@, qc@);
                }
            }
            return None;
        }
        let g_to_q = power_mod(gc.as_str(), qc.as_str(), pc.as_str());
        if !str_equal(g_to_q.as_str(), "1") {
            proof {
                if pow_mod(dec_value(g@), dec_value(q@), dec_value(p@)) == 1 {
                    crate::digits::lemma_canon_unique(g_to_q@, "1"@);
                }
            }
            return None;
        }
        Some(GroupParams { p: pc, g: gc, q: qc })
    }
}

} // verus!
