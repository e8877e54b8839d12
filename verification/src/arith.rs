//! Modular exponentiation over naturals, and the algebra the Schnorr
//! equation rests on.
//!
//! `pow_mod` is the mathematical meaning of every exponentiation the
//! protocol performs.  The lemmas build up to
//! [`lemma_schnorr_completeness`]: in a group whose generator has order
//! dividing `q`, the response `(r + c*x) % q` always satisfies the
//! verification equation.

use vstd::arithmetic::div_mod::{
    lemma_fundamental_div_mod, lemma_mod_division_less_than_divisor, lemma_mod_twice,
    lemma_mul_mod_noop_general,
};
use vstd::arithmetic::power::{
    lemma0_pow, lemma1_pow, lemma_pow_adds, lemma_pow_mod_noop, lemma_pow_multiplies,
    lemma_pow_positive, pow,
};
use vstd::prelude::*;

verus! {

/// `b^e mod m`, the value of every exponentiation in the protocol.
pub open spec fn pow_mod(b: nat, e: nat, m: nat) -> nat
    recommends
        m > 0,
{
    (pow(b as int, e) % (m as int)) as nat
}

/// A power of a natural number is a natural number.
pub proof fn lemma_pow_nonneg(b: nat, e: nat)
    ensures
        pow(b as int, e) >= 0,
{
    if b == 0 {
        if e == 0 {
            assert(pow(0, 0) == 1) by {
                vstd::arithmetic::power::lemma_pow0(0);
            }
        } else {
            lemma0_pow(e);
        }
    } else {
        lemma_pow_positive(b as int, e);
    }
}

/// Splitting an exponent sum: `g^(a+b) mod m` is the modular product of
/// the two halves.
pub proof fn lemma_pow_mod_adds(g: nat, a: nat, b: nat, m: nat)
    requires
        m > 0,
    ensures
        pow_mod(g, a + b, m) == (pow_mod(g, a, m) * pow_mod(g, b, m)) % m,
{
    lemma_pow_adds(g as int, a, b);
    lemma_pow_nonneg(g, a);
    lemma_pow_nonneg(g, b);
    lemma_mul_mod_noop_general(pow(g as int, a), pow(g as int, b), m as int);
}

/// Nesting exponentiations: `(g^x mod m)^c mod m == g^(x*c) mod m`.
pub proof fn lemma_pow_mod_nested(g: nat, x: nat, c: nat, m: nat)
    requires
        m > 0,
    ensures
        pow_mod(pow_mod(g, x, m), c, m) == pow_mod(g, x * c, m),
{
    lemma_pow_nonneg(g, x);
    lemma_pow_mod_noop(pow(g as int, x), c, m as int);
    lemma_pow_multiplies(g as int, x, c);
}

/// A generator of order dividing `q` absorbs multiples of `q` in the
/// exponent: if `g^q mod m == 1` then `g^(s + q*k) mod m == g^s mod m`.
pub proof fn lemma_pow_mod_absorbs_order(g: nat, s: nat, k: nat, q: nat, m: nat)
    requires
        m > 1,
        pow_mod(g, q, m) == 1,
    ensures
        pow_mod(g, s + q * k, m) == pow_mod(g, s, m),
{
    lemma_pow_mod_nested(g, q, k, m);
    assert(pow_mod(pow_mod(g, q, m), k, m) == pow_mod(1, k, m));
    assert(pow(1int, k) == 1) by {
        lemma1_pow(k);
    }
    assert(1int % (m as int) == 1) by {
        vstd::arithmetic::div_mod::lemma_small_mod(1, m);
    }
    assert(pow_mod(1, k, m) == 1);
    assert(pow_mod(g, q * k, m) == 1);
    lemma_pow_mod_adds(g, s, q * k, m);
    assert(pow_mod(g, s + q * k, m) == (pow_mod(g, s, m) * 1) % m);
    lemma_pow_nonneg(g, s);
    lemma_mod_twice(pow(g as int, s), m as int);
}

/// Completeness of the Schnorr equation.  With a private key `x`, nonce
/// `r` and challenge `c`, the response `s = (r + c*x) % q` satisfies
/// `g^s == R * Y^c (mod p)` for the commitment `R = g^r mod p` and the
/// public key `Y = g^x mod p`, provided the generator's order divides
/// `q` (that is, `g^q mod p == 1`).
pub proof fn lemma_schnorr_completeness(g: nat, x: nat, r: nat, c: nat, p: nat, q: nat)
    requires
        p > 1,
        q > 0,
        pow_mod(g, q, p) == 1,
    ensures
        pow_mod(g, (r + c * x) % q, p) == (pow_mod(g, r, p) * pow_mod(pow_mod(g, x, p), c, p))
            % p,
{
    let e = r + c * x;
    let s = e % q;
    let k = e / q;
    lemma_fundamental_div_mod(e as int, q as int);
    assert(e == q * k + s);
    lemma_mod_division_less_than_divisor(e as int, q as int);
    assert(s + q * k == e);
    lemma_pow_mod_absorbs_order(g, s as nat, k as nat, q, p);
    assert(pow_mod(g, e, p) == pow_mod(g, s as nat, p));
    lemma_pow_mod_adds(g, r, c * x, p);
    assert(pow_mod(g, e, p) == (pow_mod(g, r, p) * pow_mod(g, c * x, p)) % p);
    lemma_pow_mod_nested(g, x, c, p);
    assert(x * c == c * x) by (nonlinear_arith);
    assert(pow_mod(pow_mod(g, x, p), c, p) == pow_mod(g, c * x, p));
}

} // verus!
