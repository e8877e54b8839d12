//! The non-interactive Schnorr identification protocol.
//!
//! A prover who knows a private scalar `x` publishes `Y = g^x mod p`,
//! commits to a fresh nonce `r` with `R = g^r mod p`, derives the
//! Fiat–Shamir challenge `c` by hashing the transcript together with a
//! truncated location claim, and answers with `s = (r + c*x) mod q`.
//! The verifier recomputes `c` from the record it received and accepts
//! exactly when `g^s == R * Y^c (mod p)`.  All values travel as decimal
//! strings; acceptance is decided by comparing canonical encodings,
//! which [`crate::digits::lemma_canon_unique`] shows is the same as
//! comparing values.

use crate::arith::{lemma_schnorr_completeness, pow_mod};
use crate::crypto::{
    add_dec, bytes_be_to_dec, get_random_secret, mul_dec, power_mod, rem_dec, GroupParams,
};
use crate::digits::{
    bytes_be_value, canonical_decimal, dec_of, dec_value, is_canon_dec, is_dec_digits,
    lemma_canon_dec_of, lemma_canon_unique, str_equal,
};
use vstd::prelude::*;
use vstd::string::{StrSliceExecFns, StringExecFns, StringSliceAdditionalSpecFns};
use vstd::utf8::encode_utf8;

verus! {

/// The wire-level proof record: the claimant's public key, the
/// commitment and the response as decimal strings, and the full,
/// untruncated location claim the proof is bound to.
pub struct Proof {
    pub public_key: String,
    pub commitment: String,
    pub response: String,
    pub geohash: String,
}

/// The SHA-256 digest of a byte string: 32 bytes, a function of the
/// input alone.  What those bytes are is stated nowhere in this crate;
/// every contract that needs the digest speaks of it by this name.
pub uninterp spec fn sha256_of(input: Seq<u8>) -> Seq<u8>;

/// Relies on `sha2::Sha256`: the digest of the input bytes, 32 bytes
/// long and depending on the input alone.
#[verifier::external_body]
fn sha256_digest(data: &[u8]) -> (r: Vec<u8>)
    ensures
        r@ == sha256_of(data@),
        r@.len() == 32,
{
    let mut h = <sha2::Sha256 as sha2::Digest>::new();
    sha2::Digest::update(&mut h, data);
    sha2::Digest::finalize(h).to_vec()
}

/// The part of the location claim that is bound into the challenge:
/// the first six characters, or the whole claim when it is shorter.
pub open spec fn geohash_prefix(loc: Seq<char>) -> Seq<char> {
    if loc.len() >= 6 {
        loc.subrange(0, 6)
    } else {
        loc
    }
}

/// The Fiat–Shamir challenge for a commitment `R`, a public key `Y`
/// and a location claim: the canonical decimal encodings of `R` and
/// `Y` and the truncated claim are concatenated in that order with no
/// separators, hashed with SHA-256, and the digest is read big-endian
/// and reduced modulo `q`.
pub open spec fn challenge_val(r_comm: nat, y: nat, loc: Seq<char>, q: nat) -> nat {
    bytes_be_value(sha256_of(encode_utf8(dec_of(r_comm) + dec_of(y) + geohash_prefix(loc)))) % q
}

/// The three numeric fields of a record are non-empty decimal digit
/// strings; any other content makes verification fail, never panic.
pub open spec fn proof_fields_parse(pf: Proof) -> bool {
    &&& is_dec_digits(pf.public_key@)
    &&& is_dec_digits(pf.commitment@)
    &&& is_dec_digits(pf.response@)
}

/// The Schnorr verification equation `g^s == R * Y^c (mod p)`, with
/// the challenge `c` recomputed from `R`, `Y` and the location claim.
pub open spec fn schnorr_equation_holds(
    params: GroupParams,
    y: nat,
    r_comm: nat,
    s: nat,
    loc: Seq<char>,
) -> bool {
    let c = challenge_val(r_comm, y, loc, params.q_val());
    pow_mod(params.g_val(), s, params.p_val()) == (r_comm * pow_mod(y, c, params.p_val()))
        % params.p_val()
}

/// A record is valid exactly when its numeric fields parse and the
/// verification equation holds of their values.
pub open spec fn proof_valid(params: GroupParams, pf: Proof) -> bool {
    &&& proof_fields_parse(pf)
    &&& schnorr_equation_holds(
        params,
        dec_value(pf.public_key@),
        dec_value(pf.commitment@),
        dec_value(pf.response@),
        pf.geohash@,
    )
}

/// Derives the Fiat–Shamir challenge from a commitment, a public key
/// and a location claim, all under the given group: the executable
/// counterpart of [`challenge_val`], deterministic by contract.
pub fn derive_challenge(
    commitment: &str,
    public_key: &str,
    location: &str,
    params: &GroupParams,
) -> (r: String)
    requires
        params.wf(),
        is_canon_dec(commitment@),
        is_canon_dec(public_key@),
    ensures
        is_canon_dec(r@),
        dec_value(r@) == challenge_val(
            dec_value(commitment@),
            dec_value(public_key@),
            location@,
            params.q_val(),
        ),
        dec_value(r@) < params.q_val(),
{
    let n = location.unicode_len();
    let prefix: &str = if n >= 6 {
        location.substring_char(0, 6)
    } else {
        location
    };
    assert(prefix@ == geohash_prefix(location@));
    let mut input = commitment.to_owned();
    input.append(public_key);
    input.append(prefix);
    let digest = sha256_digest(input.as_str().as_bytes());
    let c_big = bytes_be_to_dec(digest.as_slice());
    let c = rem_dec(c_big.as_str(), params.q.as_str());
    proof {
        lemma_canon_dec_of(commitment@);
        lemma_canon_dec_of(public_key@);
        assert(input@ == dec_of(dec_value(commitment@)) + dec_of(dec_value(public_key@))
            + geohash_prefix(location@));
    }
    c
}

/// The response scalar `(nonce + challenge * private_key) mod q`,
/// computed with unbounded precision before the reduction.
pub fn response_scalar(
    nonce: &str,
    challenge: &str,
    private_key: &str,
    params: &GroupParams,
) -> (r: String)
    requires
        params.wf(),
        is_dec_digits(nonce@),
        is_dec_digits(challenge@),
        is_dec_digits(private_key@),
    ensures
        is_canon_dec(r@),
        dec_value(r@) == (dec_value(nonce@) + dec_value(challenge@) * dec_value(private_key@))
            % params.q_val(),
{
    let cx = mul_dec(challenge, private_key);
    let sum = add_dec(nonce, cx.as_str());
    rem_dec(sum.as_str(), params.q.as_str())
}

/// Checks proof records against a group; it holds no state of its own.
pub struct SchnorrVerifier;

impl SchnorrVerifier {
    /// Verifies a proof record: parses the three numeric fields,
    /// recomputes the challenge from the commitment, the public key
    /// and the record's own location claim, and accepts exactly when
    /// `g^s == R * Y^c (mod p)`.  Malformed fields and a failing
    /// equation are the same `false`; nothing panics.
    pub fn verify_proof(params: &GroupParams, pf: &Proof) -> (r: bool)
        requires
            params.wf(),
        ensures
            r == proof_valid(*params, *pf),
    {
        let y = match canonical_decimal(pf.public_key.as_str()) {
            Some(v) => v,
            None => {
                return false;
            },
        };
        let r_comm = match canonical_decimal(pf.commitment.as_str()) {
            Some(v) => v,
            None => {
                return false;
            },
        };
        let s = match canonical_decimal(pf.response.as_str()) {
            Some(v) => v,
            None => {
                return false;
            },
        };
        let c = derive_challenge(r_comm.as_str(), y.as_str(), pf.geohash.as_str(), params);
        let lhs = power_mod(params.g.as_str(), s.as_str(), params.p.as_str());
        let y_to_c = power_mod(y.as_str(), c.as_str(), params.p.as_str());
        let prod = mul_dec(r_comm.as_str(), y_to_c.as_str());
        let rhs = rem_dec(prod.as_str(), params.p.as_str());
        let ok = str_equal(lhs.as_str(), rhs.as_str());
        proof {
            if !ok && schnorr_equation_holds(
                *params,
                dec_value(pf.public_key@),
                dec_value(pf.commitment@),
                dec_value(pf.response@),
                pf.geohash@,
            ) {
                lemma_canon_unique(lhs@, rhs@);
            }
        }
        ok
    }
}

/// Holds a private scalar and its cached public key, and issues proof
/// records bound to location claims.
pub struct SchnorrProver {
    params: GroupParams,
    private_key: String,
    public_key: String,
}

impl SchnorrProver {
    /// The group the prover was built against.
    pub closed spec fn group(&self) -> GroupParams {
        self.params
    }

    /// The private scalar.
    pub closed spec fn x_val(&self) -> nat {
        dec_value(self.private_key@)
    }

    /// The cached public key `g^x mod p`.
    pub closed spec fn y_val(&self) -> nat {
        dec_value(self.public_key@)
    }

    /// A well-formed prover: its group is well-formed and the cached
    /// public key is the generator raised to the private scalar.
    pub closed spec fn wf(&self) -> bool {
        &&& self.params.wf()
        &&& is_canon_dec(self.private_key@)
        &&& is_canon_dec(self.public_key@)
        &&& dec_value(self.public_key@) == pow_mod(
            self.params.g_val(),
            dec_value(self.private_key@),
            self.params.p_val(),
        )
    }

    /// Builds a prover from a private scalar, deriving and caching the
    /// public key `g^x mod p`.
    pub fn new(params: GroupParams, private_key: String) -> (r: SchnorrProver)
        requires
            params.wf(),
            is_canon_dec(private_key@),
        ensures
            r.wf(),
            r.group() == params,
            r.x_val() == dec_value(private_key@),
            r.y_val() == pow_mod(params.g_val(), dec_value(private_key@), params.p_val()),
    {
        let public_key = power_mod(params.g.as_str(), private_key.as_str(), params.p.as_str());
        SchnorrProver { params, private_key, public_key }
    }

    /// The cached public key, as a canonical decimal string.
    pub fn public_key(&self) -> (r: String)
        requires
            self.wf(),
        ensures
            is_canon_dec(r@),
            dec_value(r@) == self.y_val(),
    {
        self.public_key.clone()
    }

    /// Generates a proof record bound to the location claim: a fresh
    /// nonce `r`, the commitment `R = g^r mod p`, the challenge over
    /// `(R, Y, truncated claim)` and the response `(r + c*x) mod q`.
    /// The record always verifies — completeness — and carries the
    /// full, untruncated claim.
    pub fn generate_proof(&self, geohash: String) -> (r: Proof)
        requires
            self.wf(),
        ensures
            proof_valid(self.group(), r),
            r.geohash@ == geohash@,
            is_canon_dec(r.public_key@),
            dec_value(r.public_key@) == self.y_val(),
            exists|nonce: nat|
                {
                    &&& 1 <= nonce < self.group().q_val() - 1
                    &&& dec_value(r.commitment@) == pow_mod(
                        self.group().g_val(),
                        nonce,
                        self.group().p_val(),
                    )
                    &&& dec_value(r.response@) == (nonce + challenge_val(
                        dec_value(r.commitment@),
                        self.y_val(),
                        geohash@,
                        self.group().q_val(),
                    ) * self.x_val()) % self.group().q_val()
                },
    {
        let nonce = get_random_secret(&self.params);
        let commitment = power_mod(self.params.g.as_str(), nonce.as_str(), self.params.p.as_str());
        let c = derive_challenge(
            commitment.as_str(),
            self.public_key.as_str(),
            geohash.as_str(),
            &self.params,
        );
        let s = response_scalar(
            nonce.as_str(),
            c.as_str(),
            self.private_key.as_str(),
            &self.params,
        );
        proof {
            lemma_schnorr_completeness(
                self.params.g_val(),
                dec_value(self.private_key@),
                dec_value(nonce@),
                dec_value(c@),
                self.params.p_val(),
                self.params.q_val(),
            );
        }
        let result = Proof {
            public_key: self.public_key.clone(),
            commitment,
            response: s,
            geohash,
        };
        proof {
            assert(1 <= dec_value(nonce@) < self.group().q_val() - 1);
        }
        result
    }
}

/// Completeness of the whole protocol: for any private scalar, any
/// admissible nonce and any location claim, the record built by the
/// prover's procedure satisfies the verifier's equation.
pub proof fn lemma_generated_proof_verifies(
    params: GroupParams,
    x: nat,
    nonce: nat,
    loc: Seq<char>,
)
    requires
        params.wf(),
    ensures
        ({
            let y = pow_mod(params.g_val(), x, params.p_val());
            let r_comm = pow_mod(params.g_val(), nonce, params.p_val());
            let c = challenge_val(r_comm, y, loc, params.q_val());
            let s = (nonce + c * x) % params.q_val();
            schnorr_equation_holds(params, y, r_comm, s, loc)
        }),
{
    let y = pow_mod(params.g_val(), x, params.p_val());
    let r_comm = pow_mod(params.g_val(), nonce, params.p_val());
    let c = challenge_val(r_comm, y, loc, params.q_val());
    lemma_schnorr_completeness(params.g_val(), x, nonce, c, params.p_val(), params.q_val());
}

/// The truncation rule, shared by prover and verifier: the challenge
/// binds a location claim only through its first six characters — a
/// claim shorter than six characters is used whole — so two claims
/// with the same prefix yield the same challenge.
pub proof fn lemma_challenge_binds_prefix_only(
    r_comm: nat,
    y: nat,
    loc1: Seq<char>,
    loc2: Seq<char>,
    q: nat,
)
    requires
        geohash_prefix(loc1) == geohash_prefix(loc2),
    ensures
        challenge_val(r_comm, y, loc1, q) == challenge_val(r_comm, y, loc2, q),
{
}

/// Determinism of the challenge: it is a function of the commitment,
/// the public key, the location claim and the order, so any two
/// canonical encodings of it — two calls of [`derive_challenge`] on
/// identical inputs, say — are the same string.
pub proof fn lemma_challenge_deterministic(
    c1: Seq<char>,
    c2: Seq<char>,
    r_comm: nat,
    y: nat,
    loc: Seq<char>,
    q: nat,
)
    requires
        is_canon_dec(c1),
        is_canon_dec(c2),
        dec_value(c1) == challenge_val(r_comm, y, loc, q),
        dec_value(c2) == challenge_val(r_comm, y, loc, q),
    ensures
        c1 == c2,
{
    lemma_canon_unique(c1, c2);
}

} // verus!
