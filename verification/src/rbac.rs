//! Role tables and the public-key-to-role lookup.
//!
//! Each role name maps to one fixed private scalar; a verified public
//! key is mapped back to a role by recomputing `g^secret mod p` for
//! each entry and comparing decimal encodings.

use crate::arith::pow_mod;
use crate::crypto::{power_mod, GroupParams};
use crate::digits::{
    canonical_decimal, dec_of, dec_value, is_canon_dec, is_dec_digits, lemma_canon_dec_of,
    str_equal,
};
use vstd::prelude::*;

verus! {

/// The private scalar registered for a role name, if the name is
/// known.
pub open spec fn spec_role_secret(name: Seq<char>) -> Option<Seq<char>> {
    if name == "ADMIN"@ {
        Option::Some("123456789012345678901234567890"@)
    } else if name == "FACULTY"@ {
        Option::Some("98765432109876543210987654321"@)
    } else if name == "STUDENT"@ {
        Option::Some("112233445566778899001122334455"@)
    } else {
        Option::None
    }
}

/// The permission labels granted to a role name, if the name is known.
pub open spec fn spec_role_permissions(name: Seq<char>) -> Option<Seq<Seq<char>>> {
    if name == "ADMIN"@ {
        Option::Some(seq!["read"@, "write"@, "delete"@])
    } else if name == "FACULTY"@ {
        Option::Some(seq!["read"@, "write"@])
    } else if name == "STUDENT"@ {
        Option::Some(seq!["read"@])
    } else {
        Option::None
    }
}

/// The role table: the fixed private scalar of a role name, as a
/// canonical decimal string, or `None` for an unknown name.
pub fn get_role_secret(role_name: &str) -> (r: Option<String>)
    ensures
        match r {
            Option::Some(s) => spec_role_secret(role_name@) == Option::Some(s@) && is_canon_dec(
                s@,
            ),
            Option::None => spec_role_secret(role_name@) is None,
        },
{
    if str_equal(role_name, "ADMIN") {
        let s: String = "123456789012345678901234567890".to_owned();
        proof {
            reveal_strlit("123456789012345678901234567890");
        }
        assert(is_canon_dec(s@));
        Some(s)
    } else if str_equal(role_name, "FACULTY") {
        let s: String = "98765432109876543210987654321".to_owned();
        proof {
            reveal_strlit("98765432109876543210987654321");
        }
        assert(is_canon_dec(s@));
        Some(s)
    } else if str_equal(role_name, "STUDENT") {
        let s: String = "112233445566778899001122334455".to_owned();
        proof {
            reveal_strlit("112233445566778899001122334455");
        }
        assert(is_canon_dec(s@));
        Some(s)
    } else {
        None
    }
}

/// The permission table: what a role name may do, or `None` for an
/// unknown name.
pub fn get_role_permissions(role_name: &str) -> (r: Option<Vec<&'static str>>)
    ensures
        match r {
            Option::Some(v) => spec_role_permissions(role_name@) == Option::Some(v.deep_view()),
            Option::None => spec_role_permissions(role_name@) is None,
        },
{
    if str_equal(role_name, "ADMIN") {
        let mut v: Vec<&'static str> = Vec::new();
        v.push("read");
        v.push("write");
        v.push("delete");
        proof {
            assert(v.deep_view() =~= seq!["read"@, "write"@, "delete"@]);
        }
        Some(v)
    } else if str_equal(role_name, "FACULTY") {
        let mut v: Vec<&'static str> = Vec::new();
        v.push("read");
        v.push("write");
        proof {
            assert(v.deep_view() =~= seq!["read"@, "write"@]);
        }
        Some(v)
    } else if str_equal(role_name, "STUDENT") {
        let mut v: Vec<&'static str> = Vec::new();
        v.push("read");
        proof {
            assert(v.deep_view() =~= seq!["read"@]);
        }
        Some(v)
    } else {
        None
    }
}

/// A registered faculty member: an identifier and the PIN that unlocks
/// it.
#[derive(Clone, Copy, Debug)]
pub struct Faculty {
    pub id: &'static str,
    pub pin: &'static str,
}

/// A table entry maps the claimed public key back to a role exactly
/// when its secret parses as digits and the canonical encoding of
/// `g^secret mod p` is the claimed string, character for character.
pub open spec fn role_entry_matches(params: GroupParams, secret: Seq<char>, pk: Seq<char>) -> bool {
    is_dec_digits(secret) && pk == dec_of(
        pow_mod(params.g_val(), dec_value(secret), params.p_val()),
    )
}

/// Maps an anonymous-but-proven public key back to a role name: walks
/// the `(name, secret)` table in order, computes `g^secret mod p` for
/// each entry, and returns the first name whose key equals the claimed
/// one as a decimal string.  `None` exactly when no entry matches.
pub fn resolve_role(
    params: &GroupParams,
    public_key: &str,
    roles: &Vec<(String, String)>,
) -> (r: Option<String>)
    requires
        params.wf(),
    ensures
        match r {
            Option::Some(name) => exists|i: int|
                {
                    &&& 0 <= i < roles@.len()
                    &&& #[trigger] role_entry_matches(*params, roles@[i].1@, public_key@)
                    &&& name@ == roles@[i].0@
                    &&& forall|j: int|
                        0 <= j < i ==> !role_entry_matches(*params, roles@[j].1@, public_key@)
                },
            Option::None => forall|i: int|
                0 <= i < roles@.len() ==> !role_entry_matches(
                    *params,
                    #[trigger] roles@[i].1@,
                    public_key@,
                ),
        },
{
    let n = roles.len();
    let mut i: usize = 0;
    while i < n
        invariant
            params.wf(),
            n == roles@.len(),
            i <= n,
            forall|j: int|
                0 <= j < i ==> !role_entry_matches(*params, #[trigger] roles@[j].1@, public_key@),
        decreases n - i,
    {
        let entry = &roles[i];
        match canonical_decimal(entry.1.as_str()) {
            Some(sec) => {
                let y = power_mod(params.g.as_str(), sec.as_str(), params.p.as_str());
                proof {
                    lemma_canon_dec_of(y@);
                }
                if str_equal(y.as_str(), public_key) {
                    proof {
                        assert(role_entry_matches(*params, roles@[i as int].1@, public_key@));
                    }
                    return Some(entry.0.clone());
                }
            },
            None => {},
        }
        i = i + 1;
    }
    None
}

} // verus!
