//! The access-grant decision for one door request.
//!
//! A request names a role and carries credentials, a claimed location
//! and a proof record.  The decision walks the same cascade for every
//! request: an administrator is let in remotely on the password alone;
//! faculty must present listed credentials, stand inside the door's
//! geofence and carry a valid proof; students must additionally belong
//! to a section that is assigned to this very door.  The tables — the
//! administrator password, the faculty list, the section list and the
//! current section-to-room assignment — are the caller's to provide.

use crate::crypto::GroupParams;
use crate::digits::str_equal;
use crate::rbac::Faculty;
use crate::zkp::{geohash_prefix, proof_valid, Proof, SchnorrVerifier};
use vstd::prelude::*;
use vstd::string::StrSliceExecFns;

verus! {

/// The verdict on one access request, one variant per way the cascade
/// can end.
#[derive(Clone, Copy, Debug, PartialEq, Eq, Structural)]
pub enum AccessDecision {
    /// Access is granted.
    Granted,
    /// The administrator password did not match.
    DeniedAdminPassword,
    /// No listed faculty member has this identifier and PIN.
    DeniedFacultyCredentials,
    /// The claimed location is outside the door's geofence.
    DeniedLocation,
    /// The named section is not a listed section.
    DeniedInvalidSection,
    /// The section is assigned to a different room.
    DeniedSectionAssignedElsewhere,
    /// No room has been assigned to the section.
    DeniedSectionUnassigned,
    /// The proof record did not verify.
    DeniedInvalidProof,
    /// The role is none of the known three.
    DeniedUnknownRole,
}

/// The identity half of a request: who claims to be at the door, with
/// which credentials, and where they claim to stand.
pub struct AccessRequest {
    pub role: String,
    pub password: String,
    pub faculty_id: String,
    pub pin: String,
    pub section: String,
    pub geohash: String,
}

/// The claimed location lies inside the door's geofence: the door
/// prefix, itself cut to six characters, is a prefix of the claim.
pub open spec fn spec_within_geofence(geohash: Seq<char>, door_prefix: Seq<char>) -> bool {
    geohash_prefix(door_prefix).is_prefix_of(geohash)
}

/// Some listed faculty member carries this identifier and PIN.
pub open spec fn spec_faculty_listed(fs: Seq<Faculty>, id: Seq<char>, pin: Seq<char>) -> bool {
    exists|i: int| 0 <= i < fs.len() && (#[trigger] fs[i]).id@ == id && fs[i].pin@ == pin
}

/// The named section is one of the listed sections.
pub open spec fn spec_section_listed(sections: Seq<Seq<char>>, section: Seq<char>) -> bool {
    exists|i: int| 0 <= i < sections.len() && #[trigger] sections[i] == section
}

/// The decision cascade, in the order the checks are made.  The
/// assignment is the `(room, assigned-by)` pair currently recorded for
/// the request's section, if any.
pub open spec fn spec_decide(
    params: GroupParams,
    pf: Proof,
    req: AccessRequest,
    admin_password: Seq<char>,
    faculties: Seq<Faculty>,
    sections: Seq<Seq<char>>,
    assignment: Option<(Seq<char>, Seq<char>)>,
    door_id: Seq<char>,
    door_prefix: Seq<char>,
) -> AccessDecision {
    if req.role@ == "ADMIN"@ {
        if req.password@ == admin_password {
            AccessDecision::Granted
        } else {
            AccessDecision::DeniedAdminPassword
        }
    } else if req.role@ == "FACULTY"@ {
        if !spec_faculty_listed(faculties, req.faculty_id@, req.pin@) {
            AccessDecision::DeniedFacultyCredentials
        } else if !spec_within_geofence(req.geohash@, door_prefix) {
            AccessDecision::DeniedLocation
        } else if !proof_valid(params, pf) {
            AccessDecision::DeniedInvalidProof
        } else {
            AccessDecision::Granted
        }
    } else if req.role@ == "STUDENT"@ {
        if !spec_section_listed(sections, req.section@) {
            AccessDecision::DeniedInvalidSection
        } else {
            match assignment {
                Option::None => AccessDecision::DeniedSectionUnassigned,
                Option::Some((room, _by)) => {
                    if room != door_id {
                        AccessDecision::DeniedSectionAssignedElsewhere
                    } else if !spec_within_geofence(req.geohash@, door_prefix) {
                        AccessDecision::DeniedLocation
                    } else if !proof_valid(params, pf) {
                        AccessDecision::DeniedInvalidProof
                    } else {
                        AccessDecision::Granted
                    }
                },
            }
        }
    } else {
        AccessDecision::DeniedUnknownRole
    }
}

/// True exactly when `prefix` begins `s`.
pub fn str_starts_with(s: &str, prefix: &str) -> (r: bool)
    ensures
        r == prefix@.is_prefix_of(s@),
{
    let np = prefix.unicode_len();
    let ns = s.unicode_len();
    if np > ns {
        return false;
    }
    let mut i: usize = 0;
    while i < np
        invariant
            np == prefix@.len(),
            ns == s@.len(),
            np <= ns,
            i <= np,
            forall|j: int| 0 <= j < i ==> prefix@[j] == s@[j],
        decreases np - i,
    {
        if prefix.get_char(i) != s.get_char(i) {
            assert(!prefix@.is_prefix_of(s@)) by {
                assert(prefix@[i as int] != s@.subrange(0, np as int)[i as int]);
            }
            return false;
        }
        i = i + 1;
    }
    proof {
        assert(prefix@ =~= s@.subrange(0, np as int));
    }
    true
}

/// The demo-mode geofence rule: the claimed location hash must start
/// with the allowed prefix, and the prefix must be at least six
/// characters long to mean anything.
pub fn demo_geofence_ok(user_hash: &str, allowed_prefix: &str) -> (r: bool)
    ensures
        r == (allowed_prefix@.is_prefix_of(user_hash@) && allowed_prefix@.len() >= 6),
{
    let long_enough = allowed_prefix.unicode_len() >= 6;
    let starts = str_starts_with(user_hash, allowed_prefix);
    starts && long_enough
}

/// True exactly when the claimed location lies inside the door's
/// geofence.
pub fn within_geofence(geohash: &str, door_prefix: &str) -> (r: bool)
    ensures
        r == spec_within_geofence(geohash@, door_prefix@),
{
    let n = door_prefix.unicode_len();
    let req: &str = if n >= 6 {
        door_prefix.substring_char(0, 6)
    } else {
        door_prefix
    };
    str_starts_with(geohash, req)
}

/// True exactly when some listed faculty member carries this
/// identifier and PIN.
pub fn faculty_credentials_ok(faculties: &Vec<Faculty>, id: &str, pin: &str) -> (r: bool)
    ensures
        r == spec_faculty_listed(faculties@, id@, pin@),
{
    let n = faculties.len();
    let mut i: usize = 0;
    while i < n
        invariant
            n == faculties@.len(),
            i <= n,
            forall|j: int|
                0 <= j < i ==> !((#[trigger] faculties@[j]).id@ == id@ && faculties@[j].pin@
                    == pin@),
        decreases n - i,
    {
        let f = &faculties[i];
        if str_equal(f.id, id) && str_equal(f.pin, pin) {
            return true;
        }
        i = i + 1;
    }
    false
}

/// True exactly when the named section is listed.
pub fn section_listed(sections: &Vec<&'static str>, section: &str) -> (r: bool)
    ensures
        r == spec_section_listed(sections.deep_view(), section@),
{
    let n = sections.len();
    let mut i: usize = 0;
    while i < n
        invariant
            n == sections@.len(),
            i <= n,
            forall|j: int| 0 <= j < i ==> #[trigger] sections.deep_view()[j] != section@,
        decreases n - i,
    {
        if str_equal(sections[i], section) {
            proof {
                assert(sections.deep_view()[i as int] == sections@[i as int]@);
            }
            return true;
        }
        i = i + 1;
    }
    false
}

/// Decides one access request against the caller's tables, walking the
/// cascade of [`spec_decide`]: role, credentials, geofence, section
/// assignment, and last the proof record.  Administrators are admitted
/// remotely and present no proof.
pub fn decide_access(
    params: &GroupParams,
    pf: &Proof,
    req: &AccessRequest,
    admin_password: &str,
    faculties: &Vec<Faculty>,
    sections: &Vec<&'static str>,
    assignment: Option<(&str, &str)>,
    door_id: &str,
    door_prefix: &str,
) -> (r: AccessDecision)
    requires
        params.wf(),
    ensures
        r == spec_decide(
            *params,
            *pf,
            *req,
            admin_password@,
            faculties@,
            sections.deep_view(),
            match assignment {
                Option::Some((room, by)) => Option::Some((room@, by@)),
                Option::None => Option::None,
            },
            door_id@,
            door_prefix@,
        ),
{
    if str_equal(req.role.as_str(), "ADMIN") {
        if str_equal(req.password.as_str(), admin_password) {
            AccessDecision::Granted
        } else {
            AccessDecision::DeniedAdminPassword
        }
    } else if str_equal(req.role.as_str(), "FACULTY") {
        if !faculty_credentials_ok(faculties, req.faculty_id.as_str(), req.pin.as_str()) {
            AccessDecision::DeniedFacultyCredentials
        } else if !within_geofence(req.geohash.as_str(), door_prefix) {
            AccessDecision::DeniedLocation
        } else if !SchnorrVerifier::verify_proof(params, pf) {
            AccessDecision::DeniedInvalidProof
        } else {
            AccessDecision::Granted
        }
    } else if str_equal(req.role.as_str(), "STUDENT") {
        if !section_listed(sections, req.section.as_str()) {
            AccessDecision::DeniedInvalidSection
        } else {
            match assignment {
                None => AccessDecision::DeniedSectionUnassigned,
                Some((room, _by)) => {
                    if !str_equal(room, door_id) {
                        AccessDecision::DeniedSectionAssignedElsewhere
                    } else if !within_geofence(req.geohash.as_str(), door_prefix) {
                        AccessDecision::DeniedLocation
                    } else if !SchnorrVerifier::verify_proof(params, pf) {
                        AccessDecision::DeniedInvalidProof
                    } else {
                        AccessDecision::Granted
                    }
                },
            }
        }
    } else {
        AccessDecision::DeniedUnknownRole
    }
}

} // verus!
