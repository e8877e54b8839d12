//! The access-decision cascade, role by role.

use priv_access::access::{decide_access, AccessDecision, AccessRequest};
use priv_access::crypto::GroupParams;
use priv_access::rbac::{get_role_secret, Faculty};
use priv_access::zkp::{Proof, SchnorrProver};

const ADMIN_PASSWORD: &str = "Admin@1234";

fn faculties() -> Vec<Faculty> {
    vec![
        Faculty { id: "Fac1", pin: "1234" },
        Faculty { id: "Fac2", pin: "5678" },
        Faculty { id: "Fac3", pin: "9876" },
        Faculty { id: "Fac4", pin: "5432" },
    ]
}

fn sections() -> Vec<&'static str> {
    vec!["A", "B", "C", "D", "E", "F", "G", "H"]
}

fn request(role: &str, geohash: &str) -> AccessRequest {
    AccessRequest {
        role: role.to_string(),
        password: String::new(),
        faculty_id: String::new(),
        pin: String::new(),
        section: String::new(),
        geohash: geohash.to_string(),
    }
}

fn valid_proof_for(params: &GroupParams, role: &str, geohash: &str) -> Proof {
    let prover = SchnorrProver::new(params.duplicate(), get_role_secret(role).unwrap());
    prover.generate_proof(geohash.to_string())
}

#[test]
fn admin_password_decides_alone() {
    let params = GroupParams::standard().unwrap();
    let junk = Proof {
        public_key: "no".to_string(),
        commitment: "proof".to_string(),
        response: "at all".to_string(),
        geohash: String::new(),
    };
    let mut req = request("ADMIN", "");
    req.password = ADMIN_PASSWORD.to_string();
    // Remote access: no proof, no location, still granted.
    let decision = decide_access(
        &params, &junk, &req, ADMIN_PASSWORD, &faculties(), &sections(), None, "lab", "t1q7hk9tk",
    );
    assert_eq!(decision, AccessDecision::Granted);

    req.password = "Admin@12345".to_string();
    let decision = decide_access(
        &params, &junk, &req, ADMIN_PASSWORD, &faculties(), &sections(), None, "lab", "t1q7hk9tk",
    );
    assert_eq!(decision, AccessDecision::DeniedAdminPassword);
}

#[test]
fn faculty_cascade() {
    let params = GroupParams::standard().unwrap();
    let proof = valid_proof_for(&params, "FACULTY", "t1q7hk9tk");
    let mut req = request("FACULTY", "t1q7hk9tk");
    req.faculty_id = "Fac2".to_string();
    req.pin = "5678".to_string();

    let granted = decide_access(
        &params, &proof, &req, ADMIN_PASSWORD, &faculties(), &sections(), None, "lab", "t1q7hk9tk",
    );
    assert_eq!(granted, AccessDecision::Granted);

    // Wrong PIN for the identifier.
    req.pin = "0000".to_string();
    let denied = decide_access(
        &params, &proof, &req, ADMIN_PASSWORD, &faculties(), &sections(), None, "lab", "t1q7hk9tk",
    );
    assert_eq!(denied, AccessDecision::DeniedFacultyCredentials);

    // Right credentials, wrong place: only the first six characters of
    // the door prefix are required.
    req.pin = "5678".to_string();
    req.geohash = "t1q8zz9tk".to_string();
    let denied = decide_access(
        &params, &proof, &req, ADMIN_PASSWORD, &faculties(), &sections(), None, "lab", "t1q7hk9tk",
    );
    assert_eq!(denied, AccessDecision::DeniedLocation);

    // Right place, but the record's own location claim was swapped
    // after the proof was made: the record no longer verifies.
    req.geohash = "t1q7hk9tk".to_string();
    let mut swapped = valid_proof_for(&params, "FACULTY", "elsewhere");
    swapped.geohash = "t1q7hk9tk".to_string();
    let denied = decide_access(
        &params, &swapped, &req, ADMIN_PASSWORD, &faculties(), &sections(), None, "lab",
        "t1q7hk9tk",
    );
    assert_eq!(denied, AccessDecision::DeniedInvalidProof);
}

#[test]
fn student_cascade() {
    let params = GroupParams::standard().unwrap();
    let proof = valid_proof_for(&params, "STUDENT", "t1q7hk9uh");
    let mut req = request("STUDENT", "t1q7hk9uh");
    req.section = "C".to_string();

    // No room assigned to the section yet.
    let denied = decide_access(
        &params, &proof, &req, ADMIN_PASSWORD, &faculties(), &sections(), None, "normal",
        "t1q7hk9uh",
    );
    assert_eq!(denied, AccessDecision::DeniedSectionUnassigned);

    // Assigned to a different room.
    let denied = decide_access(
        &params,
        &proof,
        &req,
        ADMIN_PASSWORD,
        &faculties(),
        &sections(),
        Some(("tiered", "Fac1")),
        "normal",
        "t1q7hk9uh",
    );
    assert_eq!(denied, AccessDecision::DeniedSectionAssignedElsewhere);

    // Unknown section name.
    req.section = "Z".to_string();
    let denied = decide_access(
        &params,
        &proof,
        &req,
        ADMIN_PASSWORD,
        &faculties(),
        &sections(),
        Some(("normal", "Fac1")),
        "normal",
        "t1q7hk9uh",
    );
    assert_eq!(denied, AccessDecision::DeniedInvalidSection);

    // Everything lines up.
    req.section = "C".to_string();
    let granted = decide_access(
        &params,
        &proof,
        &req,
        ADMIN_PASSWORD,
        &faculties(),
        &sections(),
        Some(("normal", "Fac1")),
        "normal",
        "t1q7hk9uh",
    );
    assert_eq!(granted, AccessDecision::Granted);
}

#[test]
fn unknown_role_is_denied() {
    let params = GroupParams::standard().unwrap();
    let proof = valid_proof_for(&params, "ADMIN", "t1q7hk9vj");
    let req = request("VISITOR", "t1q7hk9vj");
    let denied = decide_access(
        &params, &proof, &req, ADMIN_PASSWORD, &faculties(), &sections(), None, "tiered",
        "t1q7hk9vj",
    );
    assert_eq!(denied, AccessDecision::DeniedUnknownRole);
}

#[test]
fn short_door_prefix_is_used_whole() {
    let params = GroupParams::standard().unwrap();
    let proof = valid_proof_for(&params, "FACULTY", "abc");
    let mut req = request("FACULTY", "abc");
    req.faculty_id = "Fac1".to_string();
    req.pin = "1234".to_string();
    // A four-character door prefix is required in full.
    let granted = decide_access(
        &params, &proof, &req, ADMIN_PASSWORD, &faculties(), &sections(), None, "lab", "abc",
    );
    assert_eq!(granted, AccessDecision::Granted);
    let denied = decide_access(
        &params, &proof, &req, ADMIN_PASSWORD, &faculties(), &sections(), None, "lab", "abcd",
    );
    assert_eq!(denied, AccessDecision::DeniedLocation);
}
