use gitreal::api::{
    challenge_user_id, me_user_id, reacting_user_id, require_signed_in, submitter_user_id,
    user_id_or_server_error, Rejection,
};
use gitreal::commit::{commit_hash_from_bytes, new_commit_hash, ReqCommit, ResCommit, Timestamp};
use gitreal::decimal::format_i64;

fn not_found(r: Rejection) -> String {
    match r {
        Rejection::NotFound(m) => m,
        Rejection::InternalServerError(m) => panic!("expected 404, got 500: {m}"),
    }
}

fn server_error(r: Rejection) -> String {
    match r {
        Rejection::InternalServerError(m) => m,
        Rejection::NotFound(m) => panic!("expected 500, got 404: {m}"),
    }
}

#[test]
fn missing_identity_is_not_found() {
    assert_eq!(not_found(challenge_user_id(None).unwrap_err()), "User id not found.");
    assert_eq!(not_found(submitter_user_id(None).unwrap_err()), "User id not found.");
    assert_eq!(not_found(me_user_id(None).unwrap_err()), "User id not found.");
    assert_eq!(not_found(require_signed_in(false).unwrap_err()), "User id not found.");
    assert!(require_signed_in(true).is_ok());
    let r = reacting_user_id(Err("no identity in session".to_string()));
    assert_eq!(not_found(r.unwrap_err()), "no identity in session");
}

#[test]
fn identity_ids_are_parsed() {
    assert_eq!(challenge_user_id(Some("15")).unwrap(), 15);
    assert_eq!(submitter_user_id(Some("8589934592")).unwrap(), 8589934592);
    assert_eq!(me_user_id(Some("-3")).unwrap(), -3);
    assert_eq!(reacting_user_id(Ok("+7")).unwrap(), 7);
}

#[test]
fn bad_identity_ids_are_rejected() {
    assert_eq!(not_found(me_user_id(Some("abc")).unwrap_err()), "User id is not a number.");
    assert_eq!(not_found(me_user_id(Some("")).unwrap_err()), "User id is not a number.");
    assert_eq!(not_found(me_user_id(Some(" 1")).unwrap_err()), "User id is not a number.");
    let e = server_error(reacting_user_id(Ok("12x")).unwrap_err());
    assert_eq!(e, "invalid digit found in string");
    let e = server_error(reacting_user_id(Ok("2147483648")).unwrap_err());
    assert_eq!(e, "number too large to fit in target type");
}

#[test]
fn formatted_ids_parse_back() {
    for x in [0i64, 1, -1, 42, 1234567890, i64::MAX, i64::MIN] {
        let text = format_i64(x);
        assert_eq!(text, x.to_string());
        assert_eq!(me_user_id(Some(text.as_str())).unwrap(), x);
    }
}

#[test]
fn commit_hash_is_lowercase_hex_of_the_bytes() {
    let bytes = [0x00, 0x01, 0x0f, 0x10, 0xab, 0xff, 0x7e, 0x80, 1, 2, 3, 4, 5, 6, 7, 8];
    assert_eq!(commit_hash_from_bytes(&bytes), "00010f10abff7e800102030405060708");
    let h = new_commit_hash().expect("entropy source available");
    assert_eq!(h.len(), 32);
    assert!(h.chars().all(|c| c.is_ascii_digit() || ('a'..='f').contains(&c)));
}

#[test]
fn submission_copies_the_request() {
    let req = ReqCommit {
        title: "fast".to_string(),
        solution: "fn main() {}".to_string(),
        language: 1,
        description: "first try".to_string(),
    };
    let date = Timestamp { secs: 1_700_000_000, nanos: 5 };
    let c = ResCommit::from_submission(&req, 77, 3, true, "ab".to_string(), date);
    assert_eq!(c.id, 0);
    assert_eq!(c.commit_hash, "ab");
    assert_eq!(c.user_id, 77);
    assert_eq!(c.date, date);
    assert_eq!(c.title, "fast");
    assert_eq!(c.solution, "fn main() {}");
    assert!(c.is_valid);
    assert_eq!(c.language, 1);
    assert_eq!(c.description, "first try");
    assert_eq!(c.challenge_id, 3);

    let n = ResCommit::new_submission(&req, 77, 3, false, date).expect("entropy source available");
    assert_eq!(n.id, 0);
    assert_eq!(n.commit_hash.len(), 32);
    assert!(n.commit_hash.chars().all(|c| c.is_ascii_digit() || ('a'..='f').contains(&c)));
    assert_eq!(n.user_id, 77);
    assert_eq!(n.date, date);
    assert_eq!(n.title, "fast");
    assert!(!n.is_valid);
    assert_eq!(n.challenge_id, 3);
}

#[test]
fn parse_outcome_becomes_reply() {
    assert_eq!(user_id_or_server_error(Ok(12)).unwrap(), 12);
    let e = server_error(user_id_or_server_error(Err("bad id".to_string())).unwrap_err());
    assert_eq!(e, "bad id");
    let e = server_error(reacting_user_id(Ok("abc")).unwrap_err());
    assert_eq!(e, "invalid digit found in string");
    let e = server_error(reacting_user_id(Ok("")).unwrap_err());
    assert_eq!(e, "cannot parse integer from empty string");
}
