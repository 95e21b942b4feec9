use pylibgrit::error::{map_err, net_map_err, ErrorClass, GritErrorKind, GritFailure};
use pylibgrit::push::{settle_push, PushFailure};
use pylibgrit::oid::{CompareOp, ObjectId};
use pylibgrit::signature::{resolve_ident, split_name_email, Signature};

const EMPTY_TREE: &str = "4b825dc642cb6eb9a060e54bf8d69288fbee4904";

fn failure(kind: GritErrorKind, message: &str) -> GritFailure {
    GritFailure {
        kind,
        message: message.to_string(),
        io_errno: Some(2),
        io_message: "No such file or directory (os error 2)".to_string(),
    }
}

#[test]
fn hex_round_trip_sha1() {
    let id = ObjectId::from_hex(EMPTY_TREE).unwrap();
    assert_eq!(id.hex(), EMPTY_TREE);
    assert_eq!(id.len(), 20);
    assert_eq!(id.raw().len(), 20);
    assert_eq!(id.raw()[0], 0x4b);
    assert_eq!(id.hash_algorithm(), "sha1");
}

#[test]
fn hex_round_trip_sha256() {
    let h = "a".repeat(64);
    let id = ObjectId::from_hex(&h).unwrap();
    assert_eq!(id.len(), 32);
    assert_eq!(id.hash_algorithm(), "sha256");
    assert_eq!(id.hex(), h);
}

#[test]
fn from_hex_accepts_upper_case_and_renders_lower_case() {
    let id = ObjectId::from_hex(&EMPTY_TREE.to_uppercase()).unwrap();
    assert_eq!(id.hex(), EMPTY_TREE);
}

#[test]
fn from_hex_rejects_bad_length_and_bad_digits() {
    let e = ObjectId::from_hex("abc").unwrap_err();
    assert_eq!(e.class, ErrorClass::InvalidObjectError);
    assert_eq!(e.message, "invalid object id 'abc'");
    let bad = "g".repeat(40);
    let e = ObjectId::from_hex(&bad).unwrap_err();
    assert_eq!(e.message, format!("invalid object id '{bad}'"));
}

#[test]
fn raw_ids_need_a_digest_length() {
    assert!(ObjectId::from_raw(&[1u8; 20]).is_some());
    assert!(ObjectId::from_raw(&[1u8; 32]).is_some());
    assert!(ObjectId::from_raw(&[1u8; 21]).is_none());
    assert!(ObjectId::from_vec(vec![]).is_none());
}

#[test]
fn zero_ids_and_comparison() {
    let id = ObjectId::from_hex(EMPTY_TREE).unwrap();
    assert!(!id.is_zero());
    let z = id.zero_like();
    assert!(z.is_zero());
    assert_eq!(z.hex(), "0".repeat(40));
    assert!(id.rich_compare(&id.copy(), CompareOp::Eq));
    assert!(id.rich_compare(&z, CompareOp::Ne));
    assert!(!id.rich_compare(&z, CompareOp::Lt));
    assert_eq!(id.repr(), format!("ObjectId('{EMPTY_TREE}')"));
}

#[test]
fn grit_failures_map_to_classes() {
    let e = map_err(failure(GritErrorKind::ObjectNotFound, "object not found: x"));
    assert_eq!(e.class, ErrorClass::ObjectNotFoundError);
    assert_eq!(e.message, "object not found: x");
    assert_eq!(e.errno, None);
    let e = map_err(failure(GritErrorKind::Io, "I/O error: gone"));
    assert_eq!(e.class, ErrorClass::OsError);
    assert_eq!(e.errno, Some(2));
    assert_eq!(e.message, "No such file or directory (os error 2)");
    let e = map_err(failure(GritErrorKind::InvalidRef, "bad ref"));
    assert_eq!(e.class, ErrorClass::RepositoryError);
    let e = map_err(failure(GritErrorKind::PathError, "bad path"));
    assert_eq!(e.class, ErrorClass::ValueError);
}

#[test]
fn network_mapping_changes_only_transport_failures() {
    let e = net_map_err(failure(GritErrorKind::Io, "I/O error: reset"));
    assert_eq!(e.class, ErrorClass::NetworkError);
    assert_eq!(e.message, "I/O error: reset");
    assert_eq!(e.errno, None);
    let e = net_map_err(failure(GritErrorKind::Message, "remote hung up"));
    assert_eq!(e.class, ErrorClass::NetworkError);
    let e = net_map_err(failure(GritErrorKind::Auth, "denied"));
    assert_eq!(e.class, ErrorClass::AuthenticationError);
    let e = net_map_err(failure(GritErrorKind::CorruptObject, "corrupt object: x"));
    assert_eq!(e.class, ErrorClass::InvalidObjectError);
}

#[test]
fn signature_wire_bytes_with_positive_offset() {
    let s = Signature::new(b"Ada".to_vec(), b"ada@example.com".to_vec(), (1718000000, 19800)).unwrap();
    assert_eq!(s.wire_bytes(), b"Ada <ada@example.com> 1718000000 +0530".to_vec());
    assert_eq!(s.when(), (1718000000, 19800));
}

#[test]
fn signature_wire_bytes_with_negative_offset_and_time() {
    let s = Signature::new(b"B".to_vec(), b"b@x".to_vec(), (-5, -3600)).unwrap();
    assert_eq!(s.wire_bytes(), b"B <b@x> -5 -0100".to_vec());
}

#[test]
fn signature_rejects_injection_and_bad_offsets() {
    let e = Signature::new(b"A<B".to_vec(), b"a@x".to_vec(), (0, 0)).unwrap_err();
    assert_eq!(e.class, ErrorClass::ValueError);
    assert!(Signature::new(b"A".to_vec(), b"a\n@x".to_vec(), (0, 0)).is_err());
    assert!(Signature::new(b"A".to_vec(), b"a@x".to_vec(), (0, 30)).is_err());
    assert!(Signature::new(b"A".to_vec(), b"a@x".to_vec(), (0, 86460)).is_err());
    assert!(Signature::new(b"A".to_vec(), b"a@x".to_vec(), (0, 86400)).is_ok());
}

#[test]
fn wire_ident_splits_back_into_name_and_email() {
    let s = Signature::new(b"Ada Lovelace".to_vec(), b"ada@example.com".to_vec(), (7, 0)).unwrap();
    let (name, email) = split_name_email(&s.wire_bytes());
    assert_eq!(name, s.name());
    assert_eq!(email, s.email());
}

#[test]
fn parsed_signature_keeps_raw_name_and_reads_time() {
    let raw = b"A U Thor <author@example.com> 1112911993 -0700";
    let s = Signature::parse(raw, std::str::from_utf8(raw).unwrap());
    assert_eq!(s.name(), b"A U Thor".to_vec());
    assert_eq!(s.email(), b"author@example.com".to_vec());
    assert_eq!(s.when(), (1112911993, -25200));
}

#[test]
fn identity_needs_exactly_one_form() {
    let s = Signature::new(b"A".to_vec(), b"a@x".to_vec(), (1, 0)).unwrap();
    assert_eq!(resolve_ident("author", Some(&s), None).unwrap(), b"A <a@x> 1 +0000".to_vec());
    assert_eq!(resolve_ident("author", None, Some(b"raw".to_vec())).unwrap(), b"raw".to_vec());
    let e = resolve_ident("author", Some(&s), Some(b"raw".to_vec())).unwrap_err();
    assert_eq!(e.message, "provide author= or author_raw=, not both");
    let e = resolve_ident("committer", None, None).unwrap_err();
    assert_eq!(e.message, "committer= or committer_raw= is required");
}

#[test]
fn lower_case_hex_text_round_trips() {
    for h in [EMPTY_TREE.to_string(), "0123456789abcdef".repeat(4)] {
        let id = ObjectId::from_hex(&h).unwrap();
        assert_eq!(id.hex(), h);
        assert_eq!(id.raw().len(), h.len() / 2);
    }
}

#[test]
fn push_callback_error_wins_over_transfer_result() {
    let r: Result<u32, PushFailure<&str>> = settle_push(Some("cb"), Ok(7));
    assert!(matches!(r, Err(PushFailure::Callback("cb"))));
    let r: Result<u32, PushFailure<&str>> = settle_push(Some("cb"), Err(failure(GritErrorKind::Io, "boom")));
    assert!(matches!(r, Err(PushFailure::Callback("cb"))));
    let r: Result<u32, PushFailure<&str>> = settle_push(None, Ok(7));
    assert!(matches!(r, Ok(7)));
    let r: Result<u32, PushFailure<&str>> = settle_push(None, Err(failure(GritErrorKind::Message, "remote hung up")));
    match r {
        Err(PushFailure::Transfer(e)) => {
            assert_eq!(e.class, ErrorClass::NetworkError);
            assert_eq!(e.message, "remote hung up");
            assert_eq!(e.errno, None);
        },
        _ => panic!("expected a transfer failure"),
    }
}
