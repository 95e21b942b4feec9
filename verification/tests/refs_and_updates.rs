use pylibgrit::error::{ErrorClass, GritErrorKind, GritFailure};
use pylibgrit::oid::ObjectId;
use pylibgrit::refs::{cas_error_to_binding, lock_failure, needs_store_delete, ref_state_mismatch, validate_ref_name,
    CasError, HeadTarget, PeelStep, Reference, ReferenceData, ReferenceIter};
use pylibgrit::repository::{append_reflog_request, delete_ref_check, init_branch, reflog_args, reject_wire_control,
    ref_write_request, update_ref_check, update_ref_request, utf8_field};
use pylibgrit::signature::Signature;

const A: &str = "1111111111111111111111111111111111111111";
const B: &str = "2222222222222222222222222222222222222222";

fn id(h: &str) -> ObjectId {
    ObjectId::from_hex(h).unwrap()
}

fn me() -> Signature {
    Signature::new(b"Ada".to_vec(), b"ada@x".to_vec(), (1, 0)).unwrap()
}

#[test]
fn ref_names_are_validated() {
    assert_eq!(validate_ref_name(b"refs/heads/main").unwrap(), "refs/heads/main");
    assert_eq!(validate_ref_name(b"HEAD").unwrap(), "HEAD");
    let e = validate_ref_name(b"refs/heads/a..b").unwrap_err();
    assert_eq!(e.class, ErrorClass::RepositoryError);
    assert!(e.message.starts_with("invalid ref name: \"refs/heads/a..b\": "));
    assert!(validate_ref_name(b"refs/heads/x.lock").is_err());
    assert!(validate_ref_name(b"/etc/passwd").is_err());
    assert!(validate_ref_name(b"").is_err());
    let e = validate_ref_name(&[b'r', 0xff]).unwrap_err();
    assert_eq!(e.class, ErrorClass::RepositoryError);
    assert_eq!(e.message, "non-UTF-8 ref name");
}

#[test]
fn cas_messages() {
    assert_eq!(
        ref_state_mismatch("refs/heads/m", Some(&id(A)), None, true).unwrap(),
        "ref refs/heads/m already exists"
    );
    assert!(ref_state_mismatch("refs/heads/m", None, None, true).is_none());
    assert!(ref_state_mismatch("refs/heads/m", Some(&id(A)), Some(&id(A)), false).is_none());
    assert_eq!(
        ref_state_mismatch("refs/heads/m", Some(&id(A)), Some(&id(B)), false).unwrap(),
        format!("ref refs/heads/m is {A}, expected {B}")
    );
    assert_eq!(
        ref_state_mismatch("refs/heads/m", None, Some(&id(B)), false).unwrap(),
        format!("ref refs/heads/m does not exist, expected {B}")
    );
    assert!(ref_state_mismatch("refs/heads/m", Some(&id(A)), None, false).is_none());
}

#[test]
fn create_only_twice_is_refused() {
    assert!(ref_state_mismatch("r/x", None, None, true).is_none());
    assert!(ref_state_mismatch("r/x", Some(&id(A)), None, true).is_some());
    assert!(ref_state_mismatch("r/x", Some(&id(A)), Some(&id(A)), false).is_none());
}

#[test]
fn update_request_guards_and_reflog() {
    let e = update_ref_request(b"refs/heads/m", true, Some(&id(A)), None, None).unwrap_err();
    assert_eq!(e.class, ErrorClass::ValueError);
    assert_eq!(e.message, "pass create=True or expected_old=, not both");
    let e = update_ref_request(b"refs/heads/m", false, None, Some(b"msg".to_vec()), None).unwrap_err();
    assert_eq!(e.message, "message= requires signer=");
    let w = update_ref_request(b"refs/heads/m", true, None, Some(b"commit: init".to_vec()), Some(&me())).unwrap();
    assert_eq!(w.refname, "refs/heads/m");
    assert_eq!(w.reflog, Some(("Ada <ada@x> 1 +0000".to_string(), "commit: init".to_string())));
    let e = update_ref_request(b"bad..name", false, None, None, None).unwrap_err();
    assert_eq!(e.class, ErrorClass::RepositoryError);
}

#[test]
fn update_check_gives_old_value_for_reflog() {
    let old = update_ref_check("refs/heads/m", None, &id(B), None, true).unwrap();
    assert!(old.is_zero());
    assert_eq!(old.len(), 20);
    let old = update_ref_check("refs/heads/m", Some(&id(A)), &id(B), Some(&id(A)), false).unwrap();
    assert_eq!(old.hex(), A);
    let e = update_ref_check("refs/heads/m", Some(&id(A)), &id(B), None, true).unwrap_err();
    assert_eq!(e.class, ErrorClass::RefMismatchError);
    assert_eq!(e.message, "ref refs/heads/m already exists");
}

#[test]
fn delete_check_and_reflog_pair() {
    let r = delete_ref_check("refs/heads/m", Some(&id(A)), Some(&id(A)), true).unwrap().unwrap();
    assert_eq!(r.0.hex(), A);
    assert!(r.1.is_zero());
    assert!(delete_ref_check("refs/heads/m", Some(&id(A)), None, false).unwrap().is_none());
    assert!(delete_ref_check("refs/heads/m", None, None, true).unwrap().is_none());
    let e = delete_ref_check("refs/heads/m", None, Some(&id(A)), true).unwrap_err();
    assert_eq!(e.class, ErrorClass::RefMismatchError);
    assert_eq!(e.message, format!("ref refs/heads/m does not exist, expected {A}"));
    let w = ref_write_request(b"refs/heads/m", None, None).unwrap();
    assert!(w.reflog.is_none());
}

#[test]
fn text_fields() {
    assert_eq!(utf8_field("x", b"ok".to_vec()).unwrap(), "ok");
    let e = utf8_field("tag name", vec![0x80]).unwrap_err();
    assert_eq!(e.class, ErrorClass::ValueError);
    assert_eq!(e.message, "tag name must be valid UTF-8");
    assert!(reject_wire_control("m", "plain text").is_ok());
    for bad in ["a\nb", "a\rb", "a\0b"] {
        let e = reject_wire_control("reflog message", bad).unwrap_err();
        assert_eq!(e.message, "reflog message must not contain NUL, newline, or carriage return");
    }
}

#[test]
fn reflog_requests() {
    assert_eq!(reflog_args(None, None).unwrap(), None);
    assert_eq!(reflog_args(None, Some(&me())).unwrap(), None);
    let e = reflog_args(Some(b"a\nb".to_vec()), Some(&me())).unwrap_err();
    assert_eq!(e.message, "reflog message must not contain NUL, newline, or carriage return");
    let (n, i, m) = append_reflog_request(b"refs/heads/m", &me(), b"reset".to_vec()).unwrap();
    assert_eq!((n.as_str(), i.as_str(), m.as_str()), ("refs/heads/m", "Ada <ada@x> 1 +0000", "reset"));
    let e = append_reflog_request(b"refs/heads/m", &me(), vec![0xfe]).unwrap_err();
    assert_eq!(e.message, "reflog message must be valid UTF-8");
}

#[test]
fn initial_branch() {
    assert_eq!(init_branch(None).unwrap(), "main");
    assert_eq!(init_branch(Some(b"trunk".to_vec())).unwrap(), "trunk");
    let e = init_branch(Some(b"a..b".to_vec())).unwrap_err();
    assert_eq!(e.class, ErrorClass::RepositoryError);
    assert!(e.message.starts_with("invalid ref name: \"refs/heads/a..b\""));
    let e = init_branch(Some(vec![0xff])).unwrap_err();
    assert_eq!(e.class, ErrorClass::ValueError);
    assert_eq!(e.message, "initial_branch must be valid UTF-8");
}

#[test]
fn references_and_peeling() {
    let d = Reference::new(ReferenceData::direct(b"refs/heads/m".to_vec(), id(A)));
    assert!(!d.is_symbolic());
    assert_eq!(d.target().unwrap().hex(), A);
    assert!(d.symbolic_target().is_none());
    match d.peel_step().unwrap() {
        PeelStep::Resolved(x) => assert_eq!(x.hex(), A),
        _ => panic!("direct refs are resolved"),
    }
    let h = Reference::head(HeadTarget::Branch("refs/heads/main".to_string()));
    assert_eq!(h.name(), b"HEAD".to_vec());
    assert!(h.is_symbolic());
    assert_eq!(h.symbolic_target().unwrap(), b"refs/heads/main".to_vec());
    match h.peel_step().unwrap() {
        PeelStep::ResolveByName(n) => assert_eq!(n, "HEAD"),
        _ => panic!("symbolic refs resolve by name"),
    }
    let detached = Reference::head(HeadTarget::Detached(id(B)));
    assert_eq!(detached.target().unwrap().hex(), B);
    let e = Reference::finish_peel(Err(GritFailure {
        kind: GritErrorKind::InvalidRef,
        message: "bad ref".to_string(),
        io_errno: None,
        io_message: String::new(),
    }))
    .unwrap_err();
    assert_eq!((e.class, e.message.as_str()), (ErrorClass::RepositoryError, "bad ref"));
    assert_eq!(Reference::finish_peel(Ok(id(A))).unwrap().hex(), A);
    let bad = Reference::new(ReferenceData::symbolic(vec![0xff], b"refs/heads/x".to_vec()));
    let e = bad.peel_step().unwrap_err();
    assert_eq!(e.message, "non-UTF-8 ref name");
}

#[test]
fn reference_iteration_in_order() {
    let mut it = ReferenceIter::from_listing(vec![
        ("refs/heads/a".to_string(), id(A)),
        ("refs/tags/b".to_string(), id(B)),
    ]);
    let r = it.next_reference().unwrap();
    assert_eq!(r.name(), b"refs/heads/a".to_vec());
    assert_eq!(r.target().unwrap().hex(), A);
    assert_eq!(it.next_reference().unwrap().name(), b"refs/tags/b".to_vec());
    assert!(it.next_reference().is_none());
    assert!(it.next_reference().is_none());
}

#[test]
fn cas_failures_map_to_errors() {
    let e = cas_error_to_binding(CasError::Mismatch("ref x already exists".to_string()));
    assert_eq!(e.class, ErrorClass::RefMismatchError);
    let e = cas_error_to_binding(lock_failure("refs/heads/m", true, None, String::new()));
    assert_eq!(e.class, ErrorClass::RepositoryError);
    assert_eq!(e.message, "cannot lock ref 'refs/heads/m'");
    let e = cas_error_to_binding(lock_failure("refs/heads/m", false, Some(13), "Permission denied".to_string()));
    assert_eq!(e.class, ErrorClass::OsError);
    assert_eq!(e.errno, Some(13));
    let e = cas_error_to_binding(CasError::Grit(GritFailure {
        kind: GritErrorKind::InvalidRef,
        message: "bad".to_string(),
        io_errno: None,
        io_message: String::new(),
    }));
    assert_eq!(e.class, ErrorClass::RepositoryError);
    assert_eq!(e.message, "bad");
    assert_eq!(e.errno, None);
    let e = cas_error_to_binding(CasError::Grit(GritFailure {
        kind: GritErrorKind::Io,
        message: "I/O error: Permission denied (os error 13)".to_string(),
        io_errno: Some(13),
        io_message: "Permission denied (os error 13)".to_string(),
    }));
    assert_eq!(e.class, ErrorClass::OsError);
    assert_eq!(e.message, "Permission denied (os error 13)");
    assert_eq!(e.errno, Some(13));
    assert!(needs_store_delete(true, true));
    assert!(needs_store_delete(false, false));
    assert!(!needs_store_delete(false, true));
}
