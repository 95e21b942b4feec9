use pylibgrit::error::ErrorClass;
use pylibgrit::objects::{commit_tree, kind_from_value, kind_name, mode_to_kind, object_kind_discriminant,
    Blob, Commit, ObjectKind, Tag, Tree};
use pylibgrit::oid::ObjectId;
use pylibgrit::repository::{create_commit_payload, create_tag_payload, diff_tree_of, plan_revwalk, WalkOrder};
use pylibgrit::signature::Signature;

const TREE: &str = "4b825dc642cb6eb9a060e54bf8d69288fbee4904";
const PARENT: &str = "1111111111111111111111111111111111111111";

fn id(h: &str) -> ObjectId {
    ObjectId::from_hex(h).unwrap()
}

fn commit_payload() -> Vec<u8> {
    format!(
        "tree {TREE}\nparent {PARENT}\nauthor A U Thor <a@x> 10 +0000\ncommitter C O Mitter <c@x> 20 +0130\n\nsubject\n\nbody\n"
    )
    .into_bytes()
}

fn tree_payload() -> Vec<u8> {
    let mut v = Vec::new();
    v.extend_from_slice(b"100644 a.txt\0");
    v.extend_from_slice(&[0xaa; 20]);
    v.extend_from_slice(b"40000 dir\0");
    v.extend_from_slice(&[0xbb; 20]);
    v.extend_from_slice(b"160000 sub\0");
    v.extend_from_slice(&[0xcc; 20]);
    v
}

#[test]
fn kind_values_and_names() {
    assert_eq!(object_kind_discriminant(ObjectKind::Commit), 0);
    assert_eq!(object_kind_discriminant(ObjectKind::Tag), 3);
    assert_eq!(kind_from_value(1).unwrap(), ObjectKind::Tree);
    let e = kind_from_value(7).unwrap_err();
    assert_eq!(e.class, ErrorClass::ValueError);
    assert_eq!(e.message, "invalid ObjectKind value: 7");
    let e = kind_from_value(-3).unwrap_err();
    assert_eq!(e.message, "invalid ObjectKind value: -3");
    assert_eq!(kind_name(ObjectKind::Blob), "blob");
    assert_eq!(mode_to_kind(0o040000), ObjectKind::Tree);
    assert_eq!(mode_to_kind(0o160000), ObjectKind::Commit);
    assert_eq!(mode_to_kind(0o100755), ObjectKind::Blob);
}

#[test]
fn commit_parses_fields_and_exact_message() {
    let c = Commit::from_bytes(id(PARENT), &commit_payload()).unwrap();
    assert_eq!(c.tree().hex(), TREE);
    assert_eq!(c.parents().len(), 1);
    assert_eq!(c.parents()[0].hex(), PARENT);
    assert_eq!(c.author().name(), b"A U Thor".to_vec());
    assert_eq!(c.committer().when(), (20, 5400));
    assert_eq!(c.message_bytes(), b"subject\n\nbody\n".to_vec());
    assert_eq!(commit_tree(&commit_payload()).unwrap().hex(), TREE);
}

#[test]
fn objects_of_the_wrong_kind_are_refused() {
    let e = Commit::from_object(id(PARENT), ObjectKind::Blob, &commit_payload()).unwrap_err();
    assert_eq!(e.class, ErrorClass::InvalidObjectError);
    assert_eq!(e.message, format!("object {PARENT} is a blob, not a commit"));
    let e = Blob::from_object(&id(PARENT), ObjectKind::Tree, b"x".to_vec()).unwrap_err();
    assert_eq!(e.message, format!("object {PARENT} is a tree, not a blob"));
    assert_eq!(Blob::from_object(&id(PARENT), ObjectKind::Blob, b"x".to_vec()).unwrap().data(), b"x".to_vec());
}

#[test]
fn garbage_commit_is_invalid() {
    let e = Commit::from_bytes(id(PARENT), b"not a commit").unwrap_err();
    assert_eq!(e.class, ErrorClass::InvalidObjectError);
    assert!(e.message.starts_with("corrupt object: "));
    assert_eq!(e.errno, None);
}

#[test]
fn garbage_tree_carries_the_parser_text() {
    let e = Tree::from_bytes(b"100644").unwrap_err();
    assert_eq!(e.class, ErrorClass::InvalidObjectError);
    assert_eq!(e.message, "corrupt object: tree entry missing space");
    assert_eq!(e.errno, None);
}

#[test]
fn tree_entries_in_order() {
    let t = Tree::from_bytes(&tree_payload()).unwrap();
    assert_eq!(t.len(), 3);
    let mut it = t.iter();
    let a = it.next_entry().unwrap();
    assert_eq!(a.name(), b"a.txt".to_vec());
    assert_eq!(a.mode(), 0o100644);
    assert_eq!(a.kind(), ObjectKind::Blob);
    assert_eq!(a.id().raw(), vec![0xaa; 20]);
    let d = it.next_entry().unwrap();
    assert_eq!(d.kind(), ObjectKind::Tree);
    let s = it.next_entry().unwrap();
    assert_eq!(s.kind(), ObjectKind::Commit);
    assert!(it.next_entry().is_none());
    assert!(it.next_entry().is_none());
}

#[test]
fn tag_parses() {
    let payload = format!("object {PARENT}\ntype commit\ntag v1\ntagger T <t@x> 5 +0000\n\nrelease\n");
    let t = Tag::from_bytes(payload.as_bytes()).unwrap();
    assert_eq!(t.target().hex(), PARENT);
    assert_eq!(t.name(), b"v1".to_vec());
    assert_eq!(t.tagger().unwrap().email(), b"t@x".to_vec());
    assert_eq!(t.message_bytes(), b"release\n".to_vec());
}

#[test]
fn commit_payload_is_byte_exact() {
    let me = Signature::new(b"Ada".to_vec(), b"ada@example.com".to_vec(), (1718000000, 0)).unwrap();
    let parents = vec![id(PARENT)];
    let bytes = create_commit_payload(&id(TREE), &parents, b"init\n".to_vec(), Some(&me), Some(&me), None, None, None)
        .unwrap();
    let expected = format!(
        "tree {TREE}\nparent {PARENT}\nauthor Ada <ada@example.com> 1718000000 +0000\ncommitter Ada <ada@example.com> 1718000000 +0000\n\ninit\n"
    );
    assert_eq!(bytes, expected.into_bytes());
}

#[test]
fn commit_payload_with_raw_identities_and_encoding() {
    let bytes = create_commit_payload(
        &id(TREE),
        &vec![],
        b"m".to_vec(),
        None,
        None,
        Some(b"X <x> 1 +0000".to_vec()),
        Some(b"Y <y> 2 -0200".to_vec()),
        Some("ISO-8859-1".to_string()),
    )
    .unwrap();
    let expected =
        format!("tree {TREE}\nauthor X <x> 1 +0000\ncommitter Y <y> 2 -0200\nencoding ISO-8859-1\n\nm");
    assert_eq!(bytes, expected.into_bytes());
}

#[test]
fn commit_payload_needs_each_identity_once() {
    let e = create_commit_payload(&id(TREE), &vec![], b"m".to_vec(), None, None, None, Some(b"Y".to_vec()), None)
        .unwrap_err();
    assert_eq!(e.class, ErrorClass::ValueError);
    assert_eq!(e.message, "author= or author_raw= is required");
}

#[test]
fn tag_payload_is_byte_exact() {
    let me = Signature::new(b"T".to_vec(), b"t@x".to_vec(), (5, 0)).unwrap();
    let bytes =
        create_tag_payload(&id(PARENT), ObjectKind::Commit, b"v1".to_vec(), b"release\n\n\n".to_vec(), Some(&me), None)
            .unwrap();
    let expected = format!("object {PARENT}\ntype commit\ntag v1\ntagger T <t@x> 5 +0000\n\nrelease\n");
    assert_eq!(bytes, expected.into_bytes());
}

#[test]
fn tag_payload_without_tagger_or_message() {
    let bytes = create_tag_payload(&id(TREE), ObjectKind::Tree, b"t".to_vec(), b"".to_vec(), None, None).unwrap();
    assert_eq!(bytes, format!("object {TREE}\ntype tree\ntag t\n\n").into_bytes());
}

#[test]
fn tag_payload_rejects_bad_fields() {
    let e = create_tag_payload(&id(TREE), ObjectKind::Tree, b"a\nb".to_vec(), b"".to_vec(), None, None).unwrap_err();
    assert_eq!(e.class, ErrorClass::ValueError);
    assert_eq!(e.message, "tag name must not contain NUL, newline, or carriage return");
    let e = create_tag_payload(&id(TREE), ObjectKind::Tree, vec![0xff], b"".to_vec(), None, None).unwrap_err();
    assert_eq!(e.message, "tag name must be valid UTF-8");
    let e = create_tag_payload(&id(TREE), ObjectKind::Tree, b"t".to_vec(), vec![0xc3], None, None).unwrap_err();
    assert_eq!(e.message, "tag message must be valid UTF-8");
    let e = create_tag_payload(&id(TREE), ObjectKind::Tree, b"t".to_vec(), b"".to_vec(), None, Some(vec![0xff]))
        .unwrap_err();
    assert_eq!(e.message, "tagger must be valid UTF-8");
}

#[test]
fn revwalk_orders() {
    let p = plan_revwalk(None, false).unwrap();
    assert_eq!(p.ordering, WalkOrder::Date);
    assert!(!p.reverse);
    let p = plan_revwalk(Some("reverse"), true).unwrap();
    assert_eq!(p.ordering, WalkOrder::Date);
    assert!(p.reverse && p.first_parent);
    assert_eq!(plan_revwalk(Some("topo"), false).unwrap().ordering, WalkOrder::Topo);
    assert_eq!(plan_revwalk(Some("date-order"), false).unwrap().ordering, WalkOrder::DateOrder);
    let e = plan_revwalk(Some("random"), false).unwrap_err();
    assert_eq!(e.class, ErrorClass::ValueError);
    assert_eq!(
        e.message,
        "unknown order: \"random\" (expected one of: 'date', 'date-order', 'topo', 'reverse')"
    );
}

#[test]
fn diff_sides_peel_to_trees() {
    assert_eq!(diff_tree_of(&id(PARENT), ObjectKind::Tree, b"").unwrap().hex(), PARENT);
    assert_eq!(diff_tree_of(&id(PARENT), ObjectKind::Commit, &commit_payload()).unwrap().hex(), TREE);
    let e = diff_tree_of(&id(PARENT), ObjectKind::Blob, b"").unwrap_err();
    assert_eq!(e.class, ErrorClass::InvalidObjectError);
    assert_eq!(e.message, format!("object {PARENT} is a blob, cannot diff (expected a commit or tree)"));
}
