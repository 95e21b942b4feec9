use pylibgrit::checkout::{checkout_error_to_binding, expand_tree, refuse_clobber, require_work_tree, CheckoutError,
    CheckoutItem};
use pylibgrit::diff::{compute_diff_stats, diff_side_bytes, side_needs_read, status_letter, Diff, DiffStatus, RawDiffEntry};
use pylibgrit::error::ErrorClass;
use pylibgrit::merge::{bytes_less, parse_favor, require_merged, tree_of_commit, MergeFavor, MergeResult};
use pylibgrit::objects::ObjectKind;
use pylibgrit::oid::ObjectId;

const A: &str = "1111111111111111111111111111111111111111";
const B: &str = "2222222222222222222222222222222222222222";

fn id(h: &str) -> ObjectId {
    ObjectId::from_hex(h).unwrap()
}

#[test]
fn status_letters() {
    assert_eq!(status_letter(DiffStatus::Added), 'A');
    assert_eq!(status_letter(DiffStatus::TypeChanged), 'T');
    assert_eq!(status_letter(DiffStatus::Unmerged), 'U');
}

#[test]
fn diff_entries_and_iteration() {
    let d = Diff::from_entries(vec![
        RawDiffEntry {
            status: DiffStatus::Added,
            old_path: None,
            new_path: Some("new.txt".to_string()),
            old_oid: id(A).zero_like(),
            new_oid: id(A),
        },
        RawDiffEntry {
            status: DiffStatus::Modified,
            old_path: Some("m.txt".to_string()),
            new_path: Some("m.txt".to_string()),
            old_oid: id(A),
            new_oid: id(B),
        },
    ]);
    assert_eq!(d.len(), 2);
    let mut it = d.iter();
    let e = it.next_entry().unwrap();
    assert_eq!(e.status(), "A");
    assert!(e.old_path().is_none());
    assert_eq!(e.new_path().unwrap(), b"new.txt".to_vec());
    assert!(e.old_id().is_zero());
    let e = it.next_entry().unwrap();
    assert_eq!(e.status(), "M");
    assert_eq!(e.new_id().hex(), B);
    assert!(it.next_entry().is_none());
    // A second iterator starts over.
    assert_eq!(d.iter().next_entry().unwrap().status(), "A");
}

#[test]
fn numstat_counts_lines_and_skips_binary() {
    let sides = vec![
        (b"a\nb\nc\n".to_vec(), b"a\nB\nc\nd\n".to_vec()),
        (Vec::new(), b"x\ny\n".to_vec()),
        (b"bin\0ary".to_vec(), b"other".to_vec()),
        (b"gone\n".to_vec(), Vec::new()),
    ];
    let s = compute_diff_stats(4, &sides);
    assert_eq!(s.files_changed(), 4);
    assert_eq!(s.insertions(), 4);
    assert_eq!(s.deletions(), 2);
}

#[test]
fn numstat_of_nothing() {
    let s = compute_diff_stats(0, &Vec::new());
    assert_eq!((s.files_changed, s.insertions, s.deletions), (0, 0, 0));
}

#[test]
fn gitlink_sides_count_as_one_line() {
    let bytes = diff_side_bytes(&id(A), Some((ObjectKind::Commit, b"tree ...".to_vec())));
    assert_eq!(bytes, format!("Subproject commit {A}\n").into_bytes());
    assert_eq!(diff_side_bytes(&id(A), Some((ObjectKind::Blob, b"data".to_vec()))), b"data".to_vec());
    let s = compute_diff_stats(1, &vec![(Vec::new(), bytes)]);
    assert_eq!((s.insertions, s.deletions), (1, 0));
}

#[test]
fn favors() {
    assert_eq!(parse_favor(None).unwrap(), MergeFavor::Neither);
    assert_eq!(parse_favor(Some("ours")).unwrap(), MergeFavor::Ours);
    assert_eq!(parse_favor(Some("theirs")).unwrap(), MergeFavor::Theirs);
    assert_eq!(parse_favor(Some("union")).unwrap(), MergeFavor::Union);
    let e = parse_favor(Some("mine")).unwrap_err();
    assert_eq!(e.class, ErrorClass::ValueError);
    assert_eq!(e.message, "favor must be None, 'ours', 'theirs', or 'union' (got \"mine\")");
}

#[test]
fn byte_order() {
    assert!(bytes_less(b"a", b"b"));
    assert!(bytes_less(b"a", b"ab"));
    assert!(!bytes_less(b"ab", b"a"));
    assert!(!bytes_less(b"a", b"a"));
    assert!(bytes_less(b"", b"a"));
    assert!(bytes_less(b"Z", b"a"));
}

#[test]
fn conflicts_are_the_sorted_union() {
    let stages = vec![
        (b"z.txt".to_vec(), 1u8),
        (b"ok.txt".to_vec(), 0u8),
        (b"z.txt".to_vec(), 2u8),
        (b"b.txt".to_vec(), 3u8),
    ];
    let markers = vec![(b"a.txt".to_vec(), id(A)), (b"z.txt".to_vec(), id(B))];
    let r = MergeResult::from_output(&stages, markers);
    assert!(r.has_conflicts());
    assert_eq!(r.conflicts(), vec![b"a.txt".to_vec(), b"b.txt".to_vec(), b"z.txt".to_vec()]);
    assert_eq!(r.conflict_blob(b"z.txt").unwrap().hex(), B);
    assert!(r.conflict_blob(b"b.txt").is_none());
}

#[test]
fn clean_merge_has_no_conflicts() {
    let r = MergeResult::from_output(&vec![(b"a".to_vec(), 0u8)], Vec::new());
    assert!(!r.has_conflicts());
    assert!(r.conflicts().is_empty());
    assert!(require_merged(false).is_ok());
    let e = require_merged(true).unwrap_err();
    assert_eq!(e.class, ErrorClass::RepositoryError);
    assert_eq!(e.message, "cannot write tree: index has unmerged (conflicted) entries");
}

#[test]
fn last_marker_wins() {
    let r = MergeResult::from_output(&Vec::new(), vec![(b"p".to_vec(), id(A)), (b"p".to_vec(), id(B))]);
    assert_eq!(r.conflicts(), vec![b"p".to_vec()]);
    assert_eq!(r.conflict_blob(b"p").unwrap().hex(), B);
}

#[test]
fn merge_sides_must_be_commits() {
    let e = tree_of_commit(&id(A), ObjectKind::Tag, b"").unwrap_err();
    assert_eq!(e.class, ErrorClass::InvalidObjectError);
    assert_eq!(e.message, format!("corrupt object: object {A} is a tag, not a commit"));
    let c = format!("tree {B}\nauthor a <a> 1 +0000\ncommitter c <c> 1 +0000\n\nm\n");
    assert_eq!(tree_of_commit(&id(A), ObjectKind::Commit, c.as_bytes()).unwrap().hex(), B);
}

fn tree_payload() -> Vec<u8> {
    let mut v = Vec::new();
    v.extend_from_slice(b"100755 run.sh\0");
    v.extend_from_slice(&[0xaa; 20]);
    v.extend_from_slice(b"40000 src\0");
    v.extend_from_slice(&[0xbb; 20]);
    v.extend_from_slice(b"160000 vendor\0");
    v.extend_from_slice(&[0xcc; 20]);
    v.extend_from_slice(b"120000 link\0");
    v.extend_from_slice(&[0xdd; 20]);
    v
}

#[test]
fn checkout_expands_a_tree() {
    let (items, stopped) = expand_tree("pkg", &id(A), ObjectKind::Tree, &tree_payload()).unwrap();
    assert!(!stopped);
    assert_eq!(items.len(), 3);
    match &items[0] {
        CheckoutItem::File { rel, mode, .. } => {
            assert_eq!(rel, "pkg/run.sh");
            assert_eq!(*mode, 0o100755);
        },
        _ => panic!("a blob entry is a file"),
    }
    match &items[1] {
        CheckoutItem::Subtree { rel, oid } => {
            assert_eq!(rel, "pkg/src");
            assert_eq!(oid.raw(), vec![0xbb; 20]);
        },
        _ => panic!("a tree entry is walked"),
    }
    match &items[2] {
        CheckoutItem::File { rel, mode, .. } => {
            assert_eq!(rel, "pkg/link");
            assert_eq!(*mode, 0o120000);
        },
        _ => panic!("a symlink entry is a file"),
    }
    let (top, _) = expand_tree("", &id(A), ObjectKind::Tree, &tree_payload()).unwrap();
    match &top[0] {
        CheckoutItem::File { rel, .. } => assert_eq!(rel, "run.sh"),
        _ => panic!("a blob entry is a file"),
    }
}

#[test]
fn checkout_stops_at_a_non_utf8_name() {
    let mut v = Vec::new();
    v.extend_from_slice(b"100644 ok\0");
    v.extend_from_slice(&[1; 20]);
    v.extend_from_slice(b"100644 \xff\0");
    v.extend_from_slice(&[2; 20]);
    v.extend_from_slice(b"100644 zz\0");
    v.extend_from_slice(&[3; 20]);
    let (items, stopped) = expand_tree("", &id(A), ObjectKind::Tree, &v).unwrap();
    assert!(stopped);
    assert_eq!(items.len(), 1);
    let e = checkout_error_to_binding(CheckoutError::NonUtf8Path);
    assert_eq!(e.class, ErrorClass::ValueError);
    assert_eq!(e.message, "checkout path is not valid UTF-8 (unsupported by the worktree primitive)");
}

#[test]
fn checkout_errors() {
    match expand_tree("", &id(A), ObjectKind::Blob, b"") {
        Err(CheckoutError::NotATree(h)) => assert_eq!(h, A),
        _ => panic!("a blob is not a tree"),
    }
    let e = checkout_error_to_binding(CheckoutError::NotATree(A.to_string()));
    assert_eq!(e.class, ErrorClass::InvalidObjectError);
    assert_eq!(e.message, format!("object {A} is not a tree"));
    let e = checkout_error_to_binding(CheckoutError::Clobber("a/b".to_string()));
    assert_eq!(e.class, ErrorClass::FileExistsError);
    assert_eq!(e.message, "refusing to overwrite existing work-tree path 'a/b' (pass force=True)");
    let e = require_work_tree(false).unwrap_err();
    assert_eq!(e.message, "cannot checkout into a bare repository (no work tree)");
    assert!(require_work_tree(true).is_ok());
}

#[test]
fn clobber_check_names_the_first_existing_path() {
    let rels = vec!["a".to_string(), "b/c".to_string(), "d".to_string()];
    assert!(refuse_clobber(&rels, &vec![false, true, true], true).is_ok());
    assert!(refuse_clobber(&rels, &vec![false, false, false], false).is_ok());
    match refuse_clobber(&rels, &vec![false, true, true], false) {
        Err(CheckoutError::Clobber(p)) => assert_eq!(p, "b/c"),
        _ => panic!("an existing path is refused"),
    }
}

#[test]
fn null_side_is_empty_without_a_read() {
    let zero = id("0000000000000000000000000000000000000000");
    assert!(!side_needs_read(&zero));
    assert!(side_needs_read(&id(A)));
    assert_eq!(diff_side_bytes(&zero, None), Vec::<u8>::new());
    assert_eq!(diff_side_bytes(&zero, Some((ObjectKind::Blob, b"x".to_vec()))), Vec::<u8>::new());
}

#[test]
fn corrupt_tree_stops_a_checkout_walk() {
    match expand_tree("", &id(A), ObjectKind::Tree, b"040000 sub") {
        Err(CheckoutError::Grit(e)) => {
            assert_eq!(e.class, ErrorClass::InvalidObjectError);
            assert_eq!(e.message, "corrupt object: tree entry missing NUL");
            assert_eq!(e.errno, None);
        },
        _ => panic!("expected a corrupt-tree error"),
    }
}
