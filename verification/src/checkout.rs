//! Working-tree checkout (a non-destructive overlay): which paths a tree lays
//! down, and how a checkout failure is reported.

use vstd::prelude::*;
use vstd::utf8::*;
use crate::error::{BindingError, ErrorClass, error_of};
use crate::objects::{ObjectKind, Tree, TreeEntryParse, mode_kind, parse_failure, tree_parse};
use crate::oid::ObjectId;
use crate::text::{concat3, hex_lower, utf8_to_string};

verus! {

/// A checkout failure.
#[derive(Debug)]
pub enum CheckoutError {
    /// The id (as hex) of an object that should have been a tree.
    NotATree(String),
    /// A path that is not UTF-8 (the work-tree writer takes text paths).
    NonUtf8Path,
    /// A work-tree path that exists and would be overwritten.
    Clobber(String),
    /// A grit-lib failure, already mapped to the error raised for it.
    Grit(BindingError),
}

/// The error raised for a checkout failure: a non-tree is an invalid object,
/// a non-UTF-8 path a value error, an existing path a file-exists error.
pub fn checkout_error_to_binding(e: CheckoutError) -> (res: BindingError)
    ensures
        match e {
            CheckoutError::NotATree(h) => res.class == ErrorClass::InvalidObjectError && res.message@
                == "object "@ + h@ + " is not a tree"@,
            CheckoutError::NonUtf8Path => res.class == ErrorClass::ValueError && res.message@
                == "checkout path is not valid UTF-8 (unsupported by the worktree primitive)"@,
            CheckoutError::Clobber(p) => res.class == ErrorClass::FileExistsError && res.message@
                == "refusing to overwrite existing work-tree path '"@ + p@ + "' (pass force=True)"@,
            CheckoutError::Grit(b) => res == b,
        },
{
    match e {
        CheckoutError::NotATree(h) => error_of(
            ErrorClass::InvalidObjectError,
            concat3("object ", h.as_str(), " is not a tree"),
        ),
        CheckoutError::NonUtf8Path => error_of(
            ErrorClass::ValueError,
            String::from_str("checkout path is not valid UTF-8 (unsupported by the worktree primitive)"),
        ),
        CheckoutError::Clobber(p) => error_of(
            ErrorClass::FileExistsError,
            concat3("refusing to overwrite existing work-tree path '", p.as_str(), "' (pass force=True)"),
        ),
        CheckoutError::Grit(b) => b,
    }
}

/// A checkout needs a work tree: a bare repository has none.
pub fn require_work_tree(has_work_tree: bool) -> (res: Result<(), BindingError>)
    ensures
        res is Ok <==> has_work_tree,
        res matches Err(e) ==> e.class == ErrorClass::RepositoryError && e.message@
            == "cannot checkout into a bare repository (no work tree)"@,
{
    if has_work_tree {
        Ok(())
    } else {
        Err(error_of(
            ErrorClass::RepositoryError,
            String::from_str("cannot checkout into a bare repository (no work tree)"),
        ))
    }
}

/// What one entry of a tree contributes to a checkout.
#[derive(Debug)]
pub enum CheckoutItem {
    /// A blob (regular, executable or symlink) to write at a relative path.
    File { rel: String, oid: ObjectId, mode: u32 },
    /// A sub-tree to walk, whose entries live under a relative path.
    Subtree { rel: String, oid: ObjectId },
}

/// The model of a checkout item.
pub ghost enum CheckoutItemView {
    File(Seq<char>, Seq<u8>, u32),
    Subtree(Seq<char>, Seq<u8>),
}

/// The model of a list of items.
pub open spec fn items_view(v: Seq<CheckoutItem>) -> Seq<CheckoutItemView> {
    v.map_values(
        |i: CheckoutItem|
            match i {
                CheckoutItem::File { rel, oid, mode } => CheckoutItemView::File(rel@, oid@, mode),
                CheckoutItem::Subtree { rel, oid } => CheckoutItemView::Subtree(rel@, oid@),
            },
    )
}

/// The relative path of an entry under a prefix (`prefix/name`, or just the
/// name at the top).
pub open spec fn join_rel(prefix: Seq<char>, name: Seq<char>) -> Seq<char> {
    if prefix.len() == 0 {
        name
    } else {
        prefix + "/"@ + name
    }
}

/// The items a list of entries contributes: sub-trees are walked, gitlinks
/// (submodule pointers) are skipped, and everything else is a file.
pub open spec fn tree_items(prefix: Seq<char>, entries: Seq<TreeEntryParse>) -> Seq<CheckoutItemView>
    decreases entries.len(),
{
    if entries.len() == 0 {
        Seq::empty()
    } else {
        let e = entries.last();
        let rest = tree_items(prefix, entries.drop_last());
        let rel = join_rel(prefix, decode_utf8(e.name));
        match mode_kind(e.mode) {
            ObjectKind::Tree => rest.push(CheckoutItemView::Subtree(rel, e.oid)),
            ObjectKind::Commit => rest,
            _ => rest.push(CheckoutItemView::File(rel, e.oid, e.mode)),
        }
    }
}

/// How many leading entries have UTF-8 names.
pub open spec fn utf8_run(entries: Seq<TreeEntryParse>) -> nat
    decreases entries.len(),
{
    if entries.len() == 0 || !valid_utf8(entries[0].name) {
        0
    } else {
        1 + utf8_run(entries.drop_first())
    }
}

proof fn lemma_utf8_run(entries: Seq<TreeEntryParse>, i: int)
    requires
        0 <= i <= entries.len(),
        forall|j: int| 0 <= j < i ==> valid_utf8(#[trigger] entries[j].name),
        i == entries.len() || !valid_utf8(entries[i].name),
    ensures
        utf8_run(entries) == i,
    decreases i,
{
    if i > 0 {
        let rest = entries.drop_first();
        assert forall|j: int| 0 <= j < i - 1 implies valid_utf8(#[trigger] rest[j].name) by {
            assert(rest[j] == entries[j + 1]);
        }
        if i < entries.len() {
            assert(rest[i - 1] == entries[i]);
        }
        lemma_utf8_run(rest, i - 1);
        assert(valid_utf8(entries[0].name));
    }
}

/// One step of a checkout walk: the items of the tree read for `id` under
/// `prefix`, in entry order. The object must be a tree. The walk stops at
/// the first entry whose name is not UTF-8: the items before it are returned
/// with `true`, and the caller fails with [`CheckoutError::NonUtf8Path`] once
/// it has handled them.
pub fn expand_tree(prefix: &str, id: &ObjectId, kind: ObjectKind, data: &[u8]) -> (res: Result<
    (Vec<CheckoutItem>, bool),
    CheckoutError,
>)
    ensures
        kind != ObjectKind::Tree ==> (res matches Err(CheckoutError::NotATree(h)) && h@ == hex_lower(id@)),
        kind == ObjectKind::Tree ==> {
            &&& (tree_parse(data@) is Err <==> res is Err)
            &&& tree_parse(data@) is Err ==> (res matches Err(CheckoutError::Grit(b)) && parse_failure(
                tree_parse(data@),
                b,
            ))
            &&& res matches Ok((items, stopped)) ==> {
                let es = tree_parse(data@)->Ok_0;
                &&& items_view(items@) == tree_items(prefix@, es.take(utf8_run(es) as int))
                &&& stopped == (utf8_run(es) < es.len())
            }
        },
{
    if kind != ObjectKind::Tree {
        return Err(CheckoutError::NotATree(id.hex()));
    }
    let tree = match Tree::from_bytes(data) {
        Ok(t) => t,
        Err(e) => return Err(CheckoutError::Grit(e)),
    };
    let ghost es = tree@;
    let mut it = tree.iter();
    let mut items: Vec<CheckoutItem> = Vec::new();
    let mut i: usize = 0;
    let n = tree.len();
    while i < n
        invariant
            0 <= i <= n,
            n == es.len(),
            kind == ObjectKind::Tree,
            tree_parse(data@) is Ok && tree_parse(data@)->Ok_0 == es,
            it@ == (es, i as int),
            forall|j: int| 0 <= j < i ==> valid_utf8(#[trigger] es[j].name),
            items_view(items@) == tree_items(prefix@, es.take(i as int)),
        decreases n - i,
    {
        let e = it.next_entry().unwrap();
        let name = match utf8_to_string(e.name()) {
            Some(s) => s,
            None => {
                proof {
                    lemma_utf8_run(es, i as int);
                }
                return Ok((items, true));
            },
        };
        let rel = if prefix.is_empty() {
            name
        } else {
            concat3(prefix, "/", name.as_str())
        };
        let ghost before = items_view(items@);
        let mode = e.mode();
        assert(e.spec_view() == es[i as int]);
        assert(rel@ == join_rel(prefix@, decode_utf8(es[i as int].name)));
        proof {
            assert(es.take(i as int + 1).drop_last() =~= es.take(i as int));
            assert(es.take(i as int + 1).last() == es[i as int]);
            reveal_strlit("/");
        }
        match crate::objects::mode_to_kind(mode) {
            ObjectKind::Tree => {
                items.push(CheckoutItem::Subtree { rel, oid: e.id() });
                assert(items_view(items@) =~= before.push(
                    CheckoutItemView::Subtree(join_rel(prefix@, decode_utf8(es[i as int].name)), es[i as int].oid),
                ));
            },
            ObjectKind::Commit => {},
            _ => {
                items.push(CheckoutItem::File { rel, oid: e.id(), mode });
                assert(items_view(items@) =~= before.push(
                    CheckoutItemView::File(
                        join_rel(prefix@, decode_utf8(es[i as int].name)),
                        es[i as int].oid,
                        es[i as int].mode,
                    ),
                ));
            },
        }
        i = i + 1;
    }
    proof {
        lemma_utf8_run(es, i as int);
        assert(es.take(i as int) =~= es.take(utf8_run(es) as int));
    }
    Ok((items, false))
}

/// Whether a checkout may write its files, given for each file path (in
/// walk order) whether something already exists there: with `force` always;
/// otherwise only when nothing exists, and the refusal names the first
/// existing path, so that nothing is written on a refused checkout.
pub fn refuse_clobber(rels: &Vec<String>, exists: &Vec<bool>, force: bool) -> (res: Result<(), CheckoutError>)
    requires
        exists@.len() == rels@.len(),
    ensures
        force ==> res is Ok,
        !force ==> {
            &&& (res is Ok <==> forall|i: int| 0 <= i < exists@.len() ==> !exists@[i])
            &&& res matches Err(e) ==> (e matches CheckoutError::Clobber(p) && exists|k: int|
                0 <= k < exists@.len() && exists@[k] && p@ == rels@[k]@ && forall|j: int|
                    0 <= j < k ==> !exists@[j])
        },
{
    if force {
        return Ok(());
    }
    let mut i: usize = 0;
    while i < exists.len()
        invariant
            0 <= i <= exists@.len(),
            exists@.len() == rels@.len(),
            !force,
            forall|j: int| 0 <= j < i ==> !exists@[j],
        decreases exists@.len() - i,
    {
        if exists[i] {
            let p = rels[i].clone();
            assert(0 <= i < exists@.len() && exists@[i as int] && p@ == rels@[i as int]@);
            return Err(CheckoutError::Clobber(p));
        }
        i = i + 1;
    }
    Ok(())
}

} // verus!
