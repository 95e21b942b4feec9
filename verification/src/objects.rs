//! Object kinds and typed views over parsed commit, tree, tag and blob payloads.

use vstd::prelude::*;
use vstd::utf8::encode_utf8;
use crate::text::{bytes_to_lossy_string, concat3, int_decimal, latin1, push_i64_decimal, string_bytes};
use crate::error::{BindingError, ErrorClass, error_of};
use crate::oid::{ObjectId, valid_oid_len};
use crate::signature::{Signature, SignatureView, signature_times, split_ident};

verus! {

/// The four Git object types.
#[derive(Clone, Copy, Debug, PartialEq, Eq, Structural)]
pub enum ObjectKind {
    Commit,
    Tree,
    Blob,
    Tag,
}

/// The integer value of each kind in the public `ObjectKind` enumeration.
pub open spec fn kind_value(k: ObjectKind) -> int {
    match k {
        ObjectKind::Commit => 0,
        ObjectKind::Tree => 1,
        ObjectKind::Blob => 2,
        ObjectKind::Tag => 3,
    }
}

/// The keyword Git writes for each kind in object headers.
pub open spec fn kind_keyword(k: ObjectKind) -> Seq<char> {
    match k {
        ObjectKind::Commit => "commit"@,
        ObjectKind::Tree => "tree"@,
        ObjectKind::Blob => "blob"@,
        ObjectKind::Tag => "tag"@,
    }
}

/// The integer value of a kind in the public `ObjectKind` enumeration.
pub fn object_kind_discriminant(k: ObjectKind) -> (res: i32)
    ensures
        res as int == kind_value(k),
{
    match k {
        ObjectKind::Commit => 0,
        ObjectKind::Tree => 1,
        ObjectKind::Blob => 2,
        ObjectKind::Tag => 3,
    }
}

/// The message for an integer that names no object kind.
pub open spec fn invalid_kind_message(v: int) -> Seq<char> {
    "invalid ObjectKind value: "@ + latin1(int_decimal(v))
}

/// The kind an `ObjectKind` integer value names; a value error for any other integer.
pub fn kind_from_value(v: i32) -> (res: Result<ObjectKind, BindingError>)
    ensures
        (0 <= v <= 3) <==> res is Ok,
        res matches Ok(k) ==> kind_value(k) == v,
        res matches Err(e) ==> e.class == ErrorClass::ValueError && e.message@
            == invalid_kind_message(v as int),
{
    match v {
        0 => Ok(ObjectKind::Commit),
        1 => Ok(ObjectKind::Tree),
        2 => Ok(ObjectKind::Blob),
        3 => Ok(ObjectKind::Tag),
        _ => {
            let mut digits: Vec<u8> = Vec::new();
            push_i64_decimal(v as i64, &mut digits);
            let d = bytes_to_lossy_string(digits.as_slice());
            let mut m = String::from_str("invalid ObjectKind value: ");
            m.append(d.as_str());
            proof {
                reveal_strlit("invalid ObjectKind value: ");
                assert(digits@ =~= int_decimal(v as int));
            }
            Err(error_of(ErrorClass::ValueError, m))
        },
    }
}

/// The keyword Git writes for a kind (`"commit"`, `"tree"`, `"blob"`, `"tag"`).
pub fn kind_name(k: ObjectKind) -> (res: &'static str)
    ensures
        res@ == kind_keyword(k),
{
    match k {
        ObjectKind::Commit => "commit",
        ObjectKind::Tree => "tree",
        ObjectKind::Blob => "blob",
        ObjectKind::Tag => "tag",
    }
}

/// The kind of object a tree entry's mode refers to: a sub-tree for `040000`,
/// a commit for a gitlink (`160000`), a blob for everything else.
pub open spec fn mode_kind(mode: u32) -> ObjectKind {
    if mode == 0o040000 {
        ObjectKind::Tree
    } else if mode == 0o160000 {
        ObjectKind::Commit
    } else {
        ObjectKind::Blob
    }
}

/// The kind of object a tree entry's mode refers to (see [`mode_kind`]).
pub fn mode_to_kind(mode: u32) -> (res: ObjectKind)
    ensures
        res == mode_kind(mode),
{
    if mode == 0o040000 {
        ObjectKind::Tree
    } else if mode == 0o160000 {
        ObjectKind::Commit
    } else {
        ObjectKind::Blob
    }
}

/// The message raised when an object is not of the requested kind.
pub open spec fn wrong_kind_message(hex: Seq<char>, got: ObjectKind, want: Seq<char>) -> Seq<char> {
    "object "@ + hex + " is a "@ + kind_keyword(got) + ", not a "@ + want
}

/// Checks that an object read for `id` has the requested kind; an invalid-object
/// error naming both kinds otherwise.
pub fn expect_kind(id: &ObjectId, got: ObjectKind, want: ObjectKind) -> (res: Result<(), BindingError>)
    ensures
        res is Ok <==> got == want,
        res matches Err(e) ==> e.class == ErrorClass::InvalidObjectError && e.message@
            == wrong_kind_message(crate::text::hex_lower(id@), got, kind_keyword(want)),
{
    if got == want {
        return Ok(());
    }
    let h = id.hex();
    let mut m = concat3("object ", h.as_str(), " is a ");
    m.append(kind_name(got));
    m.append(", not a ");
    m.append(kind_name(want));
    proof {
        reveal_strlit("object ");
        reveal_strlit(" is a ");
        reveal_strlit(", not a ");
    }
    Err(error_of(ErrorClass::InvalidObjectError, m))
}

// ---------------------------------------------------------------------------
// Commits

/// A commit as grit-lib's `parse_commit` returns it, as plain values.
pub ghost struct CommitParse {
    pub tree: Seq<u8>,
    pub parents: Seq<Seq<u8>>,
    pub author: Seq<char>,
    pub committer: Seq<char>,
    pub author_raw: Seq<u8>,
    pub committer_raw: Seq<u8>,
    pub encoding: Option<Seq<char>>,
    pub message: Seq<char>,
    pub raw_message: Option<Seq<u8>>,
}

/// The result of grit-lib's `objects::parse_commit` on a payload: the parsed
/// commit, or the text (`Display`) of the error it fails with.
pub uninterp spec fn commit_parse(data: Seq<u8>) -> Result<CommitParse, Seq<char>>;

/// Whether `e` is the invalid-object error for a payload that failed to
/// parse: it carries the parser's error text and no errno.
pub open spec fn parse_failure<T>(parsed: Result<T, Seq<char>>, e: BindingError) -> bool {
    &&& parsed matches Err(m)
    &&& e.class == ErrorClass::InvalidObjectError
    &&& e.errno is None
    &&& e.message@ == parsed->Err_0
}

/// The fields of a parsed commit, as plain values.
pub struct RawCommit {
    pub tree: Vec<u8>,
    pub parents: Vec<Vec<u8>>,
    pub author: String,
    pub committer: String,
    pub author_raw: Vec<u8>,
    pub committer_raw: Vec<u8>,
    pub encoding: Option<String>,
    pub message: String,
    pub raw_message: Option<Vec<u8>>,
}

/// The abstract value of a [`RawCommit`].
pub open spec fn raw_commit_view(c: RawCommit) -> CommitParse {
    CommitParse {
        tree: c.tree@,
        parents: c.parents@.map_values(|p: Vec<u8>| p@),
        author: c.author@,
        committer: c.committer@,
        author_raw: c.author_raw@,
        committer_raw: c.committer_raw@,
        encoding: match c.encoding {
            Some(e) => Some(e@),
            None => None,
        },
        message: c.message@,
        raw_message: match c.raw_message {
            Some(m) => Some(m@),
            None => None,
        },
    }
}

/// Parses a commit payload with grit-lib's `objects::parse_commit`.
///
/// Claims the result, and the text of the error (every message grit-lib's
/// source builds for it comes from the payload alone), is a function of the
/// payload, and what grit-lib's source shows of its object ids: the tree and
/// every parent are 20 or 32 bytes.
#[verifier::external_body]
fn grit_parse_commit(data: &[u8]) -> (res: Result<RawCommit, String>)
    ensures
        res is Ok <==> commit_parse(data@) is Ok,
        res matches Ok(c) ==> commit_parse(data@)->Ok_0 == raw_commit_view(c),
        res matches Err(m) ==> commit_parse(data@)->Err_0 == m@,
        res matches Ok(c) ==> valid_oid_len(c.tree@.len()) && forall|i: int|
            0 <= i < c.parents@.len() ==> valid_oid_len(#[trigger] c.parents@[i]@.len()),
{
    let c = match grit_lib::objects::parse_commit(data) {
        Ok(c) => c,
        Err(e) => return Err(e.to_string()),
    };
    Ok(RawCommit {
        tree: c.tree.as_bytes().to_vec(),
        parents: c.parents.iter().map(|p| p.as_bytes().to_vec()).collect(),
        author: c.author,
        committer: c.committer,
        author_raw: c.author_raw,
        committer_raw: c.committer_raw,
        encoding: c.encoding,
        message: c.message,
        raw_message: c.raw_message,
    })
}

/// The exact message body of a parsed commit: the raw bytes when grit-lib kept
/// them, else the decoded message's UTF-8 bytes.
pub open spec fn commit_body(p: CommitParse) -> Seq<u8> {
    match p.raw_message {
        Some(m) => m,
        None => encode_utf8(p.message),
    }
}

/// The abstract value of a commit.
pub ghost struct CommitView {
    pub id: Seq<u8>,
    pub tree: Seq<u8>,
    pub parents: Seq<Seq<u8>>,
    pub author: SignatureView,
    pub committer: SignatureView,
    pub message: Seq<u8>,
}

/// What a commit view holds for a parsed payload: ids as parsed, signatures
/// split from the raw header bytes with times from the decoded headers, and
/// the exact message body.
pub open spec fn commit_matches_parse(v: CommitView, id: Seq<u8>, p: CommitParse) -> bool {
    &&& v.id == id
    &&& v.tree == p.tree
    &&& v.parents == p.parents
    &&& signature_matches(v.author, p.author_raw, p.author)
    &&& signature_matches(v.committer, p.committer_raw, p.committer)
    &&& v.message == commit_body(p)
}

/// Law: a commit read from a payload keeps the parents the parser read, in
/// header order: it has as many parents as `parent` headers, and its `i`-th
/// parent is the `i`-th header's id (the first parent first).
pub proof fn law_commit_parents_in_order(c: CommitView, id: Seq<u8>, data: Seq<u8>)
    requires
        commit_parse(data) is Ok,
        commit_matches_parse(c, id, commit_parse(data)->Ok_0),
    ensures
        c.parents.len() == commit_parse(data)->Ok_0.parents.len(),
        forall|i: int|
            0 <= i < c.parents.len() ==> #[trigger] c.parents[i] == commit_parse(data)->Ok_0.parents[i],
        c.parents.len() > 0 ==> c.parents[0] == commit_parse(data)->Ok_0.parents[0],
{
}

/// What a signature parsed from raw header bytes and ident text holds.
pub open spec fn signature_matches(s: SignatureView, raw: Seq<u8>, ident: Seq<char>) -> bool {
    &&& (s.name, s.email) == split_ident(raw)
    &&& match signature_times(ident) {
        Some(t) => s.when_secs == t.0 && s.when_offset == t.1,
        None => s.when_secs == 0 && s.when_offset == 0,
    }
}

/// A parsed commit: its own id, tree, parents, author, committer and message bytes.
#[derive(Debug)]
pub struct Commit {
    id: ObjectId,
    tree: ObjectId,
    parents: Vec<ObjectId>,
    author: Signature,
    committer: Signature,
    message: Vec<u8>,
}

/// The digests of a list of ids.
pub open spec fn oids_view(v: Seq<ObjectId>) -> Seq<Seq<u8>> {
    v.map_values(|o: ObjectId| o@)
}

/// Copies a list of ids.
pub fn copy_oids(v: &Vec<ObjectId>) -> (res: Vec<ObjectId>)
    ensures
        oids_view(res@) == oids_view(v@),
{
    let mut out: Vec<ObjectId> = Vec::new();
    let mut i: usize = 0;
    while i < v.len()
        invariant
            0 <= i <= v@.len(),
            out@.len() == i,
            forall|k: int| 0 <= k < i ==> #[trigger] out@[k]@ == v@[k]@,
        decreases v@.len() - i,
    {
        out.push(v[i].copy());
        i = i + 1;
    }
    assert(oids_view(out@) =~= oids_view(v@));
    out
}

fn oids_from_bytes(v: Vec<Vec<u8>>) -> (res: Vec<ObjectId>)
    requires
        forall|i: int| 0 <= i < v@.len() ==> valid_oid_len(#[trigger] v@[i]@.len()),
    ensures
        oids_view(res@) == v@.map_values(|p: Vec<u8>| p@),
{
    let mut out: Vec<ObjectId> = Vec::new();
    let mut i: usize = 0;
    while i < v.len()
        invariant
            0 <= i <= v@.len(),
            forall|k: int| 0 <= k < v@.len() ==> valid_oid_len(#[trigger] v@[k]@.len()),
            out@.len() == i,
            forall|k: int| 0 <= k < i ==> #[trigger] out@[k]@ == v@[k]@,
        decreases v@.len() - i,
    {
        let o = ObjectId::from_raw(v[i].as_slice());
        assert(valid_oid_len(v@[i as int]@.len()));
        let o = o.unwrap();
        out.push(o);
        i = i + 1;
    }
    assert(oids_view(out@) =~= v@.map_values(|p: Vec<u8>| p@));
    out
}

impl View for Commit {
    type V = CommitView;

    closed spec fn view(&self) -> CommitView {
        CommitView {
            id: self.id@,
            tree: self.tree@,
            parents: oids_view(self.parents@),
            author: self.author@,
            committer: self.committer@,
            message: self.message@,
        }
    }
}

impl Commit {
    /// Parses a commit payload (the body of an object database read), tagging
    /// it with its own id. A payload grit-lib cannot parse is an invalid object.
    pub fn from_bytes(id: ObjectId, data: &[u8]) -> (res: Result<Commit, BindingError>)
        ensures
            res is Ok <==> commit_parse(data@) is Ok,
            res matches Ok(c) ==> commit_matches_parse(c@, id@, commit_parse(data@)->Ok_0),
            res matches Err(e) ==> parse_failure(commit_parse(data@), e),
    {
        match grit_parse_commit(data) {
            Err(m) => {
                // parse_commit fails only with CorruptObject or InvalidObjectId,
                // both of which are invalid-object errors.
                Err(error_of(ErrorClass::InvalidObjectError, m))
            },
            Ok(c) => {
                let RawCommit {
                    tree,
                    parents,
                    author,
                    committer,
                    author_raw,
                    committer_raw,
                    encoding: _,
                    message,
                    raw_message,
                } = c;
                let tree = ObjectId::from_vec(tree).unwrap();
                let parents = oids_from_bytes(parents);
                let author = Signature::parse(author_raw.as_slice(), author.as_str());
                let committer = Signature::parse(committer_raw.as_slice(), committer.as_str());
                let message = match raw_message {
                    Some(m) => m,
                    None => string_bytes(&message),
                };
                Ok(Commit { id, tree, parents, author, committer, message })
            },
        }
    }

    /// A commit read from the object database: the object must be a commit
    /// (checked before parsing, so other objects whose bytes happen to parse
    /// are refused), then its payload is parsed.
    pub fn from_object(id: ObjectId, kind: ObjectKind, data: &[u8]) -> (res: Result<
        Commit,
        BindingError,
    >)
        ensures
            res is Ok <==> kind == ObjectKind::Commit && commit_parse(data@) is Ok,
            res matches Ok(c) ==> commit_matches_parse(c@, id@, commit_parse(data@)->Ok_0),
            res matches Err(e) ==> e.class == ErrorClass::InvalidObjectError,
            kind == ObjectKind::Commit ==> (res matches Err(e) ==> parse_failure(commit_parse(data@), e)),
            kind != ObjectKind::Commit ==> (res matches Err(e) && e.message@ == wrong_kind_message(
                crate::text::hex_lower(id@),
                kind,
                "commit"@,
            )),
    {
        match expect_kind(&id, kind, ObjectKind::Commit) {
            Err(e) => Err(e),
            Ok(()) => Commit::from_bytes(id, data),
        }
    }

    /// This commit's own id.
    pub fn id(&self) -> (res: ObjectId)
        ensures
            res@ == self@.id,
    {
        self.id.copy()
    }

    /// The tree this commit points to.
    pub fn tree(&self) -> (res: ObjectId)
        ensures
            res@ == self@.tree,
    {
        self.tree.copy()
    }

    /// Parent commit ids (none for a root commit, two or more for a merge).
    pub fn parents(&self) -> (res: Vec<ObjectId>)
        ensures
            oids_view(res@) == self@.parents,
    {
        copy_oids(&self.parents)
    }

    /// The author.
    pub fn author(&self) -> (res: &Signature)
        ensures
            res@ == self@.author,
    {
        &self.author
    }

    /// The committer.
    pub fn committer(&self) -> (res: &Signature)
        ensures
            res@ == self@.committer,
    {
        &self.committer
    }

    /// The raw message bytes (the payload after the header's blank line).
    pub fn message_bytes(&self) -> (res: Vec<u8>)
        ensures
            res@ == self@.message,
    {
        self.message.clone()
    }
}

/// The tree id of a commit payload: how a commit is reduced to its tree for
/// diffs and merges.
pub fn commit_tree(data: &[u8]) -> (res: Result<ObjectId, BindingError>)
    ensures
        res is Ok <==> commit_parse(data@) is Ok,
        res matches Ok(t) ==> t@ == commit_parse(data@)->Ok_0.tree,
        res matches Err(e) ==> parse_failure(commit_parse(data@), e),
{
    match grit_parse_commit(data) {
        Err(m) => Err(error_of(ErrorClass::InvalidObjectError, m)),
        Ok(c) => Ok(ObjectId::from_vec(c.tree).unwrap()),
    }
}

// ---------------------------------------------------------------------------
// Trees

/// One tree entry as grit-lib's `parse_tree` returns it, as plain values.
pub ghost struct TreeEntryParse {
    pub mode: u32,
    pub name: Seq<u8>,
    pub oid: Seq<u8>,
}

/// The result of grit-lib's `objects::parse_tree` on a payload: its entries,
/// or the text (`Display`) of the error it fails with.
pub uninterp spec fn tree_parse(data: Seq<u8>) -> Result<Seq<TreeEntryParse>, Seq<char>>;

/// Parses a tree payload with grit-lib's `objects::parse_tree`, returning
/// `(mode, name, oid bytes)` per entry.
///
/// Claims the result, and the text of the error (every message grit-lib's
/// source builds for it comes from the payload alone), is a function of the
/// payload, and what grit-lib's source shows of its object ids: each is 20 or
/// 32 bytes.
#[verifier::external_body]
fn grit_parse_tree(data: &[u8]) -> (res: Result<Vec<(u32, Vec<u8>, Vec<u8>)>, String>)
    ensures
        res is Ok <==> tree_parse(data@) is Ok,
        res matches Ok(v) ==> tree_parse(data@)->Ok_0 == v@.map_values(
            |e: (u32, Vec<u8>, Vec<u8>)| TreeEntryParse { mode: e.0, name: e.1@, oid: e.2@ },
        ),
        res matches Ok(v) ==> forall|i: int|
            0 <= i < v@.len() ==> valid_oid_len(#[trigger] v@[i].2@.len()),
        res matches Err(m) ==> tree_parse(data@)->Err_0 == m@,
{
    match grit_lib::objects::parse_tree(data) {
        Ok(entries) => Ok(entries.into_iter().map(|e| (e.mode, e.name, e.oid.as_bytes().to_vec())).collect()),
        Err(e) => Err(e.to_string()),
    }
}

/// One entry of a tree: a name, a file mode and the id it refers to.
#[derive(Debug)]
pub struct TreeEntry {
    name: Vec<u8>,
    mode: u32,
    oid: ObjectId,
}

impl TreeEntry {
    pub closed spec fn spec_view(self) -> TreeEntryParse {
        TreeEntryParse { mode: self.mode, name: self.name@, oid: self.oid@ }
    }

    /// The entry name as raw bytes (no path separators).
    pub fn name(&self) -> (res: Vec<u8>)
        ensures
            res@ == self.spec_view().name,
    {
        self.name.clone()
    }

    /// The Unix file mode (e.g. `0o100644`, `0o040000` for a tree, `0o120000` for a symlink).
    pub fn mode(&self) -> (res: u32)
        ensures
            res == self.spec_view().mode,
    {
        self.mode
    }

    /// The id of the blob, sub-tree or (for a gitlink) commit the entry refers to.
    pub fn id(&self) -> (res: ObjectId)
        ensures
            res@ == self.spec_view().oid,
    {
        self.oid.copy()
    }

    /// The kind of object the entry refers to, derived from its mode.
    pub fn kind(&self) -> (res: ObjectKind)
        ensures
            res == mode_kind(self.spec_view().mode),
    {
        mode_to_kind(self.mode)
    }

    /// A copy of this entry.
    pub fn copy(&self) -> (res: TreeEntry)
        ensures
            res.spec_view() == self.spec_view(),
    {
        TreeEntry { name: self.name.clone(), mode: self.mode, oid: self.oid.copy() }
    }
}

/// The entries of a list, as abstract values.
pub open spec fn entries_view(v: Seq<TreeEntry>) -> Seq<TreeEntryParse> {
    v.map_values(|e: TreeEntry| e.spec_view())
}

/// A parsed tree: its entries in stored order.
#[derive(Debug)]
pub struct Tree {
    entries: Vec<TreeEntry>,
}

impl View for Tree {
    type V = Seq<TreeEntryParse>;

    closed spec fn view(&self) -> Seq<TreeEntryParse> {
        entries_view(self.entries@)
    }
}

fn copy_entries(v: &Vec<TreeEntry>) -> (res: Vec<TreeEntry>)
    ensures
        entries_view(res@) == entries_view(v@),
{
    let mut out: Vec<TreeEntry> = Vec::new();
    let mut i: usize = 0;
    while i < v.len()
        invariant
            0 <= i <= v@.len(),
            out@.len() == i,
            forall|k: int| 0 <= k < i ==> #[trigger] out@[k].spec_view() == v@[k].spec_view(),
        decreases v@.len() - i,
    {
        out.push(v[i].copy());
        i = i + 1;
    }
    assert(entries_view(out@) =~= entries_view(v@));
    out
}

impl Tree {
    /// Parses a tree payload (the body of an object database read). A payload
    /// grit-lib cannot parse is an invalid object, carrying grit-lib's text.
    pub fn from_bytes(data: &[u8]) -> (res: Result<Tree, BindingError>)
        ensures
            res is Ok <==> tree_parse(data@) is Ok,
            res matches Ok(t) ==> (tree_parse(data@) matches Ok(es) && es == t@),
            res matches Err(e) ==> parse_failure(tree_parse(data@), e),
    {
        match grit_parse_tree(data) {
            // parse_tree fails only with CorruptObject or InvalidObjectId.
            Err(m) => Err(error_of(ErrorClass::InvalidObjectError, m)),
            Ok(v) => {
                let mut entries: Vec<TreeEntry> = Vec::new();
                let mut i: usize = 0;
                let ghost target = v@.map_values(
                    |e: (u32, Vec<u8>, Vec<u8>)| TreeEntryParse { mode: e.0, name: e.1@, oid: e.2@ },
                );
                while i < v.len()
                    invariant
                        0 <= i <= v@.len(),
                        forall|k: int| 0 <= k < v@.len() ==> valid_oid_len(#[trigger] v@[k].2@.len()),
                        target == v@.map_values(
                            |e: (u32, Vec<u8>, Vec<u8>)| TreeEntryParse { mode: e.0, name: e.1@, oid: e.2@ },
                        ),
                        entries@.len() == i,
                        forall|k: int| 0 <= k < i ==> #[trigger] entries@[k].spec_view() == target[k],
                    decreases v@.len() - i,
                {
                    let (mode, name, oid) = (v[i].0, v[i].1.clone(), &v[i].2);
                    assert(valid_oid_len(v@[i as int].2@.len()));
                    let oid = ObjectId::from_raw(oid.as_slice()).unwrap();
                    entries.push(TreeEntry { name, mode, oid });
                    i = i + 1;
                }
                assert(entries_view(entries@) =~= target);
                Ok(Tree { entries })
            },
        }
    }

    /// A tree read from the object database: the object must be a tree
    /// (checked before parsing), then its payload is parsed.
    pub fn from_object(id: &ObjectId, kind: ObjectKind, data: &[u8]) -> (res: Result<
        Tree,
        BindingError,
    >)
        ensures
            res is Ok <==> kind == ObjectKind::Tree && tree_parse(data@) is Ok,
            res matches Ok(t) ==> (tree_parse(data@) matches Ok(es) && es == t@),
            res matches Err(e) ==> e.class == ErrorClass::InvalidObjectError,
            kind == ObjectKind::Tree ==> (res matches Err(e) ==> parse_failure(tree_parse(data@), e)),
            kind != ObjectKind::Tree ==> (res matches Err(e) && e.message@ == wrong_kind_message(
                crate::text::hex_lower(id@),
                kind,
                "tree"@,
            )),
    {
        match expect_kind(id, kind, ObjectKind::Tree) {
            Err(e) => Err(e),
            Ok(()) => Tree::from_bytes(data),
        }
    }

    /// The number of entries.
    pub fn len(&self) -> (res: usize)
        ensures
            res == self@.len(),
    {
        self.entries.len()
    }

    /// An iterator over the entries, holding its own copy of them.
    pub fn iter(&self) -> (res: TreeIter)
        ensures
            res@ == (self@, 0int),
    {
        TreeIter { entries: copy_entries(&self.entries), idx: 0 }
    }
}

/// An iterator over a tree's entries.
#[derive(Debug)]
pub struct TreeIter {
    entries: Vec<TreeEntry>,
    idx: usize,
}

impl View for TreeIter {
    type V = (Seq<TreeEntryParse>, int);

    closed spec fn view(&self) -> (Seq<TreeEntryParse>, int) {
        (entries_view(self.entries@), self.idx as int)
    }
}

impl TreeIter {
    /// The next entry, or `None` once all have been yielded.
    pub fn next_entry(&mut self) -> (res: Option<TreeEntry>)
        ensures
            final(self)@.0 == old(self)@.0,
            old(self)@.1 < old(self)@.0.len() ==> (res matches Some(e) && e.spec_view() == old(
                self,
            )@.0[old(self)@.1] && final(self)@.1 == old(self)@.1 + 1),
            old(self)@.1 >= old(self)@.0.len() ==> (res is None && final(self)@.1 == old(self)@.1),
    {
        if self.idx < self.entries.len() {
            let e = self.entries[self.idx].copy();
            self.idx = self.idx + 1;
            Some(e)
        } else {
            None
        }
    }
}

// ---------------------------------------------------------------------------
// Tags

/// An annotated tag as grit-lib's `parse_tag` returns it, as plain values.
pub ghost struct TagParse {
    pub object: Seq<u8>,
    pub object_type: Seq<char>,
    pub tag: Seq<char>,
    pub tagger: Option<Seq<char>>,
    pub message: Seq<char>,
}

/// The result of grit-lib's `objects::parse_tag` on a payload: the parsed tag,
/// or the text (`Display`) of the error it fails with.
pub uninterp spec fn tag_parse(data: Seq<u8>) -> Result<TagParse, Seq<char>>;

/// The fields of a parsed tag, as plain values.
pub struct RawTag {
    pub object: Vec<u8>,
    pub object_type: String,
    pub tag: String,
    pub tagger: Option<String>,
    pub message: String,
}

/// Parses a tag payload with grit-lib's `objects::parse_tag`.
///
/// Claims the result, and the text of the error (every message grit-lib's
/// source builds for it comes from the payload alone), is a function of the
/// payload, and that the tagged id is 20 or 32 bytes, as grit-lib's source
/// shows of its object ids.
#[verifier::external_body]
fn grit_parse_tag(data: &[u8]) -> (res: Result<RawTag, String>)
    ensures
        res is Ok <==> tag_parse(data@) is Ok,
        res matches Err(m) ==> tag_parse(data@)->Err_0 == m@,
        res matches Ok(t) ==> tag_parse(data@)->Ok_0 == (
            TagParse {
                object: t.object@,
                object_type: t.object_type@,
                tag: t.tag@,
                tagger: match t.tagger {
                    Some(s) => Some(s@),
                    None => None,
                },
                message: t.message@,
            }
        ),
        res matches Ok(t) ==> valid_oid_len(t.object@.len()),
{
    let t = match grit_lib::objects::parse_tag(data) {
        Ok(t) => t,
        Err(e) => return Err(e.to_string()),
    };
    Ok(RawTag {
        object: t.object.as_bytes().to_vec(),
        object_type: t.object_type,
        tag: t.tag,
        tagger: t.tagger,
        message: t.message,
    })
}

/// The abstract value of a tag.
pub ghost struct TagView {
    pub target: Seq<u8>,
    pub name: Seq<u8>,
    pub tagger: Option<SignatureView>,
    pub message: Seq<u8>,
}

/// A parsed annotated tag: target, short name, optional tagger and message.
/// grit-lib parses tags only as UTF-8 text, so name, tagger and message are
/// the UTF-8 bytes of the decoded values.
#[derive(Debug)]
pub struct Tag {
    target: ObjectId,
    name: Vec<u8>,
    tagger: Option<Signature>,
    message: Vec<u8>,
}

impl View for Tag {
    type V = TagView;

    closed spec fn view(&self) -> TagView {
        TagView {
            target: self.target@,
            name: self.name@,
            tagger: match self.tagger {
                Some(s) => Some(s@),
                None => None,
            },
            message: self.message@,
        }
    }
}

/// What a tag view holds for a parsed payload.
pub open spec fn tag_matches_parse(v: TagView, p: TagParse) -> bool {
    &&& v.target == p.object
    &&& v.name == encode_utf8(p.tag)
    &&& v.message == encode_utf8(p.message)
    &&& match p.tagger {
        None => v.tagger is None,
        Some(ident) => v.tagger matches Some(s) && signature_matches(s, encode_utf8(ident), ident),
    }
}

impl Tag {
    /// Parses a tag payload. A payload grit-lib cannot parse (including one that
    /// is not UTF-8) is an invalid object.
    pub fn from_bytes(data: &[u8]) -> (res: Result<Tag, BindingError>)
        ensures
            res is Ok <==> tag_parse(data@) is Ok,
            res matches Ok(t) ==> tag_matches_parse(t@, tag_parse(data@)->Ok_0),
            res matches Err(e) ==> parse_failure(tag_parse(data@), e),
    {
        match grit_parse_tag(data) {
            // parse_tag fails only with CorruptObject or InvalidObjectId.
            Err(m) => Err(error_of(ErrorClass::InvalidObjectError, m)),
            Ok(t) => {
                let target = ObjectId::from_vec(t.object).unwrap();
                let name = string_bytes(&t.tag);
                let tagger = match &t.tagger {
                    Some(ident) => {
                        let raw = string_bytes(ident);
                        Some(Signature::parse(raw.as_slice(), ident.as_str()))
                    },
                    None => None,
                };
                let message = string_bytes(&t.message);
                Ok(Tag { target, name, tagger, message })
            },
        }
    }

    /// A tag read from the object database: the object must be a tag (checked
    /// before parsing), then its payload is parsed.
    pub fn from_object(id: &ObjectId, kind: ObjectKind, data: &[u8]) -> (res: Result<
        Tag,
        BindingError,
    >)
        ensures
            res is Ok <==> kind == ObjectKind::Tag && tag_parse(data@) is Ok,
            res matches Ok(t) ==> tag_matches_parse(t@, tag_parse(data@)->Ok_0),
            res matches Err(e) ==> e.class == ErrorClass::InvalidObjectError,
            kind == ObjectKind::Tag ==> (res matches Err(e) ==> parse_failure(tag_parse(data@), e)),
            kind != ObjectKind::Tag ==> (res matches Err(e) && e.message@ == wrong_kind_message(
                crate::text::hex_lower(id@),
                kind,
                "tag"@,
            )),
    {
        match expect_kind(id, kind, ObjectKind::Tag) {
            Err(e) => Err(e),
            Ok(()) => Tag::from_bytes(data),
        }
    }

    /// The object this tag points to.
    pub fn target(&self) -> (res: ObjectId)
        ensures
            res@ == self@.target,
    {
        self.target.copy()
    }

    /// The short tag name as bytes (e.g. `b"v1"`).
    pub fn name(&self) -> (res: Vec<u8>)
        ensures
            res@ == self@.name,
    {
        self.name.clone()
    }

    /// The tagger, if the tag has a tagger header.
    pub fn tagger(&self) -> (res: Option<&Signature>)
        ensures
            match res {
                Some(s) => self@.tagger == Some(s@),
                None => self@.tagger is None,
            },
    {
        match &self.tagger {
            Some(s) => Some(s),
            None => None,
        }
    }

    /// The message bytes (the payload after the header's blank line).
    pub fn message_bytes(&self) -> (res: Vec<u8>)
        ensures
            res@ == self@.message,
    {
        self.message.clone()
    }
}

// ---------------------------------------------------------------------------
// Blobs and raw objects

/// A blob: its payload verbatim.
#[derive(Debug)]
pub struct Blob {
    data: Vec<u8>,
}

impl View for Blob {
    type V = Seq<u8>;

    closed spec fn view(&self) -> Seq<u8> {
        self.data@
    }
}

impl Blob {
    /// A blob holding the given payload.
    pub fn new(data: Vec<u8>) -> (res: Blob)
        ensures
            res@ == data@,
    {
        Blob { data }
    }

    /// A blob read from the object database: the object must be a blob.
    pub fn from_object(id: &ObjectId, kind: ObjectKind, data: Vec<u8>) -> (res: Result<
        Blob,
        BindingError,
    >)
        ensures
            res is Ok <==> kind == ObjectKind::Blob,
            res matches Ok(b) ==> b@ == data@,
            res matches Err(e) ==> e.class == ErrorClass::InvalidObjectError && e.message@
                == wrong_kind_message(crate::text::hex_lower(id@), kind, "blob"@),
    {
        match expect_kind(id, kind, ObjectKind::Blob) {
            Err(e) => Err(e),
            Ok(()) => Ok(Blob { data }),
        }
    }

    /// The payload bytes.
    pub fn data(&self) -> (res: Vec<u8>)
        ensures
            res@ == self@,
    {
        self.data.clone()
    }
}

/// An object read from the object database: its id, kind and payload.
#[derive(Debug)]
pub struct Object {
    id: ObjectId,
    kind: ObjectKind,
    data: Vec<u8>,
}

impl Object {
    pub closed spec fn spec_id(&self) -> Seq<u8> {
        self.id@
    }

    pub closed spec fn spec_kind(&self) -> ObjectKind {
        self.kind
    }

    pub closed spec fn spec_data(&self) -> Seq<u8> {
        self.data@
    }

    /// An object with the given id, kind and payload.
    pub fn new(id: ObjectId, kind: ObjectKind, data: Vec<u8>) -> (res: Object)
        ensures
            res.spec_id() == id@,
            res.spec_kind() == kind,
            res.spec_data() == data@,
    {
        Object { id, kind, data }
    }

    pub fn id(&self) -> (res: ObjectId)
        ensures
            res@ == self.spec_id(),
    {
        self.id.copy()
    }

    pub fn kind(&self) -> (res: ObjectKind)
        ensures
            res == self.spec_kind(),
    {
        self.kind
    }

    pub fn data(&self) -> (res: Vec<u8>)
        ensures
            res@ == self.spec_data(),
    {
        self.data.clone()
    }
}

} // verus!
