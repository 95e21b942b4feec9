//! Tree-to-tree diffs: the changed entries, an owning iterator over them, and
//! `git --numstat`-style statistics.

use vstd::prelude::*;
use vstd::utf8::*;
use crate::objects::ObjectKind;
use crate::oid::ObjectId;
use crate::text::{bytes_to_lossy_string, hex_lower, latin1, push_char, string_bytes};

verus! {

/// The status of a changed path, as grit-lib's `DiffStatus` reports it.
#[derive(Clone, Copy, Debug, PartialEq, Eq, Structural)]
pub enum DiffStatus {
    Added,
    Deleted,
    Modified,
    Renamed,
    Copied,
    TypeChanged,
    Unmerged,
}

/// The single status letter of raw diff output.
pub open spec fn status_char(s: DiffStatus) -> char {
    match s {
        DiffStatus::Added => 'A',
        DiffStatus::Deleted => 'D',
        DiffStatus::Modified => 'M',
        DiffStatus::Renamed => 'R',
        DiffStatus::Copied => 'C',
        DiffStatus::TypeChanged => 'T',
        DiffStatus::Unmerged => 'U',
    }
}

/// The status letter of a change (grit-lib's `DiffStatus::letter`).
pub fn status_letter(s: DiffStatus) -> (c: char)
    ensures
        c == status_char(s),
{
    match s {
        DiffStatus::Added => 'A',
        DiffStatus::Deleted => 'D',
        DiffStatus::Modified => 'M',
        DiffStatus::Renamed => 'R',
        DiffStatus::Copied => 'C',
        DiffStatus::TypeChanged => 'T',
        DiffStatus::Unmerged => 'U',
    }
}

/// One changed path as the tree diff reports it: grit-lib gives paths as
/// (already decoded) text.
#[derive(Debug)]
pub struct RawDiffEntry {
    pub status: DiffStatus,
    pub old_path: Option<String>,
    pub new_path: Option<String>,
    pub old_oid: ObjectId,
    pub new_oid: ObjectId,
}

/// The model of a diff entry.
pub ghost struct DiffEntryView {
    pub status: char,
    pub old_path: Option<Seq<u8>>,
    pub new_path: Option<Seq<u8>>,
    pub old_oid: Seq<u8>,
    pub new_oid: Seq<u8>,
}

/// The UTF-8 bytes of an optional path.
pub open spec fn opt_path_bytes(p: Option<String>) -> Option<Seq<u8>> {
    match p {
        Some(s) => Some(encode_utf8(s@)),
        None => None,
    }
}

/// The entry a raw diff entry becomes: its status letter, its paths as bytes.
pub open spec fn raw_entry_view(e: RawDiffEntry) -> DiffEntryView {
    DiffEntryView {
        status: status_char(e.status),
        old_path: opt_path_bytes(e.old_path),
        new_path: opt_path_bytes(e.new_path),
        old_oid: e.old_oid@,
        new_oid: e.new_oid@,
    }
}

/// A single diff entry: one changed path with its status and old/new ids.
#[derive(Debug)]
pub struct DiffEntry {
    status: char,
    old_path: Option<Vec<u8>>,
    new_path: Option<Vec<u8>>,
    old_oid: ObjectId,
    new_oid: ObjectId,
}

impl View for DiffEntry {
    type V = DiffEntryView;

    closed spec fn view(&self) -> DiffEntryView {
        DiffEntryView {
            status: self.status,
            old_path: match self.old_path {
                Some(p) => Some(p@),
                None => None,
            },
            new_path: match self.new_path {
                Some(p) => Some(p@),
                None => None,
            },
            old_oid: self.old_oid@,
            new_oid: self.new_oid@,
        }
    }
}

fn copy_path(p: &Option<Vec<u8>>) -> (res: Option<Vec<u8>>)
    ensures
        match *p {
            Some(v) => res matches Some(r) && r@ == v@,
            None => res is None,
        },
{
    match p {
        Some(v) => Some(v.clone()),
        None => None,
    }
}

fn path_bytes(p: Option<String>) -> (res: Option<Vec<u8>>)
    ensures
        match opt_path_bytes(p) {
            Some(v) => res matches Some(r) && r@ == v,
            None => res is None,
        },
{
    match p {
        Some(s) => Some(string_bytes(&s)),
        None => None,
    }
}

impl DiffEntry {
    /// The entry for a raw diff entry.
    pub fn from_raw(e: RawDiffEntry) -> (res: DiffEntry)
        ensures
            res@ == raw_entry_view(e),
    {
        let status = status_letter(e.status);
        let old_path = path_bytes(e.old_path);
        let new_path = path_bytes(e.new_path);
        DiffEntry { status, old_path, new_path, old_oid: e.old_oid, new_oid: e.new_oid }
    }

    /// An independent copy.
    pub fn duplicate(&self) -> (res: DiffEntry)
        ensures
            res@ == self@,
    {
        DiffEntry {
            status: self.status,
            old_path: copy_path(&self.old_path),
            new_path: copy_path(&self.new_path),
            old_oid: self.old_oid.copy(),
            new_oid: self.new_oid.copy(),
        }
    }

    /// The single-character status letter: `A`, `D`, `M`, `R`, `C`, `T` or `U`.
    pub fn status(&self) -> (res: String)
        ensures
            res@ == seq![self@.status],
    {
        let mut s = String::new();
        push_char(&mut s, self.status);
        assert(s@ =~= seq![self@.status]);
        s
    }

    /// The old-side path as bytes, or `None` when absent (an added path).
    pub fn old_path(&self) -> (res: Option<Vec<u8>>)
        ensures
            match self@.old_path {
                Some(v) => res matches Some(r) && r@ == v,
                None => res is None,
            },
    {
        copy_path(&self.old_path)
    }

    /// The new-side path as bytes, or `None` when absent (a deleted path).
    pub fn new_path(&self) -> (res: Option<Vec<u8>>)
        ensures
            match self@.new_path {
                Some(v) => res matches Some(r) && r@ == v,
                None => res is None,
            },
    {
        copy_path(&self.new_path)
    }

    /// The old-side id (the zero id for an added path).
    pub fn old_id(&self) -> (res: ObjectId)
        ensures
            res@ == self@.old_oid,
    {
        self.old_oid.copy()
    }

    /// The new-side id (the zero id for a deleted path).
    pub fn new_id(&self) -> (res: ObjectId)
        ensures
            res@ == self@.new_oid,
    {
        self.new_oid.copy()
    }
}

/// The models of a list of entries.
pub open spec fn entries_view(v: Seq<DiffEntry>) -> Seq<DiffEntryView> {
    v.map_values(|e: DiffEntry| e@)
}

fn copy_entries(v: &Vec<DiffEntry>) -> (res: Vec<DiffEntry>)
    ensures
        entries_view(res@) == entries_view(v@),
{
    let mut out: Vec<DiffEntry> = Vec::new();
    let mut i: usize = 0;
    while i < v.len()
        invariant
            0 <= i <= v@.len(),
            out@.len() == i,
            forall|j: int| 0 <= j < i ==> #[trigger] out@[j]@ == v@[j]@,
        decreases v@.len() - i,
    {
        out.push(v[i].duplicate());
        i = i + 1;
    }
    assert(entries_view(out@) =~= entries_view(v@));
    out
}

/// A tree diff: the changed entries, in the order the diff reports them.
#[derive(Debug)]
pub struct Diff {
    entries: Vec<DiffEntry>,
}

impl View for Diff {
    type V = Seq<DiffEntryView>;

    closed spec fn view(&self) -> Seq<DiffEntryView> {
        entries_view(self.entries@)
    }
}

impl Diff {
    /// The diff holding the given entries, each with its status letter and its
    /// paths as UTF-8 bytes.
    pub fn from_entries(entries: Vec<RawDiffEntry>) -> (res: Diff)
        ensures
            res@.len() == entries@.len(),
            forall|i: int| 0 <= i < entries@.len() ==> #[trigger] res@[i] == raw_entry_view(entries@[i]),
    {
        let ghost src = entries@;
        let mut rest = entries;
        let mut out: Vec<DiffEntry> = Vec::new();
        // Move the entries out back to front, then restore their order.
        while rest.len() > 0
            invariant
                rest@.len() + out@.len() == src.len(),
                rest@ == src.subrange(0, rest@.len() as int),
                forall|j: int|
                    0 <= j < out@.len() ==> #[trigger] out@[j]@ == raw_entry_view(
                        src[src.len() - 1 - j],
                    ),
            decreases rest@.len(),
        {
            let e = rest.pop().unwrap();
            let ghost k = out@.len();
            out.push(DiffEntry::from_raw(e));
            assert(out@[k as int]@ == raw_entry_view(src[src.len() - 1 - k]));
        }
        let mut ordered: Vec<DiffEntry> = Vec::new();
        while out.len() > 0
            invariant
                out@.len() + ordered@.len() == src.len(),
                forall|j: int|
                    0 <= j < out@.len() ==> #[trigger] out@[j]@ == raw_entry_view(
                        src[src.len() - 1 - j],
                    ),
                forall|j: int| 0 <= j < ordered@.len() ==> #[trigger] ordered@[j]@ == raw_entry_view(src[j]),
            decreases out@.len(),
        {
            let e = out.pop().unwrap();
            ordered.push(e);
        }
        Diff { entries: ordered }
    }

    /// The number of changed paths.
    pub fn len(&self) -> (res: usize)
        ensures
            res == self@.len(),
    {
        self.entries.len()
    }

    /// An iterator over the entries; it owns its own copy of them.
    pub fn iter(&self) -> (res: DiffIter)
        ensures
            res.entries() == self@,
            res.position() == 0,
    {
        DiffIter { entries: copy_entries(&self.entries), idx: 0 }
    }
}

/// Iterator over a diff's entries.
#[derive(Debug)]
pub struct DiffIter {
    entries: Vec<DiffEntry>,
    idx: usize,
}

impl DiffIter {
    /// The entries being iterated.
    pub closed spec fn entries(&self) -> Seq<DiffEntryView> {
        entries_view(self.entries@)
    }

    /// How many entries have been handed out.
    pub closed spec fn position(&self) -> nat {
        self.idx as nat
    }

    /// The next entry, or `None` once all have been handed out.
    pub fn next_entry(&mut self) -> (res: Option<DiffEntry>)
        ensures
            final(self).entries() == old(self).entries(),
            old(self).position() < old(self).entries().len() ==> {
                &&& res matches Some(e) && e@ == old(self).entries()[old(self).position() as int]
                &&& final(self).position() == old(self).position() + 1
            },
            old(self).position() >= old(self).entries().len() ==> res is None && final(self).position()
                == old(self).position(),
    {
        if self.idx < self.entries.len() {
            let e = self.entries[self.idx].duplicate();
            self.idx = self.idx + 1;
            Some(e)
        } else {
            None
        }
    }
}

// ---------------------------------------------------------------------------
// Statistics

/// A `git --numstat`-style summary of a diff.
#[derive(Clone, Copy, Debug, PartialEq, Eq, Structural)]
pub struct DiffStats {
    pub files_changed: usize,
    pub insertions: usize,
    pub deletions: usize,
}

impl DiffStats {
    /// A summary with the given counts.
    pub fn new(files_changed: usize, insertions: usize, deletions: usize) -> (res: DiffStats)
        ensures
            res == (DiffStats { files_changed, insertions, deletions }),
    {
        DiffStats { files_changed, insertions, deletions }
    }

    /// The number of changed files.
    pub fn files_changed(&self) -> (res: usize)
        ensures
            res == self.files_changed,
    {
        self.files_changed
    }

    /// The number of inserted lines.
    pub fn insertions(&self) -> (res: usize)
        ensures
            res == self.insertions,
    {
        self.insertions
    }

    /// The number of deleted lines.
    pub fn deletions(&self) -> (res: usize)
        ensures
            res == self.deletions,
    {
        self.deletions
    }
}

/// Whether content counts as binary (grit-lib's `merge_file::is_binary`).
///
/// Claims what the function's source shows: content is binary exactly when it
/// holds a NUL byte.
#[verifier::external_body]
fn grit_is_binary(data: &[u8]) -> (res: bool)
    ensures
        res == data@.contains(0u8),
{
    grit_lib::merge_file::is_binary(data)
}

/// The `(insertions, deletions)` grit-lib's `diff::count_changes` reports
/// between two texts (a line diff).
pub uninterp spec fn line_changes(old: Seq<char>, new: Seq<char>) -> (nat, nat);

/// Counts changed lines with grit-lib's `diff::count_changes`.
///
/// Claims that the counts are the named result of the two texts, and what the
/// source shows of their size: every inserted line is a distinct, non-empty
/// line of the new text and every deleted line one of the old text, so neither
/// count exceeds that text's length.
#[verifier::external_body]
fn grit_count_changes(old: &str, new: &str) -> (res: (usize, usize))
    ensures
        (res.0 as nat, res.1 as nat) == line_changes(old@, new@),
        res.0 <= new@.len(),
        res.1 <= old@.len(),
{
    grit_lib::diff::count_changes(old, new)
}

/// The line changes one file contributes: none when either side is binary
/// (git prints `-`), else the line diff of the two sides read one character
/// per byte.
pub open spec fn file_changes(old: Seq<u8>, new: Seq<u8>) -> (nat, nat) {
    if old.contains(0u8) || new.contains(0u8) {
        (0, 0)
    } else {
        line_changes(latin1(old), latin1(new))
    }
}

/// The total insertions over a list of `(old, new)` contents.
pub open spec fn total_insertions(sides: Seq<(Seq<u8>, Seq<u8>)>) -> nat
    decreases sides.len(),
{
    if sides.len() == 0 {
        0
    } else {
        total_insertions(sides.drop_last()) + file_changes(sides.last().0, sides.last().1).0
    }
}

/// The total deletions over a list of `(old, new)` contents.
pub open spec fn total_deletions(sides: Seq<(Seq<u8>, Seq<u8>)>) -> nat
    decreases sides.len(),
{
    if sides.len() == 0 {
        0
    } else {
        total_deletions(sides.drop_last()) + file_changes(sides.last().0, sides.last().1).1
    }
}

/// The line counts of two lists of files together are the sums of their
/// counts.
proof fn lemma_totals_concat(a: Seq<(Seq<u8>, Seq<u8>)>, b: Seq<(Seq<u8>, Seq<u8>)>)
    ensures
        total_insertions(a + b) == total_insertions(a) + total_insertions(b),
        total_deletions(a + b) == total_deletions(a) + total_deletions(b),
    decreases b.len(),
{
    if b.len() == 0 {
        assert(a + b =~= a);
    } else {
        lemma_totals_concat(a, b.drop_last());
        assert((a + b).drop_last() =~= a + b.drop_last());
        assert((a + b).last() == b.last());
    }
}

/// Law: a binary file (a NUL byte in its old content or in its new content)
/// adds no inserted and no deleted lines, wherever it stands among the
/// changed files: the counts with it are the counts without it.
pub proof fn law_binary_file_counts_nothing(
    before: Seq<(Seq<u8>, Seq<u8>)>,
    after: Seq<(Seq<u8>, Seq<u8>)>,
    old: Seq<u8>,
    new: Seq<u8>,
)
    requires
        old.contains(0u8) || new.contains(0u8),
    ensures
        total_insertions(before + seq![(old, new)] + after) == total_insertions(before + after),
        total_deletions(before + seq![(old, new)] + after) == total_deletions(before + after),
{
    let one = seq![(old, new)];
    lemma_totals_concat(before + one, after);
    lemma_totals_concat(before, one);
    lemma_totals_concat(before, after);
    assert(one.drop_last() =~= Seq::<(Seq<u8>, Seq<u8>)>::empty());
    assert(one.last() == (old, new));
    assert(file_changes(old, new) == (0nat, 0nat));
    assert(total_insertions(one.drop_last()) == 0);
    assert(total_deletions(one.drop_last()) == 0);
    assert(total_insertions(one) == 0);
    assert(total_deletions(one) == 0);
}

/// The total size of a list of `(old, new)` contents.
pub open spec fn total_size(sides: Seq<(Seq<u8>, Seq<u8>)>) -> nat
    decreases sides.len(),
{
    if sides.len() == 0 {
        0
    } else {
        total_size(sides.drop_last()) + sides.last().0.len() + sides.last().1.len()
    }
}

/// The model of a list of contents.
pub open spec fn sides_view(v: Seq<(Vec<u8>, Vec<u8>)>) -> Seq<(Seq<u8>, Seq<u8>)> {
    v.map_values(|p: (Vec<u8>, Vec<u8>)| (p.0@, p.1@))
}

proof fn lemma_total_size_prefix(s: Seq<(Seq<u8>, Seq<u8>)>, i: int)
    requires
        0 <= i <= s.len(),
    ensures
        total_size(s.subrange(0, i)) <= total_size(s),
    decreases s.len() - i,
{
    if i < s.len() {
        lemma_total_size_prefix(s, i + 1);
        assert(s.subrange(0, i + 1).drop_last() =~= s.subrange(0, i));
    } else {
        assert(s.subrange(0, i) =~= s);
    }
}

/// The statistics of a diff from the contents of each changed file: the file
/// count is the number of diff entries, and the line counts add up what each
/// non-binary file contributes.
pub fn compute_diff_stats(files_changed: usize, sides: &Vec<(Vec<u8>, Vec<u8>)>) -> (res: DiffStats)
    requires
        total_size(sides_view(sides@)) <= usize::MAX,
    ensures
        res.files_changed == files_changed,
        res.insertions as nat == total_insertions(sides_view(sides@)),
        res.deletions as nat == total_deletions(sides_view(sides@)),
{
    let ghost all = sides_view(sides@);
    let mut insertions: usize = 0;
    let mut deletions: usize = 0;
    let mut i: usize = 0;
    while i < sides.len()
        invariant
            0 <= i <= sides@.len(),
            all == sides_view(sides@),
            total_size(all) <= usize::MAX,
            insertions as nat == total_insertions(all.subrange(0, i as int)),
            deletions as nat == total_deletions(all.subrange(0, i as int)),
            insertions + deletions <= total_size(all.subrange(0, i as int)),
        decreases sides@.len() - i,
    {
        let ghost pre = all.subrange(0, i as int);
        let ghost next = all.subrange(0, i as int + 1);
        proof {
            assert(next.drop_last() =~= pre);
            assert(next.last() == all[i as int]);
            lemma_total_size_prefix(all, i as int + 1);
        }
        let old_side = sides[i].0.as_slice();
        let new_side = sides[i].1.as_slice();
        if !grit_is_binary(old_side) && !grit_is_binary(new_side) {
            let old_text = bytes_to_lossy_string(old_side);
            let new_text = bytes_to_lossy_string(new_side);
            let (ins, del) = grit_count_changes(old_text.as_str(), new_text.as_str());
            insertions = insertions + ins;
            deletions = deletions + del;
        }
        i = i + 1;
    }
    assert(all.subrange(0, sides@.len() as int) =~= all);
    DiffStats { files_changed, insertions, deletions }
}

/// Whether an id is the null id: every byte zero.
pub open spec fn null_id(id: Seq<u8>) -> bool {
    forall|i: int| 0 <= i < id.len() ==> id[i] == 0
}

/// Whether a diff side's object has to be read to count it: not for the null
/// id, which stands for the absent side of an added or deleted path.
pub fn side_needs_read(id: &ObjectId) -> (res: bool)
    ensures
        res == !null_id(id@),
{
    !id.is_zero()
}

/// The content a diff side is counted with: nothing for the null id (the
/// absent side of an addition or deletion; no object is read for it);
/// otherwise, from the object read for it, a blob's bytes, or for any other
/// object (a submodule's commit) the single line `Subproject commit <hex>`
/// that git shows for it.
pub fn diff_side_bytes(id: &ObjectId, read: Option<(ObjectKind, Vec<u8>)>) -> (res: Vec<u8>)
    requires
        !null_id(id@) ==> read is Some,
    ensures
        null_id(id@) ==> res@ == Seq::<u8>::empty(),
        !null_id(id@) ==> match read {
            Some((kind, data)) => if kind == ObjectKind::Blob {
                res@ == data@
            } else {
                res@ == encode_utf8("Subproject commit "@ + hex_lower(id@) + "\n"@)
            },
            None => false,
        },
{
    if id.is_zero() {
        return Vec::new();
    }
    match read {
        Some((ObjectKind::Blob, data)) => data,
        _ => {
            let h = id.hex();
            let s = crate::text::concat3("Subproject commit ", h.as_str(), "\n");
            string_bytes(&s)
        },
    }
}

} // verus!
