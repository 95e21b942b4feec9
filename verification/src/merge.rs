//! Three-way merge results: how conflicts are resolved (`favor`), which paths
//! conflict (kept in byte order without repeats), and the conflict-marker
//! blob recorded for each path.
//!
//! The conflict paths are gathered in a `Vec` kept strictly sorted by bytes
//! (the order stated as an invariant), and the marker blobs are held as a
//! `Vec` of `(path, id)` pairs in the order grit-lib hands them over, rather
//! than in a `BTreeSet<Vec<u8>>` and a `BTreeMap<Vec<u8>, _>`: vstd specifies
//! the B-tree collections only for keys that obey `obeys_cmp`, and gives byte
//! vectors no comparison specification from which that could be shown, so
//! nothing about the contents of such a set or map could be proved.

use vstd::prelude::*;
use crate::error::{BindingError, ErrorClass, error_of};
use crate::objects::{ObjectKind, kind_keyword, kind_name, commit_tree, commit_parse, parse_failure};
use crate::oid::ObjectId;
use crate::text::{concat3, debug_quote, debug_quoted, hex_lower, str_equals};

verus! {

// ---------------------------------------------------------------------------
// Favor

/// How conflicting hunks are resolved (grit-lib's `MergeFavor`).
#[derive(Clone, Copy, Debug, PartialEq, Eq, Structural)]
pub enum MergeFavor {
    /// Leave conflict markers in place.
    Neither,
    Ours,
    Theirs,
    Union,
}

/// The message for an unknown favor.
pub open spec fn bad_favor_message(favor: Seq<char>) -> Seq<char> {
    "favor must be None, 'ours', 'theirs', or 'union' (got "@ + debug_quoted(favor) + ")"@
}

/// The favor for a `favor=` argument: none leaves conflict markers, and
/// `"ours"`, `"theirs"` and `"union"` resolve automatically; anything else is
/// a value error.
pub fn parse_favor(favor: Option<&str>) -> (res: Result<MergeFavor, BindingError>)
    ensures
        match favor {
            None => res == Ok::<MergeFavor, BindingError>(MergeFavor::Neither),
            Some(f) => if f@ == "ours"@ {
                res == Ok::<MergeFavor, BindingError>(MergeFavor::Ours)
            } else if f@ == "theirs"@ {
                res == Ok::<MergeFavor, BindingError>(MergeFavor::Theirs)
            } else if f@ == "union"@ {
                res == Ok::<MergeFavor, BindingError>(MergeFavor::Union)
            } else {
                res matches Err(e) && e.class == ErrorClass::ValueError && e.message@ == bad_favor_message(f@)
            },
        },
{
    match favor {
        None => Ok(MergeFavor::Neither),
        Some(f) => {
            if str_equals(f, "ours") {
                Ok(MergeFavor::Ours)
            } else if str_equals(f, "theirs") {
                Ok(MergeFavor::Theirs)
            } else if str_equals(f, "union") {
                Ok(MergeFavor::Union)
            } else {
                let q = debug_quote(f);
                let m = concat3("favor must be None, 'ours', 'theirs', or 'union' (got ", q.as_str(), ")");
                Err(error_of(ErrorClass::ValueError, m))
            }
        },
    }
}

// ---------------------------------------------------------------------------
// Commit to tree

/// Renders grit-lib's `Error::CorruptObject` with the given detail.
///
/// Claims what the variant's `#[error]` attribute shows: `corrupt object: `
/// followed by the detail.
#[verifier::external_body]
fn grit_corrupt_object_text(detail: String) -> (res: String)
    ensures
        res@ == "corrupt object: "@ + detail@,
{
    grit_lib::error::Error::CorruptObject(detail).to_string()
}

/// The message when a merge side is not a commit.
pub open spec fn not_commit_message(hex: Seq<char>, kind: ObjectKind) -> Seq<char> {
    "corrupt object: "@ + "object "@ + hex + " is a "@ + kind_keyword(kind) + ", not a commit"@
}

/// The tree of a commit read for a merge: the object must be a commit (a
/// corrupt-object failure, raised as an invalid-object error, otherwise), and
/// its tree is taken from the parsed payload.
pub fn tree_of_commit(id: &ObjectId, kind: ObjectKind, data: &[u8]) -> (res: Result<ObjectId, BindingError>)
    ensures
        kind != ObjectKind::Commit ==> (res matches Err(e) && e.class == ErrorClass::InvalidObjectError
            && e.message@ == not_commit_message(hex_lower(id@), kind)),
        kind == ObjectKind::Commit ==> {
            &&& res is Ok <==> commit_parse(data@) is Ok
            &&& res matches Ok(t) ==> t@ == commit_parse(data@)->Ok_0.tree
            &&& res matches Err(e) ==> parse_failure(commit_parse(data@), e)
        },
{
    match kind {
        ObjectKind::Commit => commit_tree(data),
        _ => {
            let h = id.hex();
            let mut detail = concat3("object ", h.as_str(), " is a ");
            detail.append(kind_name(kind));
            detail.append(", not a commit");
            let m = grit_corrupt_object_text(detail);
            assert(m@ =~= not_commit_message(hex_lower(id@), kind));
            Err(error_of(ErrorClass::InvalidObjectError, m))
        },
    }
}

// ---------------------------------------------------------------------------
// Byte order

/// Byte-wise lexicographic order (the order of `Vec<u8>`): a proper prefix
/// comes first.
pub open spec fn bytes_lt(a: Seq<u8>, b: Seq<u8>) -> bool
    decreases a.len(),
{
    if a.len() == 0 {
        b.len() > 0
    } else if b.len() == 0 {
        false
    } else if a[0] != b[0] {
        a[0] < b[0]
    } else {
        bytes_lt(a.drop_first(), b.drop_first())
    }
}

/// The order is irreflexive and asymmetric.
pub proof fn lemma_bytes_lt_asymmetric(a: Seq<u8>, b: Seq<u8>)
    ensures
        !(bytes_lt(a, b) && bytes_lt(b, a)),
        !bytes_lt(a, a),
    decreases a.len(),
{
    if a.len() > 0 && b.len() > 0 && a[0] == b[0] {
        lemma_bytes_lt_asymmetric(a.drop_first(), b.drop_first());
    }
    if a.len() > 0 {
        lemma_bytes_lt_asymmetric(a.drop_first(), a.drop_first());
    }
}

/// The order is transitive.
pub proof fn lemma_bytes_lt_transitive(a: Seq<u8>, b: Seq<u8>, c: Seq<u8>)
    requires
        bytes_lt(a, b),
        bytes_lt(b, c),
    ensures
        bytes_lt(a, c),
    decreases a.len(),
{
    if a.len() > 0 && b.len() > 0 && c.len() > 0 && a[0] == b[0] && b[0] == c[0] {
        lemma_bytes_lt_transitive(a.drop_first(), b.drop_first(), c.drop_first());
    }
}

/// Distinct byte strings are ordered one way or the other.
pub proof fn lemma_bytes_lt_total(a: Seq<u8>, b: Seq<u8>)
    ensures
        a != b ==> bytes_lt(a, b) || bytes_lt(b, a),
    decreases a.len(),
{
    if a.len() > 0 && b.len() > 0 && a[0] == b[0] {
        lemma_bytes_lt_total(a.drop_first(), b.drop_first());
        if a.drop_first() == b.drop_first() {
            assert(a =~= seq![a[0]] + a.drop_first());
            assert(b =~= seq![b[0]] + b.drop_first());
        }
    } else if a.len() == 0 && b.len() == 0 {
        assert(a =~= b);
    }
}

/// Law: byte order is lexicographic. Where `a` and `b` agree on their first
/// `i` bytes and differ at position `i` inside both, `a` comes first exactly
/// when its byte there is smaller, whatever their lengths (so `ab` comes
/// before `b`); where `a` ends there and `b` goes on, `a` comes first; where
/// `b` ends there, `a` does not come first.
pub proof fn law_bytes_order_lexicographic(a: Seq<u8>, b: Seq<u8>, i: int)
    requires
        0 <= i <= a.len(),
        i <= b.len(),
        a.take(i) == b.take(i),
    ensures
        (i < a.len() && i < b.len() && a[i] != b[i]) ==> (bytes_lt(a, b) <==> a[i] < b[i]),
        (i == a.len() && a.len() < b.len()) ==> bytes_lt(a, b),
        i == b.len() ==> !bytes_lt(a, b),
    decreases i,
{
    if i > 0 {
        assert(a[0] == a.take(i)[0]);
        assert(b[0] == b.take(i)[0]);
        let ra = a.drop_first();
        let rb = b.drop_first();
        assert(ra.take(i - 1) =~= a.take(i).drop_first());
        assert(rb.take(i - 1) =~= b.take(i).drop_first());
        law_bytes_order_lexicographic(ra, rb, i - 1);
        if i < a.len() {
            assert(ra[i - 1] == a[i]);
        }
        if i < b.len() {
            assert(rb[i - 1] == b[i]);
        }
    }
}

/// Law: the conflicted paths of a merge (a strictly sorted list, see
/// [`MergeResult::from_output`]) come in lexicographic byte order: where two
/// of them first differ at a position inside both, the earlier one holds the
/// smaller byte there, whatever their lengths; and an earlier path is never a
/// longer extension of a later one.
pub proof fn law_conflict_paths_byte_order(paths: Seq<Seq<u8>>, i: int, j: int, k: int)
    requires
        strictly_sorted(paths),
        0 <= i < j < paths.len(),
        0 <= k <= paths[i].len(),
        k <= paths[j].len(),
        paths[i].take(k) == paths[j].take(k),
    ensures
        (k < paths[i].len() && k < paths[j].len() && paths[i][k] != paths[j][k]) ==> paths[i][k]
            < paths[j][k],
        k < paths[i].len() ==> k < paths[j].len(),
{
    assert(bytes_lt(paths[i], paths[j]));
    law_bytes_order_lexicographic(paths[i], paths[j], k);
}

/// Whether `a` comes before `b` in byte order.
pub fn bytes_less(a: &[u8], b: &[u8]) -> (res: bool)
    ensures
        res == bytes_lt(a@, b@),
{
    let mut i: usize = 0;
    assert(a@.skip(0) =~= a@);
    assert(b@.skip(0) =~= b@);
    while i < a.len() && i < b.len() && a[i] == b[i]
        invariant
            0 <= i <= a@.len(),
            i <= b@.len(),
            bytes_lt(a@, b@) == bytes_lt(a@.skip(i as int), b@.skip(i as int)),
        decreases a@.len() - i,
    {
        proof {
            let sa = a@.skip(i as int);
            let sb = b@.skip(i as int);
            assert(sa.drop_first() =~= a@.skip(i as int + 1));
            assert(sb.drop_first() =~= b@.skip(i as int + 1));
        }
        i = i + 1;
    }
    proof {
        let sa = a@.skip(i as int);
        let sb = b@.skip(i as int);
        if i < a@.len() && i < b@.len() {
            assert(sa[0] == a@[i as int]);
            assert(sb[0] == b@[i as int]);
        }
    }
    if i == a.len() {
        i < b.len()
    } else if i == b.len() {
        false
    } else {
        a[i] < b[i]
    }
}

/// Whether a list of byte strings is in strictly increasing byte order.
pub open spec fn strictly_sorted(s: Seq<Seq<u8>>) -> bool {
    forall|i: int, j: int| 0 <= i < j < s.len() ==> #[trigger] bytes_lt(s[i], s[j])
}

/// The models of a list of byte vectors.
pub open spec fn paths_view(v: Seq<Vec<u8>>) -> Seq<Seq<u8>> {
    v.map_values(|p: Vec<u8>| p@)
}

/// Adds `p` to a strictly sorted list, keeping it strictly sorted; nothing
/// changes when `p` is already present.
fn insert_sorted(v: &mut Vec<Vec<u8>>, p: Vec<u8>)
    requires
        strictly_sorted(paths_view(old(v)@)),
    ensures
        strictly_sorted(paths_view(final(v)@)),
        paths_view(final(v)@).to_set() == paths_view(old(v)@).to_set().insert(p@),
{
    let ghost s = paths_view(v@);
    let mut i: usize = 0;
    while i < v.len() && bytes_less(v[i].as_slice(), p.as_slice())
        invariant
            0 <= i <= v@.len(),
            s == paths_view(v@),
            strictly_sorted(s),
            forall|j: int| 0 <= j < i ==> bytes_lt(#[trigger] s[j], p@),
        decreases v@.len() - i,
    {
        i = i + 1;
    }
    if i < v.len() && !bytes_less(p.as_slice(), v[i].as_slice()) {
        proof {
            lemma_bytes_lt_total(s[i as int], p@);
            assert(s[i as int] == p@);
            assert(s.to_set().insert(p@) =~= s.to_set());
        }
        return;
    }
    proof {
        if i < s.len() {
            lemma_bytes_lt_total(s[i as int], p@);
            lemma_bytes_lt_asymmetric(s[i as int], p@);
            assert(bytes_lt(p@, s[i as int]));
        }
    }
    v.insert(i, p);
    proof {
        let n = paths_view(v@);
        assert(n =~= s.insert(i as int, p@));
        assert forall|a: int, b: int| 0 <= a < b < n.len() implies #[trigger] bytes_lt(n[a], n[b]) by {
            if b < i {
            } else if a > i {
                assert(n[a] == s[a - 1] && n[b] == s[b - 1]);
            } else if a == i {
                assert(n[b] == s[b - 1]);
                if b - 1 > i {
                    assert(bytes_lt(s[i as int], s[b - 1]));
                    lemma_bytes_lt_transitive(p@, s[i as int], s[b - 1]);
                }
            } else if b == i {
                assert(n[a] == s[a]);
            } else {
                assert(n[a] == s[a] && n[b] == s[b - 1]);
            }
        }
        assert(n.to_set() =~= s.to_set().insert(p@)) by {
            assert forall|x: Seq<u8>| n.to_set().contains(x) implies s.to_set().insert(p@).contains(x) by {
                let k = choose|k: int| 0 <= k < n.len() && n[k] == x;
                if k < i {
                    assert(s[k] == x);
                } else if k > i {
                    assert(s[k - 1] == x);
                }
            }
            assert forall|x: Seq<u8>| s.to_set().insert(p@).contains(x) implies n.to_set().contains(x) by {
                if x == p@ {
                    assert(n[i as int] == x);
                } else {
                    let k = choose|k: int| 0 <= k < s.len() && s[k] == x;
                    if k < i {
                        assert(n[k] == x);
                    } else {
                        assert(n[k + 1] == x);
                    }
                }
            }
        }
    }
}

/// Law: a strictly sorted list is determined by its elements: two strictly
/// sorted lists with the same elements are the same list.
pub proof fn law_sorted_unique(a: Seq<Seq<u8>>, b: Seq<Seq<u8>>)
    requires
        strictly_sorted(a),
        strictly_sorted(b),
        a.to_set() == b.to_set(),
    ensures
        a == b,
    decreases a.len() + b.len(),
{
    if a.len() == 0 || b.len() == 0 {
        if a.len() > 0 {
            assert(a.to_set().contains(a[0]));
        }
        if b.len() > 0 {
            assert(b.to_set().contains(b[0]));
        }
        assert(a =~= b);
    } else {
        // The first elements are both the least element of the common set.
        assert(a.to_set().contains(a[0]));
        assert(b.to_set().contains(b[0]));
        let i = choose|i: int| 0 <= i < b.len() && b[i] == a[0];
        let j = choose|j: int| 0 <= j < a.len() && a[j] == b[0];
        if i > 0 {
            assert(bytes_lt(b[0], b[i]));
            if j > 0 {
                assert(bytes_lt(a[0], a[j]));
                lemma_bytes_lt_asymmetric(a[0], b[0]);
            }
        }
        if j > 0 {
            assert(bytes_lt(a[0], a[j]));
            if i > 0 {
                assert(bytes_lt(b[0], b[i]));
            }
            lemma_bytes_lt_asymmetric(a[0], a[0]);
        }
        assert(a[0] == b[0]);
        let ra = a.drop_first();
        let rb = b.drop_first();
        assert forall|x: Seq<u8>| ra.to_set().contains(x) implies rb.to_set().contains(x) by {
            let k = choose|k: int| 0 <= k < ra.len() && ra[k] == x;
            assert(bytes_lt(a[0], a[k + 1]));
            lemma_bytes_lt_asymmetric(a[0], a[0]);
            assert(b.to_set().contains(x));
            let m = choose|m: int| 0 <= m < b.len() && b[m] == x;
            if m == 0 {
                assert(x == a[0]);
            }
            assert(rb[m - 1] == x);
        }
        assert forall|x: Seq<u8>| rb.to_set().contains(x) implies ra.to_set().contains(x) by {
            let k = choose|k: int| 0 <= k < rb.len() && rb[k] == x;
            assert(bytes_lt(b[0], b[k + 1]));
            lemma_bytes_lt_asymmetric(b[0], b[0]);
            assert(a.to_set().contains(x));
            let m = choose|m: int| 0 <= m < a.len() && a[m] == x;
            if m == 0 {
                assert(x == b[0]);
            }
            assert(ra[m - 1] == x);
        }
        assert(ra.to_set() =~= rb.to_set());
        law_sorted_unique(ra, rb);
        assert(a =~= seq![a[0]] + ra);
        assert(b =~= seq![b[0]] + rb);
    }
}

// ---------------------------------------------------------------------------
// Merge results

/// The paths of the merged index's entries that are not at stage 0.
pub open spec fn staged_paths(stages: Seq<(Seq<u8>, u8)>) -> Set<Seq<u8>> {
    Set::new(|p: Seq<u8>| exists|i: int| 0 <= i < stages.len() && stages[i].1 != 0 && #[trigger] stages[i].0 == p)
}

/// The paths that have a conflict-marker blob.
pub open spec fn marker_paths(markers: Seq<(Seq<u8>, Seq<u8>)>) -> Set<Seq<u8>> {
    Set::new(|p: Seq<u8>| exists|i: int| 0 <= i < markers.len() && #[trigger] markers[i].0 == p)
}

/// The marker blob recorded last for a path, if any.
pub open spec fn marker_of(markers: Seq<(Seq<u8>, Seq<u8>)>, p: Seq<u8>) -> Option<Seq<u8>>
    decreases markers.len(),
{
    if markers.len() == 0 {
        None
    } else if markers.last().0 == p {
        Some(markers.last().1)
    } else {
        marker_of(markers.drop_last(), p)
    }
}

/// The model of the index entries' `(path, stage)` pairs.
pub open spec fn stages_view(v: Seq<(Vec<u8>, u8)>) -> Seq<(Seq<u8>, u8)> {
    v.map_values(|e: (Vec<u8>, u8)| (e.0@, e.1))
}

/// The model of the `(path, blob id)` conflict markers.
pub open spec fn markers_view(v: Seq<(Vec<u8>, ObjectId)>) -> Seq<(Seq<u8>, Seq<u8>)> {
    v.map_values(|e: (Vec<u8>, ObjectId)| (e.0@, e.1@))
}

/// The result of a three-way merge: the conflicted paths (those with an
/// unmerged index entry, together with those that got a conflict-marker
/// blob), each path's marker blob, and whether the merge conflicted.
#[derive(Debug)]
pub struct MergeResult {
    conflicts: Vec<Vec<u8>>,
    markers: Vec<(Vec<u8>, ObjectId)>,
    has_conflicts: bool,
}

impl MergeResult {
    /// The conflicted paths, in byte order.
    pub closed spec fn conflict_paths(&self) -> Seq<Seq<u8>> {
        paths_view(self.conflicts@)
    }

    /// The recorded conflict markers.
    pub closed spec fn marker_entries(&self) -> Seq<(Seq<u8>, Seq<u8>)> {
        markers_view(self.markers@)
    }

    /// Whether the merge conflicted.
    pub closed spec fn conflicted(&self) -> bool {
        self.has_conflicts
    }

    /// The result of a merge from the merged index's `(path, stage)` entries
    /// and the conflict-marker blobs by path.
    pub fn from_output(stages: &Vec<(Vec<u8>, u8)>, markers: Vec<(Vec<u8>, ObjectId)>) -> (res: MergeResult)
        ensures
            strictly_sorted(res.conflict_paths()),
            res.conflict_paths().to_set() == staged_paths(stages_view(stages@)).union(
                marker_paths(markers_view(markers@)),
            ),
            res.marker_entries() == markers_view(markers@),
            res.conflicted() == (res.conflict_paths().len() > 0),
    {
        let ghost st = stages_view(stages@);
        let ghost mk = markers_view(markers@);
        let mut paths: Vec<Vec<u8>> = Vec::new();
        let mut i: usize = 0;
        while i < stages.len()
            invariant
                0 <= i <= stages@.len(),
                st == stages_view(stages@),
                strictly_sorted(paths_view(paths@)),
                paths_view(paths@).to_set() == staged_paths(st.take(i as int)),
            decreases stages@.len() - i,
        {
            let ghost before = paths_view(paths@).to_set();
            if stages[i].1 != 0 {
                insert_sorted(&mut paths, stages[i].0.clone());
            }
            proof {
                let t = st.take(i as int);
                let t1 = st.take(i as int + 1);
                assert forall|p: Seq<u8>| staged_paths(t1).contains(p) == paths_view(paths@).to_set().contains(p) by {
                    if staged_paths(t1).contains(p) {
                        let k = choose|k: int| 0 <= k < t1.len() && t1[k].1 != 0 && #[trigger] t1[k].0 == p;
                        if k < i {
                            assert(t[k] == t1[k]);
                            assert(staged_paths(t).contains(p));
                        }
                    }
                    if staged_paths(t).contains(p) {
                        let k = choose|k: int| 0 <= k < t.len() && t[k].1 != 0 && #[trigger] t[k].0 == p;
                        assert(t1[k] == t[k]);
                    }
                    if st[i as int].1 != 0 && p == st[i as int].0 {
                        assert(t1[i as int] == st[i as int]);
                    }
                }
                assert(staged_paths(t1) =~= paths_view(paths@).to_set());
            }
            i = i + 1;
        }
        assert(st.take(stages@.len() as int) =~= st);
        let mut j: usize = 0;
        while j < markers.len()
            invariant
                0 <= j <= markers@.len(),
                mk == markers_view(markers@),
                strictly_sorted(paths_view(paths@)),
                paths_view(paths@).to_set() == staged_paths(st).union(marker_paths(mk.take(j as int))),
            decreases markers@.len() - j,
        {
            insert_sorted(&mut paths, markers[j].0.clone());
            proof {
                let t = mk.take(j as int);
                let t1 = mk.take(j as int + 1);
                assert forall|p: Seq<u8>| marker_paths(t1).contains(p) == (marker_paths(t).contains(p) || p
                    == mk[j as int].0) by {
                    if marker_paths(t1).contains(p) {
                        let k = choose|k: int| 0 <= k < t1.len() && #[trigger] t1[k].0 == p;
                        if k < j {
                            assert(t[k] == t1[k]);
                        }
                    }
                    if marker_paths(t).contains(p) {
                        let k = choose|k: int| 0 <= k < t.len() && #[trigger] t[k].0 == p;
                        assert(t1[k] == t[k]);
                    }
                    if p == mk[j as int].0 {
                        assert(t1[j as int] == mk[j as int]);
                    }
                }
                assert(paths_view(paths@).to_set() =~= staged_paths(st).union(marker_paths(t1)));
            }
            j = j + 1;
        }
        assert(mk.take(markers@.len() as int) =~= mk);
        let has_conflicts = paths.len() > 0;
        MergeResult { conflicts: paths, markers, has_conflicts }
    }

    /// Whether the merge conflicted.
    pub fn has_conflicts(&self) -> (res: bool)
        ensures
            res == self.conflicted(),
    {
        self.has_conflicts
    }

    /// The conflicted paths, in byte order.
    pub fn conflicts(&self) -> (res: Vec<Vec<u8>>)
        ensures
            paths_view(res@) == self.conflict_paths(),
    {
        let mut out: Vec<Vec<u8>> = Vec::new();
        let mut i: usize = 0;
        while i < self.conflicts.len()
            invariant
                0 <= i <= self.conflicts@.len(),
                paths_view(out@) == paths_view(self.conflicts@).take(i as int),
            decreases self.conflicts@.len() - i,
        {
            let c = self.conflicts[i].clone();
            assert(c@ == self.conflicts@[i as int]@);
            let ghost prev = paths_view(out@);
            out.push(c);
            assert(paths_view(out@) =~= prev.push(c@));
            assert(paths_view(self.conflicts@).take(i as int + 1) =~= paths_view(self.conflicts@).take(
                i as int,
            ).push(c@));
            i = i + 1;
        }
        assert(paths_view(self.conflicts@).take(i as int) =~= paths_view(self.conflicts@));
        out
    }

    /// The conflict-marker blob for `path`, or `None` when it has none.
    pub fn conflict_blob(&self, path: &[u8]) -> (res: Option<ObjectId>)
        ensures
            match marker_of(self.marker_entries(), path@) {
                Some(b) => res matches Some(r) && r@ == b,
                None => res is None,
            },
    {
        let ghost mk = markers_view(self.markers@);
        let mut i: usize = self.markers.len();
        assert(mk.take(i as int) =~= mk);
        while i > 0
            invariant
                0 <= i <= self.markers@.len(),
                mk == markers_view(self.markers@),
                marker_of(mk, path@) == marker_of(mk.take(i as int), path@),
            decreases i,
        {
            let k = i - 1;
            proof {
                let t = mk.take(i as int);
                assert(t.last() == mk[k as int]);
                assert(t.drop_last() =~= mk.take(k as int));
            }
            if !bytes_less(self.markers[k].0.as_slice(), path) && !bytes_less(path, self.markers[k].0.as_slice()) {
                proof {
                    lemma_bytes_lt_total(self.markers@[k as int].0@, path@);
                }
                return Some(self.markers[k].1.copy());
            }
            proof {
                lemma_bytes_lt_asymmetric(path@, path@);
            }
            i = k;
        }
        None
    }
}

/// Law: the conflicted paths of a merge are exactly determined: the sorted
/// list, without repeats, of the paths with an unmerged entry or a marker.
pub proof fn law_conflicts_determined(r1: Seq<Seq<u8>>, r2: Seq<Seq<u8>>, stages: Seq<(Seq<u8>, u8)>, markers: Seq<
    (Seq<u8>, Seq<u8>),
>)
    requires
        strictly_sorted(r1),
        strictly_sorted(r2),
        r1.to_set() == staged_paths(stages).union(marker_paths(markers)),
        r2.to_set() == staged_paths(stages).union(marker_paths(markers)),
    ensures
        r1 == r2,
        r1.no_duplicates(),
{
    law_sorted_unique(r1, r2);
    assert forall|i: int, j: int| 0 <= i < r1.len() && 0 <= j < r1.len() && i != j implies r1[i] != r1[j] by {
        if i < j {
            assert(bytes_lt(r1[i], r1[j]));
        } else {
            assert(bytes_lt(r1[j], r1[i]));
        }
        lemma_bytes_lt_asymmetric(r1[i], r1[i]);
    }
}

/// The message when a tree is written from an index that still conflicts.
pub open spec fn unmerged_message() -> Seq<char> {
    "cannot write tree: index has unmerged (conflicted) entries"@
}

/// Writing a tree needs an index without unmerged entries.
pub fn require_merged(has_unmerged: bool) -> (res: Result<(), BindingError>)
    ensures
        res is Ok <==> !has_unmerged,
        res matches Err(e) ==> e.class == ErrorClass::RepositoryError && e.message@ == unmerged_message(),
{
    if has_unmerged {
        Err(error_of(
            ErrorClass::RepositoryError,
            String::from_str("cannot write tree: index has unmerged (conflicted) entries"),
        ))
    } else {
        Ok(())
    }
}

} // verus!
