//! References (a name with a direct id or a symbolic target), ref-name
//! validation, and the compare-and-swap rules that guard every ref write.

use vstd::prelude::*;
use vstd::utf8::*;
use crate::error::{BindingError, ErrorClass, GritErrorKind, GritFailure, error_of, invalid_ref, map_err};
use crate::oid::ObjectId;
use crate::text::{concat2, concat3, debug_quote, debug_quoted, hex_lower, str_bytes, string_bytes,
    utf8_to_string};

verus! {

// ---------------------------------------------------------------------------
// Ref-name validation

/// The outcome of grit-lib's `check_refname_format` for a name and its three
/// options: the accepted (possibly normalized) name, or the rejection's text.
pub uninterp spec fn refname_format(
    name: Seq<char>,
    allow_onelevel: bool,
    refspec_pattern: bool,
    normalize: bool,
) -> Result<Seq<char>, Seq<char>>;

/// Calls grit-lib's `check_ref_format::check_refname_format` with the given
/// options, rendering a rejection with its `Display` text.
///
/// Claims that the result is the named outcome of these arguments; that an
/// empty name is rejected (the function's first test); and that without
/// normalization an accepted name comes back unchanged (as its documentation
/// states).
#[verifier::external_body]
fn grit_check_refname(name: &str, allow_onelevel: bool, refspec_pattern: bool, normalize: bool) -> (res:
    Result<String, String>)
    ensures
        match res {
            Ok(s) => refname_format(name@, allow_onelevel, refspec_pattern, normalize) == Ok::<
                Seq<char>,
                Seq<char>,
            >(s@),
            Err(m) => refname_format(name@, allow_onelevel, refspec_pattern, normalize) == Err::<
                Seq<char>,
                Seq<char>,
            >(m@),
        },
        name@.len() == 0 ==> res is Err,
        !normalize ==> (res matches Ok(s) ==> s@ == name@),
{
    let opts = grit_lib::check_ref_format::RefNameOptions { allow_onelevel, refspec_pattern, normalize };
    match grit_lib::check_ref_format::check_refname_format(name, &opts) {
        Ok(s) => Ok(s),
        Err(e) => Err(format!("{e}")),
    }
}

/// What validating a ref name gives: the name as text, or the error message.
/// Names must be UTF-8 and pass git's ref-format rules, with one-level names
/// (such as `HEAD`) allowed.
pub open spec fn ref_name_verdict(name: Seq<u8>) -> Result<Seq<char>, Seq<char>> {
    if !valid_utf8(name) {
        Err("non-UTF-8 ref name"@)
    } else {
        let s = decode_utf8(name);
        match refname_format(s, true, false, false) {
            Ok(n) => Ok(n),
            Err(m) => Err("invalid ref name: "@ + debug_quoted(s) + ": "@ + m),
        }
    }
}

/// Validates a ref name before it reaches the ref store: it must be UTF-8 and
/// well formed (no `..`, no control characters, no `.lock` component, ...), so
/// that a name can never escape the repository directory.
pub fn validate_ref_name(name: &[u8]) -> (res: Result<String, BindingError>)
    ensures
        match res {
            Ok(s) => ref_name_verdict(name@) == Ok::<Seq<char>, Seq<char>>(s@),
            Err(e) => e.class == ErrorClass::RepositoryError && e.errno is None && ref_name_verdict(
                name@,
            ) == Err::<Seq<char>, Seq<char>>(e.message@),
        },
        res matches Ok(s) ==> s@ == decode_utf8(name@),
{
    let mut bytes: Vec<u8> = Vec::new();
    let mut i: usize = 0;
    while i < name.len()
        invariant
            0 <= i <= name@.len(),
            bytes@ == name@.subrange(0, i as int),
        decreases name@.len() - i,
    {
        bytes.push(name[i]);
        i = i + 1;
    }
    assert(bytes@ == name@);
    let s = match utf8_to_string(bytes) {
        Some(s) => s,
        None => {
            return Err(invalid_ref("non-UTF-8 ref name"));
        },
    };
    match grit_check_refname(s.as_str(), true, false, false) {
        Ok(n) => Ok(n),
        Err(m) => {
            let q = debug_quote(s.as_str());
            let mut msg = concat3("invalid ref name: ", q.as_str(), ": ");
            msg.append(m.as_str());
            proof {
                reveal_strlit("invalid ref name: ");
                reveal_strlit(": ");
            }
            Err(invalid_ref(msg.as_str()))
        },
    }
}

// ---------------------------------------------------------------------------
// References

/// What a reference points at: an object id, or the name of another ref.
#[derive(Debug)]
pub enum RefTarget {
    Direct(ObjectId),
    Symbolic(Vec<u8>),
}

/// The model of a reference's target.
pub ghost enum RefTargetView {
    Direct(Seq<u8>),
    Symbolic(Seq<u8>),
}

/// The model of a reference: its name and its target.
pub ghost struct ReferenceView {
    pub name: Seq<u8>,
    pub target: RefTargetView,
}

/// A reference as the ref store lists it: a name, and exactly one of a direct
/// id or a symbolic target.
#[derive(Debug)]
pub struct ReferenceData {
    name: Vec<u8>,
    target: RefTarget,
}

impl View for ReferenceData {
    type V = ReferenceView;

    closed spec fn view(&self) -> ReferenceView {
        ReferenceView {
            name: self.name@,
            target: match self.target {
                RefTarget::Direct(id) => RefTargetView::Direct(id@),
                RefTarget::Symbolic(t) => RefTargetView::Symbolic(t@),
            },
        }
    }
}

impl ReferenceData {
    /// A direct reference: `name` resolved to `oid`.
    pub fn direct(name: Vec<u8>, oid: ObjectId) -> (res: ReferenceData)
        ensures
            res@ == (ReferenceView { name: name@, target: RefTargetView::Direct(oid@) }),
    {
        ReferenceData { name, target: RefTarget::Direct(oid) }
    }

    /// A symbolic reference: `name` points at the ref `symbolic_target`.
    pub fn symbolic(name: Vec<u8>, symbolic_target: Vec<u8>) -> (res: ReferenceData)
        ensures
            res@ == (ReferenceView { name: name@, target: RefTargetView::Symbolic(symbolic_target@) }),
    {
        ReferenceData { name, target: RefTarget::Symbolic(symbolic_target) }
    }

    /// An independent copy.
    pub fn duplicate(&self) -> (res: ReferenceData)
        ensures
            res@ == self@,
    {
        let target = match &self.target {
            RefTarget::Direct(id) => RefTarget::Direct(id.copy()),
            RefTarget::Symbolic(t) => RefTarget::Symbolic(t.clone()),
        };
        ReferenceData { name: self.name.clone(), target }
    }
}

/// Where `HEAD` points, as the ref store reports it: a branch (symbolic HEAD),
/// or, when detached, the id it resolves to.
#[derive(Debug)]
pub enum HeadTarget {
    Branch(String),
    Detached(ObjectId),
}

/// A single reference: a name plus either a direct id or a symbolic target.
#[derive(Debug)]
pub struct Reference {
    data: ReferenceData,
}

/// What peeling a reference needs: nothing more for a direct reference (its
/// id), or a lookup of the ref by its (UTF-8) name for a symbolic one.
#[derive(Debug)]
pub enum PeelStep {
    Resolved(ObjectId),
    ResolveByName(String),
}

impl View for Reference {
    type V = ReferenceView;

    closed spec fn view(&self) -> ReferenceView {
        self.data@
    }
}

impl Reference {
    /// The reference for the given data.
    pub fn new(data: ReferenceData) -> (res: Reference)
        ensures
            res@ == data@,
    {
        Reference { data }
    }

    /// The `HEAD` reference: symbolic when HEAD names a branch, direct when
    /// it is detached.
    pub fn head(target: HeadTarget) -> (res: Reference)
        ensures
            res@.name == encode_utf8("HEAD"@),
            match target {
                HeadTarget::Branch(b) => res@.target == RefTargetView::Symbolic(encode_utf8(b@)),
                HeadTarget::Detached(id) => res@.target == RefTargetView::Direct(id@),
            },
    {
        let name = str_bytes("HEAD");
        let data = match target {
            HeadTarget::Branch(b) => ReferenceData::symbolic(name, string_bytes(&b)),
            HeadTarget::Detached(id) => ReferenceData::direct(name, id),
        };
        Reference { data }
    }

    /// The full ref name as raw bytes (such as `refs/heads/main` or `HEAD`).
    pub fn name(&self) -> (res: Vec<u8>)
        ensures
            res@ == self@.name,
    {
        self.data.name.clone()
    }

    /// The direct target id, or `None` for a symbolic ref.
    pub fn target(&self) -> (res: Option<ObjectId>)
        ensures
            match self@.target {
                RefTargetView::Direct(id) => res matches Some(r) && r@ == id,
                RefTargetView::Symbolic(_) => res is None,
            },
    {
        match &self.data.target {
            RefTarget::Direct(id) => Some(id.copy()),
            RefTarget::Symbolic(_) => None,
        }
    }

    /// The symbolic target ref name as raw bytes, or `None` for a direct ref.
    pub fn symbolic_target(&self) -> (res: Option<Vec<u8>>)
        ensures
            match self@.target {
                RefTargetView::Direct(_) => res is None,
                RefTargetView::Symbolic(t) => res matches Some(r) && r@ == t,
            },
    {
        match &self.data.target {
            RefTarget::Direct(_) => None,
            RefTarget::Symbolic(t) => Some(t.clone()),
        }
    }

    /// Whether this reference is symbolic (points at another ref).
    pub fn is_symbolic(&self) -> (res: bool)
        ensures
            res == (self@.target is Symbolic),
    {
        match &self.data.target {
            RefTarget::Direct(_) => false,
            RefTarget::Symbolic(_) => true,
        }
    }

    /// The first step of resolving this reference to a final id: a direct
    /// reference is already resolved; a symbolic one is looked up by its
    /// name, which must be UTF-8.
    pub fn peel_step(&self) -> (res: Result<PeelStep, BindingError>)
        ensures
            match self@.target {
                RefTargetView::Direct(id) => res matches Ok(PeelStep::Resolved(r)) && r@ == id,
                RefTargetView::Symbolic(_) => {
                    &&& valid_utf8(self@.name) ==> (res matches Ok(PeelStep::ResolveByName(n))
                        && n@ == decode_utf8(self@.name))
                    &&& !valid_utf8(self@.name) ==> (res matches Err(e) && e.class
                        == ErrorClass::RepositoryError && e.message@ == "non-UTF-8 ref name"@)
                },
            },
    {
        match &self.data.target {
            RefTarget::Direct(id) => Ok(PeelStep::Resolved(id.copy())),
            RefTarget::Symbolic(_) => {
                match utf8_to_string(self.data.name.clone()) {
                    Some(n) => Ok(PeelStep::ResolveByName(n)),
                    None => {
                        Err(invalid_ref("non-UTF-8 ref name"))
                    },
                }
            },
        }
    }

    /// The id a symbolic reference resolved to, or the mapped lookup failure.
    pub fn finish_peel(resolved: Result<ObjectId, GritFailure>) -> (res: Result<ObjectId, BindingError>)
        ensures
            match resolved {
                Ok(id) => res matches Ok(r) && r@ == id@,
                Err(f) => res matches Err(e) && e.class == crate::error::grit_class(f.kind) && if f.kind
                    == crate::error::GritErrorKind::Io {
                    e.errno == f.io_errno && e.message@ == f.io_message@
                } else {
                    e.errno is None && e.message@ == f.message@
                },
            },
    {
        match resolved {
            Ok(id) => Ok(id),
            Err(e) => Err(map_err(e)),
        }
    }
}

/// Iterator over a listing of references; it owns its entries.
#[derive(Debug)]
pub struct ReferenceIter {
    entries: Vec<ReferenceData>,
    idx: usize,
}

impl ReferenceIter {
    /// The models of the listed references.
    pub closed spec fn entries(&self) -> Seq<ReferenceView> {
        self.entries@.map_values(|d: ReferenceData| d@)
    }

    /// How many references have been handed out.
    pub closed spec fn position(&self) -> nat {
        self.idx as nat
    }

    /// An iterator over the given references, in order.
    pub fn new(entries: Vec<ReferenceData>) -> (res: ReferenceIter)
        ensures
            res.entries() == entries@.map_values(|d: ReferenceData| d@),
            res.position() == 0,
    {
        ReferenceIter { entries, idx: 0 }
    }

    /// An iterator over a ref-store listing of `(name, id)` pairs: each becomes
    /// a direct reference named by the name's UTF-8 bytes.
    pub fn from_listing(listing: Vec<(String, ObjectId)>) -> (res: ReferenceIter)
        ensures
            res.position() == 0,
            res.entries().len() == listing@.len(),
            forall|i: int|
                0 <= i < listing@.len() ==> #[trigger] res.entries()[i] == (ReferenceView {
                    name: encode_utf8(listing@[i].0@),
                    target: RefTargetView::Direct(listing@[i].1@),
                }),
    {
        let mut entries: Vec<ReferenceData> = Vec::new();
        let mut i: usize = 0;
        while i < listing.len()
            invariant
                0 <= i <= listing@.len(),
                entries@.len() == i,
                forall|j: int|
                    0 <= j < i ==> #[trigger] entries@[j]@ == (ReferenceView {
                        name: encode_utf8(listing@[j].0@),
                        target: RefTargetView::Direct(listing@[j].1@),
                    }),
            decreases listing@.len() - i,
        {
            let name = string_bytes(&listing[i].0);
            let d = ReferenceData::direct(name, listing[i].1.copy());
            entries.push(d);
            i = i + 1;
        }
        let res = ReferenceIter { entries, idx: 0 };
        assert forall|k: int| 0 <= k < listing@.len() implies #[trigger] res.entries()[k]
            == (ReferenceView {
            name: encode_utf8(listing@[k].0@),
            target: RefTargetView::Direct(listing@[k].1@),
        }) by {
            assert(res.entries()[k] == res.entries@[k]@);
        }
        res
    }

    /// The next reference, or `None` once every entry has been handed out.
    pub fn next_reference(&mut self) -> (res: Option<Reference>)
        ensures
            final(self).entries() == old(self).entries(),
            old(self).position() < old(self).entries().len() ==> {
                &&& res matches Some(r) && r@ == old(self).entries()[old(self).position() as int]
                &&& final(self).position() == old(self).position() + 1
            },
            old(self).position() >= old(self).entries().len() ==> res is None && final(self).position()
                == old(self).position(),
    {
        if self.idx < self.entries.len() {
            let d = self.entries[self.idx].duplicate();
            self.idx = self.idx + 1;
            Some(Reference { data: d })
        } else {
            None
        }
    }
}

// ---------------------------------------------------------------------------
// Compare-and-swap

/// Whether a ref write may go ahead given the ref's current value: `None`
/// when it may, else the mismatch message. A create-only write needs the ref
/// absent; a write with an expected old value needs the ref at exactly that
/// value; any other write always may.
pub open spec fn cas_verdict(
    refname: Seq<char>,
    current: Option<Seq<u8>>,
    expected: Option<Seq<u8>>,
    create_only: bool,
) -> Option<Seq<char>> {
    if create_only {
        match current {
            Some(_) => Some("ref "@ + refname + " already exists"@),
            None => None,
        }
    } else {
        match expected {
            None => None,
            Some(e) => match current {
                Some(c) => if c == e {
                    None
                } else {
                    Some("ref "@ + refname + " is "@ + hex_lower(c) + ", expected "@ + hex_lower(e))
                },
                None => Some("ref "@ + refname + " does not exist, expected "@ + hex_lower(e)),
            },
        }
    }
}

/// The view of an optional id.
pub open spec fn opt_id(o: Option<&ObjectId>) -> Option<Seq<u8>> {
    match o {
        Some(id) => Some(id@),
        None => None,
    }
}

/// Checks a ref's current value against what the write requires; the
/// mismatch message when it does not hold.
pub fn ref_state_mismatch(
    refname: &str,
    current: Option<&ObjectId>,
    expected_old: Option<&ObjectId>,
    create_only: bool,
) -> (res: Option<String>)
    ensures
        match res {
            Some(m) => cas_verdict(refname@, opt_id(current), opt_id(expected_old), create_only) == Some(
                m@,
            ),
            None => cas_verdict(refname@, opt_id(current), opt_id(expected_old), create_only) is None,
        },
{
    proof {
        reveal_strlit("ref ");
        reveal_strlit(" already exists");
        reveal_strlit(" is ");
        reveal_strlit(", expected ");
        reveal_strlit(" does not exist, expected ");
    }
    if create_only {
        return match current {
            Some(_) => Some(concat3("ref ", refname, " already exists")),
            None => None,
        };
    }
    match expected_old {
        None => None,
        Some(e) => match current {
            Some(c) => {
                if c.same(e) {
                    None
                } else {
                    let ch = c.hex();
                    let eh = e.hex();
                    let mut m = concat3("ref ", refname, " is ");
                    m.append(ch.as_str());
                    m.append(", expected ");
                    m.append(eh.as_str());
                    Some(m)
                }
            },
            None => {
                let eh = e.hex();
                let mut m = concat3("ref ", refname, " does not exist, expected ");
                m.append(eh.as_str());
                Some(m)
            },
        },
    }
}

/// Law: a guarded ref write goes ahead exactly when a create-only write finds
/// the ref absent, or a compare-and-swap finds the ref at the expected value,
/// or the write is unguarded.
pub proof fn law_cas_accepts_exactly(
    refname: Seq<char>,
    current: Option<Seq<u8>>,
    expected: Option<Seq<u8>>,
    create_only: bool,
)
    ensures
        cas_verdict(refname, current, expected, create_only) is None <==> (if create_only {
            current is None
        } else {
            expected is None || current == expected
        }),
{
}

/// Law: once a create-only write has gone ahead and the ref holds the new id,
/// a second create-only write of the same ref is refused; and a
/// compare-and-swap against the value just written goes ahead.
pub proof fn law_write_then_guarded_write(refname: Seq<char>, before: Option<Seq<u8>>, written: Seq<u8>)
    ensures
        cas_verdict(refname, before, None, true) is None ==> cas_verdict(
            refname,
            Some(written),
            None,
            true,
        ) is Some,
        cas_verdict(refname, Some(written), Some(written), false) is None,
{
}

/// A failure of a compare-and-swap write or delete done under the ref's lock.
#[derive(Debug)]
pub enum CasError {
    /// The ref was not in the required state.
    Mismatch(String),
    /// Another writer holds the ref's lock.
    Locked(String),
    /// A failure inside grit-lib.
    Grit(GritFailure),
    /// A file-system failure, with its errno when the OS gave one.
    Io { errno: Option<i32>, message: String },
}

/// The failure for a ref lock that could not be taken: contention when the
/// lock file already exists, else the file-system failure itself.
pub fn lock_failure(refname: &str, already_exists: bool, errno: Option<i32>, message: String) -> (res:
    CasError)
    ensures
        already_exists ==> (res matches CasError::Locked(m) && m@ == "cannot lock ref '"@ + refname@
            + "'"@),
        !already_exists ==> (res matches CasError::Io { errno: n, message: m } && n == errno && m@
            == message@),
{
    if already_exists {
        CasError::Locked(concat3("cannot lock ref '", refname, "'"))
    } else {
        CasError::Io { errno, message }
    }
}

/// The class of error each compare-and-swap failure is raised as.
pub open spec fn cas_class(e: CasError) -> ErrorClass {
    match e {
        CasError::Mismatch(_) => ErrorClass::RefMismatchError,
        CasError::Locked(_) => ErrorClass::RepositoryError,
        CasError::Grit(g) => crate::error::grit_class(g.kind),
        CasError::Io { .. } => ErrorClass::OsError,
    }
}

/// Maps a compare-and-swap failure onto the error raised for it: a mismatch
/// is a ref-mismatch error, contention a repository error, a grit-lib failure
/// is mapped as usual, and a file-system failure is an OS error keeping its
/// errno.
pub fn cas_error_to_binding(e: CasError) -> (res: BindingError)
    ensures
        res.class == cas_class(e),
        match e {
            CasError::Mismatch(m) => res.message@ == m@ && res.errno is None,
            CasError::Locked(m) => res.message@ == m@ && res.errno is None,
            CasError::Grit(g) => if g.kind == GritErrorKind::Io {
                res.errno == g.io_errno && res.message@ == g.io_message@
            } else {
                res.errno is None && res.message@ == g.message@
            },
            CasError::Io { errno, message } => res.message@ == message@ && res.errno == errno,
        },
{
    match e {
        CasError::Mismatch(m) => error_of(ErrorClass::RefMismatchError, m),
        CasError::Locked(m) => invalid_ref(m.as_str()),
        CasError::Grit(g) => map_err(g),
        CasError::Io { errno, message } => BindingError { class: ErrorClass::OsError, message, errno },
    }
}

/// After a compare-and-swap delete has removed the loose ref file (if any),
/// whether the ref store must still be asked to delete the ref: when a
/// packed entry exists, or when there was no loose file to remove.
pub fn needs_store_delete(packed_entry: bool, loose_existed: bool) -> (res: bool)
    ensures
        res == (packed_entry || !loose_existed),
{
    packed_entry || !loose_existed
}

} // verus!
