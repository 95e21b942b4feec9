//! Push planning and reporting: refspecs and push specs become ref updates, and
//! per-ref outcomes become a report whose `ok` says whether every ref landed.

use vstd::prelude::*;
use vstd::utf8::{valid_utf8, decode_utf8, encode_utf8};
use crate::text::{
    concat2, concat3, debug_quote, debug_quoted, owned, seq_starts_with, str_starts_with,
    utf8_to_string, string_bytes,
};
use crate::error::{
    BindingError, ErrorClass, GritFailure, error_of, grit_net_class, net_map_err, value_err,
};
use crate::oid::ObjectId;
use crate::transport::{Scheme, classify, scheme_of, unsupported_url_message};

verus! {

/// The optional-id view.
pub open spec fn opt_oid_view(o: Option<ObjectId>) -> Option<Seq<u8>> {
    match o {
        Some(x) => Some(x@),
        None => None,
    }
}

fn copy_opt_oid(o: &Option<ObjectId>) -> (res: Option<ObjectId>)
    ensures
        opt_oid_view(res) == opt_oid_view(*o),
{
    match o {
        Some(x) => Some(x.copy()),
        None => None,
    }
}

/// One ref update to request from the remote (grit-lib's `PushRefSpec`, as
/// plain values): push `src` to `dst` (or delete `dst` when `src` is absent).
#[derive(Debug)]
pub struct PushRefSpec {
    pub src: Option<ObjectId>,
    pub dst: String,
    pub force: bool,
    pub delete: bool,
    pub expected_old: Option<ObjectId>,
    pub expect_absent: bool,
}

/// A structured push request: the remote ref `dst` (bytes), the local object
/// `src` (absent means delete), force, and the force-with-lease knobs.
#[derive(Debug)]
pub struct PushSpec {
    src: Option<ObjectId>,
    dst: Vec<u8>,
    force: bool,
    delete: bool,
    expected_old: Option<ObjectId>,
    expect_absent: bool,
}

/// The abstract value of a push spec.
pub ghost struct PushSpecView {
    pub src: Option<Seq<u8>>,
    pub dst: Seq<u8>,
    pub force: bool,
    pub delete: bool,
    pub expected_old: Option<Seq<u8>>,
    pub expect_absent: bool,
}

impl View for PushSpec {
    type V = PushSpecView;

    closed spec fn view(&self) -> PushSpecView {
        PushSpecView {
            src: opt_oid_view(self.src),
            dst: self.dst@,
            force: self.force,
            delete: self.delete,
            expected_old: opt_oid_view(self.expected_old),
            expect_absent: self.expect_absent,
        }
    }
}

impl PushSpec {
    /// A push spec with the given fields.
    pub fn new(
        dst: Vec<u8>,
        src: Option<ObjectId>,
        force: bool,
        delete: bool,
        expected_old: Option<ObjectId>,
        expect_absent: bool,
    ) -> (res: PushSpec)
        ensures
            res@ == (PushSpecView {
                src: opt_oid_view(src),
                dst: dst@,
                force,
                delete,
                expected_old: opt_oid_view(expected_old),
                expect_absent,
            }),
    {
        PushSpec { src, dst, force, delete, expected_old, expect_absent }
    }

    pub fn dst(&self) -> (res: Vec<u8>)
        ensures
            res@ == self@.dst,
    {
        self.dst.clone()
    }

    pub fn src(&self) -> (res: Option<ObjectId>)
        ensures
            opt_oid_view(res) == self@.src,
    {
        copy_opt_oid(&self.src)
    }

    pub fn force(&self) -> (res: bool)
        ensures
            res == self@.force,
    {
        self.force
    }

    pub fn delete(&self) -> (res: bool)
        ensures
            res == self@.delete,
    {
        self.delete
    }

    pub fn expected_old(&self) -> (res: Option<ObjectId>)
        ensures
            opt_oid_view(res) == self@.expected_old,
    {
        copy_opt_oid(&self.expected_old)
    }

    pub fn expect_absent(&self) -> (res: bool)
        ensures
            res == self@.expect_absent,
    {
        self.expect_absent
    }

    /// The ref update this spec requests. The method-level `force` is or-ed
    /// with the spec's own; the destination must be UTF-8.
    pub fn to_ref_spec(&self, force_kwarg: bool) -> (res: Result<PushRefSpec, BindingError>)
        ensures
            res is Ok <==> valid_utf8(self@.dst),
            res matches Ok(r) ==> {
                &&& opt_oid_view(r.src) == self@.src
                &&& encode_utf8(r.dst@) == self@.dst
                &&& r.force == (self@.force || force_kwarg)
                &&& r.delete == self@.delete
                &&& opt_oid_view(r.expected_old) == self@.expected_old
                &&& r.expect_absent == self@.expect_absent
            },
            res matches Err(e) ==> e.class == ErrorClass::ValueError && e.message@
                == "PushSpec.dst must be valid UTF-8"@,
    {
        match utf8_to_string(self.dst.clone()) {
            None => Err(value_err("PushSpec.dst must be valid UTF-8")),
            Some(dst) => Ok(
                PushRefSpec {
                    src: copy_opt_oid(&self.src),
                    dst,
                    force: self.force || force_kwarg,
                    delete: self.delete,
                    expected_old: copy_opt_oid(&self.expected_old),
                    expect_absent: self.expect_absent,
                },
            ),
        }
    }
}

// ---------------------------------------------------------------------------
// String refspecs

/// A push refspec as grit-lib's `refspec::parse_push_refspec` returns it, in
/// the parts the push planning reads.
pub ghost struct RefspecParse {
    pub force: bool,
    pub matching: bool,
    pub src: Option<Seq<char>>,
    pub dst: Option<Seq<char>>,
}

/// The result of grit-lib's `refspec::parse_push_refspec`; `None` when invalid.
pub uninterp spec fn push_refspec_parse(refspec: Seq<char>) -> Option<RefspecParse>;

/// The parts of a parsed push refspec that the push planning reads.
pub struct RefspecParts {
    pub force: bool,
    pub matching: bool,
    pub src: Option<String>,
    pub dst: Option<String>,
}

/// Parses a push refspec with grit-lib's `refspec::parse_push_refspec`.
///
/// Claims the result is a function of the refspec text, and, as grit-lib's
/// `RefspecError` `Display` shows, that the error text is
/// `invalid refspec '<refspec>'`.
#[verifier::external_body]
fn grit_parse_push_refspec(s: &str) -> (res: Result<RefspecParts, String>)
    ensures
        res is Ok <==> push_refspec_parse(s@) is Some,
        res matches Ok(p) ==> push_refspec_parse(s@) == Some(parts_view(p)),
        res matches Err(m) ==> m@ == "invalid refspec '"@ + s@ + "'"@,
{
    match grit_lib::refspec::parse_push_refspec(s) {
        Ok(item) => Ok(RefspecParts { force: item.force, matching: item.matching, src: item.src, dst: item.dst }),
        Err(e) => Err(e.to_string()),
    }
}

/// What a string refspec asks for, before the source is resolved.
#[derive(Debug)]
pub enum RefspecPlan {
    /// A deletion of a remote ref (`:dst`); nothing local to resolve.
    Delete(PushRefSpec),
    /// Push the local revision `src` to `dst`; when `dst` is absent it is
    /// inferred from `src` (see [`default_push_dst`]).
    Push { src: String, dst: Option<String>, force: bool },
}

/// The message for the bare matching refspec `:`.
pub open spec fn matching_refspec_message(s: Seq<char>) -> Seq<char> {
    "the matching refspec "@ + debug_quoted(s)
        + " (push all matching refs) is not supported; specify explicit refspecs"@
}

/// The message for a deletion without a destination.
pub open spec fn delete_needs_dst_message(s: Seq<char>) -> Seq<char> {
    "delete refspec "@ + debug_quoted(s) + " needs a destination (e.g. \":refs/heads/<name>\")"@
}

/// What planning a parsed refspec `p` (from the text `s`) gives: the
/// method-level `force` is or-ed with the refspec's `+`; an empty or missing
/// source is a deletion, which needs a destination (the bare `:`, which pushes
/// all matching refs, is refused); otherwise the source is pushed to the
/// destination, if one was given.
pub open spec fn refspec_planned(
    s: Seq<char>,
    p: RefspecParse,
    force_kwarg: bool,
    res: Result<RefspecPlan, BindingError>,
) -> bool {
    let force = p.force || force_kwarg;
    let src_empty = match p.src {
        Some(x) => x.len() == 0,
        None => true,
    };
    if src_empty {
        match p.dst {
            Some(d) => res matches Ok(RefspecPlan::Delete(r)) && r.src is None && r.dst@ == d
                && r.force == force && r.delete && r.expected_old is None && !r.expect_absent,
            None => res matches Err(e) && e.class == ErrorClass::ValueError && e.message@ == (
            if p.matching {
                matching_refspec_message(s)
            } else {
                delete_needs_dst_message(s)
            }),
        }
    } else {
        res matches Ok(RefspecPlan::Push { src, dst, force: f }) && src@ == p.src.unwrap() && f
            == force && match p.dst {
            Some(d) => dst matches Some(x) && x@ == d,
            None => dst is None,
        }
    }
}

/// The model of parsed refspec parts.
pub open spec fn parts_view(p: RefspecParts) -> RefspecParse {
    RefspecParse {
        force: p.force,
        matching: p.matching,
        src: match p.src {
            Some(x) => Some(x@),
            None => None,
        },
        dst: match p.dst {
            Some(x) => Some(x@),
            None => None,
        },
    }
}

/// Plans a refspec from the parts grit-lib parsed out of the text `s` (see
/// [`refspec_planned`]).
pub fn plan_parsed_refspec(s: &str, item: RefspecParts, force_kwarg: bool) -> (res: Result<
    RefspecPlan,
    BindingError,
>)
    ensures
        refspec_planned(s@, parts_view(item), force_kwarg, res),
{
    let force = item.force || force_kwarg;
    let src = match item.src {
        Some(x) => {
            if x.as_str().unicode_len() == 0 {
                None
            } else {
                Some(x)
            }
        },
        None => None,
    };
    match src {
        None => match item.dst {
            Some(dst) => Ok(
                RefspecPlan::Delete(
                    PushRefSpec {
                        src: None,
                        dst,
                        force,
                        delete: true,
                        expected_old: None,
                        expect_absent: false,
                    },
                ),
            ),
            None => {
                let q = debug_quote(s);
                if item.matching {
                    let m = concat3(
                        "the matching refspec ",
                        q.as_str(),
                        " (push all matching refs) is not supported; specify explicit refspecs",
                    );
                    Err(error_of(ErrorClass::ValueError, m))
                } else {
                    let m = concat3(
                        "delete refspec ",
                        q.as_str(),
                        " needs a destination (e.g. \":refs/heads/<name>\")",
                    );
                    Err(error_of(ErrorClass::ValueError, m))
                }
            },
        },
        Some(src_name) => Ok(RefspecPlan::Push { src: src_name, dst: item.dst, force }),
    }
}

/// Law: the force a refspec is planned with is its own `+` or the call's
/// `force`, and nothing else: a refspec with a source is pushed from that
/// source, forced exactly when it carries `+` or the call asks for force (so a
/// plain `src:dst` planned without force is never forced), and a deletion with
/// a destination is forced on the same terms.
pub proof fn law_refspec_force(
    s: Seq<char>,
    p: RefspecParse,
    force_kwarg: bool,
    res: Result<RefspecPlan, BindingError>,
)
    requires
        refspec_planned(s, p, force_kwarg, res),
    ensures
        (p.src matches Some(x) && x.len() > 0) ==> (res matches Ok(RefspecPlan::Push { src, dst, force })
            && src@ == p.src->Some_0 && force == (p.force || force_kwarg)),
        (!p.force && !force_kwarg && (p.src matches Some(x) && x.len() > 0)) ==> (res matches Ok(
            RefspecPlan::Push { force, .. },
        ) && !force),
        (p.src matches Some(x) && x.len() == 0 && p.dst is Some) ==> (res matches Ok(RefspecPlan::Delete(r))
            && r.force == (p.force || force_kwarg) && r.delete && r.dst@ == p.dst->Some_0),
        (p.src is None && p.dst is Some) ==> (res matches Ok(RefspecPlan::Delete(r)) && r.force == (
        p.force || force_kwarg) && r.delete && r.dst@ == p.dst->Some_0),
{
}

/// Law: a refspec with a source is pushed to the destination it names, and
/// with no destination named none is chosen yet (it is inferred later).
pub proof fn law_refspec_destination(
    s: Seq<char>,
    p: RefspecParse,
    force_kwarg: bool,
    res: Result<RefspecPlan, BindingError>,
)
    requires
        refspec_planned(s, p, force_kwarg, res),
        p.src matches Some(x) && x.len() > 0,
    ensures
        p.dst matches Some(d) ==> (res matches Ok(RefspecPlan::Push { dst: Some(x), .. }) && x@ == d),
        p.dst is None ==> (res matches Ok(RefspecPlan::Push { dst, .. }) && dst is None),
{
}

/// Plans one string refspec (`[+]<src>[:<dst>]`, `:<dst>` to delete): a
/// value error when grit-lib does not parse it, else as
/// [`plan_parsed_refspec`] plans the parsed parts.
pub fn plan_push_refspec(s: &str, force_kwarg: bool) -> (res: Result<RefspecPlan, BindingError>)
    ensures
        push_refspec_parse(s@) is None ==> (res matches Err(e) && e.class == ErrorClass::ValueError
            && e.message@ == "invalid refspec '"@ + s@ + "'"@),
        push_refspec_parse(s@) matches Some(p) ==> refspec_planned(s@, p, force_kwarg, res),
{
    match grit_parse_push_refspec(s) {
        Ok(item) => plan_parsed_refspec(s, item, force_kwarg),
        Err(m) => Err(error_of(ErrorClass::ValueError, m)),
    }
}

/// The refs a source name could be, in git's precedence order.
pub open spec fn dst_candidates(src: Seq<char>) -> Seq<Seq<char>> {
    seq![
        "refs/"@ + src,
        "refs/tags/"@ + src,
        "refs/heads/"@ + src,
        "refs/remotes/"@ + src,
        "refs/remotes/"@ + src + "/HEAD"@,
    ]
}

/// The candidate local refs a push source name may resolve to, in git's
/// precedence order: `refs/<n>`, `refs/tags/<n>`, `refs/heads/<n>`,
/// `refs/remotes/<n>`, `refs/remotes/<n>/HEAD`.
pub fn push_dst_candidates(src: &str) -> (res: Vec<String>)
    ensures
        res@.len() == 5,
        forall|i: int| 0 <= i < 5 ==> #[trigger] res@[i]@ == dst_candidates(src@)[i],
{
    let mut v: Vec<String> = Vec::new();
    v.push(concat2("refs/", src));
    v.push(concat2("refs/tags/", src));
    v.push(concat2("refs/heads/", src));
    v.push(concat2("refs/remotes/", src));
    v.push(concat3("refs/remotes/", src, "/HEAD"));
    v
}

/// The message when no destination can be inferred.
pub open spec fn no_dst_message(src: Seq<char>) -> Seq<char> {
    "refspec "@ + debug_quoted(src)
        + ": cannot infer a destination ref (the source is not a local ref); specify an explicit destination as <src>:<dst>"@
}

/// The destination a source pushes to when none is given: a source already
/// under `refs/` as is, else the first candidate (see [`push_dst_candidates`])
/// that exists locally, where `present[i]` says whether candidate `i` resolves.
/// A value error when none does (a bare id or other non-ref revision).
pub fn default_push_dst(src: &str, present: &Vec<bool>) -> (res: Result<String, BindingError>)
    requires
        present@.len() == 5,
    ensures
        seq_starts_with(src@, "refs/"@) ==> (res matches Ok(d) && d@ == src@),
        !seq_starts_with(src@, "refs/"@) ==> {
            &&& (exists|i: int| 0 <= i < 5 && present@[i]) ==> (res matches Ok(d) && ({
                let k = choose|k: int|
                    0 <= k < 5 && present@[k] && forall|j: int| 0 <= j < k ==> !present@[j];
                d@ == dst_candidates(src@)[k]
            }))
            &&& (forall|i: int| 0 <= i < 5 ==> !present@[i]) ==> (res matches Err(e) && e.class
                == ErrorClass::ValueError && e.message@ == no_dst_message(src@))
        },
{
    if str_starts_with(src, "refs/") {
        return Ok(owned(src));
    }
    let cands = push_dst_candidates(src);
    let mut i: usize = 0;
    while i < 5
        invariant
            0 <= i <= 5,
            present@.len() == 5,
            cands@.len() == 5,
            forall|k: int| 0 <= k < 5 ==> #[trigger] cands@[k]@ == dst_candidates(src@)[k],
            !seq_starts_with(src@, "refs/"@),
            forall|j: int| 0 <= j < i ==> !present@[j],
        decreases 5 - i,
    {
        if present[i] {
            proof {
                assert(0 <= i < 5 && present@[i as int] && forall|j: int| 0 <= j < i ==> !present@[j]);
                let k = choose|k: int|
                    0 <= k < 5 && present@[k] && forall|j: int| 0 <= j < k ==> !present@[j];
                assert(0 <= k < 5 && present@[k] && forall|j: int| 0 <= j < k ==> !present@[j]);
                if k < i {
                    assert(!present@[k]);
                } else if i < k {
                    assert(!present@[i as int]);
                }
            }
            return Ok(cands[i].clone());
        }
        i = i + 1;
    }
    let q = debug_quote(src);
    let m = concat3(
        "refspec ",
        q.as_str(),
        ": cannot infer a destination ref (the source is not a local ref); specify an explicit destination as <src>:<dst>",
    );
    Err(error_of(ErrorClass::ValueError, m))
}

/// The ref update for a planned push once its source resolved to `oid`.
pub fn push_ref_spec(oid: ObjectId, dst: String, force: bool) -> (res: PushRefSpec)
    ensures
        opt_oid_view(res.src) == Some(oid@),
        res.dst@ == dst@,
        res.force == force,
        !res.delete,
        res.expected_old is None,
        !res.expect_absent,
{
    PushRefSpec { src: Some(oid), dst, force, delete: false, expected_old: None, expect_absent: false }
}

// ---------------------------------------------------------------------------
// Dispatch and reporting

/// How a push runs: not at all (nothing was requested), or over a transport.
#[derive(Debug)]
pub enum PushPlan {
    Nothing(PushReport),
    Transfer(Scheme),
}

/// Decides how a push of `spec_count` ref updates to `url` runs. An empty
/// request is a no-op that never contacts the remote (and never validates the
/// URL): its report is empty and ok. Otherwise the URL selects the transport.
pub fn plan_push(spec_count: usize, url: &str) -> (res: Result<PushPlan, BindingError>)
    ensures
        spec_count == 0 ==> (res matches Ok(PushPlan::Nothing(r)) && r@.results.len() == 0
            && r@.ok),
        spec_count > 0 ==> match scheme_of(url@) {
            Some(s) => res matches Ok(PushPlan::Transfer(t)) && t == s,
            None => res matches Err(e) && e.class == ErrorClass::NetworkError && e.message@
                == unsupported_url_message(url@),
        },
{
    if spec_count == 0 {
        return Ok(PushPlan::Nothing(PushReport { results: Vec::new(), ok: true }));
    }
    match classify(url) {
        Ok(s) => Ok(PushPlan::Transfer(s)),
        Err(e) => Err(e),
    }
}

/// Why a push failed: the progress callback raised (its error is handed back
/// as it was raised), or the transfer itself failed.
#[derive(Debug)]
pub enum PushFailure<E> {
    Callback(E),
    Transfer(BindingError),
}

/// Settles a finished transfer: an error raised by the progress callback
/// during the transfer wins over whatever the transfer returned; otherwise a
/// transfer failure is mapped as a network failure (see
/// [`crate::error::net_map_err`]) and a transfer result passes through.
pub fn settle_push<T, E>(callback_error: Option<E>, transfer: Result<T, GritFailure>) -> (res: Result<
    T,
    PushFailure<E>,
>)
    ensures
        callback_error matches Some(c) ==> (res matches Err(PushFailure::Callback(x)) && x == c),
        callback_error is None ==> match transfer {
            Ok(t) => res matches Ok(x) && x == t,
            Err(f) => res matches Err(PushFailure::Transfer(b)) && b.class == grit_net_class(f.kind)
                && b.errno is None && b.message@ == f.message@,
        },
{
    match callback_error {
        Some(c) => Err(PushFailure::Callback(c)),
        None => match transfer {
            Ok(t) => Ok(t),
            Err(f) => Err(PushFailure::Transfer(net_map_err(f))),
        },
    }
}

/// The per-ref outcomes of a push (grit-lib's `PushRefStatus`, one for one).
#[derive(Clone, Copy, Debug, PartialEq, Eq, Structural)]
pub enum PushStatus {
    UpToDate,
    Updated,
    RejectNonFastForward,
    RejectAlreadyExists,
    RejectFetchFirst,
    RejectNeedsForce,
    RejectStale,
    RemoteRejected,
    AtomicPushFailed,
}

/// The lower-kebab name surfaced for each push status.
pub open spec fn status_name(s: PushStatus) -> Seq<char> {
    match s {
        PushStatus::UpToDate => "up-to-date"@,
        PushStatus::Updated => "ok"@,
        PushStatus::RejectNonFastForward => "reject-non-fast-forward"@,
        PushStatus::RejectAlreadyExists => "reject-already-exists"@,
        PushStatus::RejectFetchFirst => "reject-fetch-first"@,
        PushStatus::RejectNeedsForce => "reject-needs-force"@,
        PushStatus::RejectStale => "reject-stale"@,
        PushStatus::RemoteRejected => "remote-rejected"@,
        PushStatus::AtomicPushFailed => "atomic-push-failed"@,
    }
}

/// The lower-kebab name surfaced for a push status.
pub fn push_status_str(s: PushStatus) -> (res: &'static str)
    ensures
        res@ == status_name(s),
{
    match s {
        PushStatus::UpToDate => "up-to-date",
        PushStatus::Updated => "ok",
        PushStatus::RejectNonFastForward => "reject-non-fast-forward",
        PushStatus::RejectAlreadyExists => "reject-already-exists",
        PushStatus::RejectFetchFirst => "reject-fetch-first",
        PushStatus::RejectNeedsForce => "reject-needs-force",
        PushStatus::RejectStale => "reject-stale",
        PushStatus::RemoteRejected => "remote-rejected",
        PushStatus::AtomicPushFailed => "atomic-push-failed",
    }
}

/// Whether a status counts as success: the ref was updated or already current.
pub open spec fn status_ok(s: PushStatus) -> bool {
    s == PushStatus::Updated || s == PushStatus::UpToDate
}

/// One ref's outcome as the transfer reports it (grit-lib's push result, as
/// plain values).
#[derive(Debug)]
pub struct PushRefOutcome {
    pub local_ref: Option<String>,
    pub remote_ref: String,
    pub old_oid: Option<ObjectId>,
    pub new_oid: Option<ObjectId>,
    pub forced: bool,
    pub deletion: bool,
    pub status: PushStatus,
    pub message: Option<String>,
}

/// One ref's result as surfaced: ref names as bytes, the status by name, and
/// the server's rejection text when there is one.
#[derive(Debug)]
pub struct PushRefResult {
    local_ref: Option<Vec<u8>>,
    remote_ref: Vec<u8>,
    old_oid: Option<ObjectId>,
    new_oid: Option<ObjectId>,
    forced: bool,
    deletion: bool,
    status: String,
    message: Option<String>,
}

/// The abstract value of a push result.
pub ghost struct PushRefResultView {
    pub local_ref: Option<Seq<u8>>,
    pub remote_ref: Seq<u8>,
    pub old_oid: Option<Seq<u8>>,
    pub new_oid: Option<Seq<u8>>,
    pub forced: bool,
    pub deletion: bool,
    pub status: Seq<char>,
    pub message: Option<Seq<char>>,
}

impl View for PushRefResult {
    type V = PushRefResultView;

    closed spec fn view(&self) -> PushRefResultView {
        PushRefResultView {
            local_ref: match self.local_ref {
                Some(r) => Some(r@),
                None => None,
            },
            remote_ref: self.remote_ref@,
            old_oid: opt_oid_view(self.old_oid),
            new_oid: opt_oid_view(self.new_oid),
            forced: self.forced,
            deletion: self.deletion,
            status: self.status@,
            message: match self.message {
                Some(m) => Some(m@),
                None => None,
            },
        }
    }
}

/// What the surfaced result of one outcome holds.
pub open spec fn result_of_outcome(o: PushRefOutcome) -> PushRefResultView {
    PushRefResultView {
        local_ref: match o.local_ref {
            Some(r) => Some(encode_utf8(r@)),
            None => None,
        },
        remote_ref: encode_utf8(o.remote_ref@),
        old_oid: opt_oid_view(o.old_oid),
        new_oid: opt_oid_view(o.new_oid),
        forced: o.forced,
        deletion: o.deletion,
        status: status_name(o.status),
        message: match o.message {
            Some(m) => Some(m@),
            None => None,
        },
    }
}

impl PushRefResult {
    pub fn local_ref(&self) -> (res: Option<Vec<u8>>)
        ensures
            match res {
                Some(r) => self@.local_ref == Some(r@),
                None => self@.local_ref is None,
            },
    {
        self.local_ref.clone()
    }

    pub fn remote_ref(&self) -> (res: Vec<u8>)
        ensures
            res@ == self@.remote_ref,
    {
        self.remote_ref.clone()
    }

    pub fn old_oid(&self) -> (res: Option<ObjectId>)
        ensures
            opt_oid_view(res) == self@.old_oid,
    {
        copy_opt_oid(&self.old_oid)
    }

    pub fn new_oid(&self) -> (res: Option<ObjectId>)
        ensures
            opt_oid_view(res) == self@.new_oid,
    {
        copy_opt_oid(&self.new_oid)
    }

    pub fn forced(&self) -> (res: bool)
        ensures
            res == self@.forced,
    {
        self.forced
    }

    pub fn deletion(&self) -> (res: bool)
        ensures
            res == self@.deletion,
    {
        self.deletion
    }

    pub fn status(&self) -> (res: &str)
        ensures
            res@ == self@.status,
    {
        self.status.as_str()
    }

    pub fn message(&self) -> (res: Option<&str>)
        ensures
            match res {
                Some(m) => self@.message == Some(m@),
                None => self@.message is None,
            },
    {
        match &self.message {
            Some(m) => Some(m.as_str()),
            None => None,
        }
    }
}

/// The result of a push: the per-ref results and whether all of them succeeded.
#[derive(Debug)]
pub struct PushReport {
    results: Vec<PushRefResult>,
    ok: bool,
}

/// The abstract value of a push report.
pub ghost struct PushReportView {
    pub results: Seq<PushRefResultView>,
    pub ok: bool,
}

impl View for PushReport {
    type V = PushReportView;

    closed spec fn view(&self) -> PushReportView {
        PushReportView { results: self.results@.map_values(|r: PushRefResult| r@), ok: self.ok }
    }
}

impl PushReport {
    /// The per-ref results, in the order the transfer reported them.
    pub fn results(&self) -> (res: &Vec<PushRefResult>)
        ensures
            res@.map_values(|r: PushRefResult| r@) == self@.results,
    {
        &self.results
    }

    /// Whether every ref was updated or already up to date.
    pub fn ok(&self) -> (res: bool)
        ensures
            res == self@.ok,
    {
        self.ok
    }
}

/// Builds the report of a push from its per-ref outcomes: one result per
/// outcome, in order, and `ok` exactly when every status is `ok` or
/// `up-to-date`.
pub fn build_push_report(outcomes: Vec<PushRefOutcome>) -> (res: PushReport)
    ensures
        res@.results.len() == outcomes@.len(),
        forall|i: int| 0 <= i < outcomes@.len() ==> #[trigger] res@.results[i] == result_of_outcome(
            outcomes@[i],
        ),
        res@.ok == (forall|i: int| 0 <= i < outcomes@.len() ==> status_ok(#[trigger] outcomes@[i].status)),
{
    let mut results: Vec<PushRefResult> = Vec::new();
    let mut ok = true;
    let mut i: usize = 0;
    while i < outcomes.len()
        invariant
            0 <= i <= outcomes@.len(),
            results@.len() == i,
            forall|k: int| 0 <= k < i ==> #[trigger] results@[k]@ == result_of_outcome(outcomes@[k]),
            ok == (forall|k: int| 0 <= k < i ==> status_ok(#[trigger] outcomes@[k].status)),
        decreases outcomes@.len() - i,
    {
        let o = &outcomes[i];
        if !(o.status == PushStatus::Updated || o.status == PushStatus::UpToDate) {
            ok = false;
        }
        let local_ref = match &o.local_ref {
            Some(r) => Some(string_bytes(r)),
            None => None,
        };
        let r = PushRefResult {
            local_ref,
            remote_ref: string_bytes(&o.remote_ref),
            old_oid: copy_opt_oid(&o.old_oid),
            new_oid: copy_opt_oid(&o.new_oid),
            forced: o.forced,
            deletion: o.deletion,
            status: owned(push_status_str(o.status)),
            message: o.message.clone(),
        };
        results.push(r);
        i = i + 1;
    }
    PushReport { results, ok }
}

/// Law: a push report is ok exactly when every result's status is `ok` or
/// `up-to-date`.
pub proof fn law_report_ok_iff_all_succeeded(outcomes: Seq<PushRefOutcome>, report: PushReportView)
    requires
        report.results.len() == outcomes.len(),
        forall|i: int| 0 <= i < outcomes.len() ==> #[trigger] report.results[i] == result_of_outcome(
            outcomes[i],
        ),
        report.ok == (forall|i: int| 0 <= i < outcomes.len() ==> status_ok(#[trigger] outcomes[i].status)),
    ensures
        report.ok <==> (forall|i: int|
            0 <= i < report.results.len() ==> (#[trigger] report.results[i].status == "ok"@
                || report.results[i].status == "up-to-date"@)),
{
    assert forall|i: int| 0 <= i < outcomes.len() implies (status_ok(#[trigger] outcomes[i].status)
        <==> (report.results[i].status == "ok"@ || report.results[i].status == "up-to-date"@)) by {
        lemma_status_names_distinct(outcomes[i].status);
    }
    if report.ok {
        assert forall|i: int| 0 <= i < report.results.len() implies (#[trigger] report.results[i].status
            == "ok"@ || report.results[i].status == "up-to-date"@) by {
            assert(status_ok(outcomes[i].status));
        }
    } else {
        let k = choose|k: int| 0 <= k < outcomes.len() && !status_ok(#[trigger] outcomes[k].status);
        assert(!(report.results[k].status == "ok"@ || report.results[k].status == "up-to-date"@));
    }
}

proof fn lemma_status_names_distinct(s: PushStatus)
    ensures
        status_ok(s) <==> (status_name(s) == "ok"@ || status_name(s) == "up-to-date"@),
{
    reveal_strlit("ok");
    reveal_strlit("up-to-date");
    reveal_strlit("reject-non-fast-forward");
    reveal_strlit("reject-already-exists");
    reveal_strlit("reject-fetch-first");
    reveal_strlit("reject-needs-force");
    reveal_strlit("reject-stale");
    reveal_strlit("remote-rejected");
    reveal_strlit("atomic-push-failed");
    if !status_ok(s) {
        assert(status_name(s).len() != "ok"@.len() || status_name(s)[0] != "ok"@[0]);
        assert(status_name(s).len() != "up-to-date"@.len() || status_name(s)[0] != "up-to-date"@[0]
            || status_name(s)[1] != "up-to-date"@[1]);
    }
}

} // verus!
