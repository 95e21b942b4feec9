//! Read-path network planning and reporting: which advertised refs `ls_remote`
//! lists, fetch options, fetch reports, and the branch a clone checks out.

use vstd::prelude::*;
use vstd::utf8::encode_utf8;
use crate::text::{
    concat2, concat3, debug_quote, debug_quoted, owned, seq_starts_with, str_equals,
    str_starts_with, string_bytes, strip_prefix_or_self, strip_prefix_or_self_exec,
};
use crate::error::{BindingError, ErrorClass, error_of, network_err};
use crate::oid::ObjectId;
use crate::push::opt_oid_view;
use crate::transport::{
    Scheme, classify, reject_creds_for_ssh, scheme_of, ssh_creds_message, ssh_url,
    unsupported_url_message,
};

verus! {

/// One advertised remote ref: name (bytes), id, and for the synthesized `HEAD`
/// row the ref it points at.
#[derive(Debug)]
pub struct RemoteRef {
    name: Vec<u8>,
    oid: ObjectId,
    symref_target: Option<Vec<u8>>,
}

/// The abstract value of a remote ref.
pub ghost struct RemoteRefView {
    pub name: Seq<u8>,
    pub oid: Seq<u8>,
    pub symref_target: Option<Seq<u8>>,
}

impl View for RemoteRef {
    type V = RemoteRefView;

    closed spec fn view(&self) -> RemoteRefView {
        RemoteRefView {
            name: self.name@,
            oid: self.oid@,
            symref_target: match self.symref_target {
                Some(t) => Some(t@),
                None => None,
            },
        }
    }
}

impl RemoteRef {
    pub fn name(&self) -> (res: Vec<u8>)
        ensures
            res@ == self@.name,
    {
        self.name.clone()
    }

    pub fn oid(&self) -> (res: ObjectId)
        ensures
            res@ == self@.oid,
    {
        self.oid.copy()
    }

    pub fn symref_target(&self) -> (res: Option<Vec<u8>>)
        ensures
            match res {
                Some(t) => self@.symref_target == Some(t@),
                None => self@.symref_target is None,
            },
    {
        self.symref_target.clone()
    }
}

/// An advertised ref as `(name, id)`.
pub type Advertised = (Seq<char>, Seq<u8>);

/// The abstract value of an advertisement.
pub open spec fn adv_view(v: Seq<(String, ObjectId)>) -> Seq<Advertised> {
    v.map_values(|e: (String, ObjectId)| (e.0@, e.1@))
}

/// Whether `ls_remote` keeps an advertised ref: `heads` selects branches and
/// `tags` selects tags (both together select both, like
/// `git ls-remote --heads --tags`); with neither, every ref is kept.
pub open spec fn keep_ref(name: Seq<char>, heads: bool, tags: bool) -> bool {
    if heads || tags {
        (heads && seq_starts_with(name, "refs/heads/"@)) || (tags && seq_starts_with(name, "refs/tags/"@))
    } else {
        true
    }
}

/// The listed rows for advertised refs, in advertisement order.
pub open spec fn listed_rows(adv: Seq<Advertised>, heads: bool, tags: bool) -> Seq<RemoteRefView>
    decreases adv.len(),
{
    if adv.len() == 0 {
        Seq::empty()
    } else {
        let prev = listed_rows(adv.drop_last(), heads, tags);
        let last = adv.last();
        if keep_ref(last.0, heads, tags) {
            prev.push(RemoteRefView { name: encode_utf8(last.0), oid: last.1, symref_target: None })
        } else {
            prev
        }
    }
}

/// Positions of the advertisement naming `target`.
pub open spec fn names_target(adv: Seq<Advertised>, target: Seq<char>) -> spec_fn(int) -> bool {
    |i: int| adv[i].0 == target
}

/// The synthesized `HEAD` row: only when no filter is given, the remote
/// advertised a `HEAD` symref, and its target is among the advertised refs
/// (the first such ref supplies the id).
pub open spec fn head_rows(adv: Seq<Advertised>, head: Option<Seq<char>>, heads: bool, tags: bool) -> Seq<
    RemoteRefView,
> {
    if heads || tags {
        Seq::empty()
    } else {
        match head {
            None => Seq::empty(),
            Some(t) => {
                let k = crate::text::first_pos(adv.len() as int, names_target(adv, t));
                if k < adv.len() {
                    seq![RemoteRefView { name: "HEAD"@.map_values(|c: char| c as u8), oid: adv[k].1, symref_target: Some(encode_utf8(t)) }]
                } else {
                    Seq::empty()
                }
            },
        }
    }
}

/// The rows `ls_remote` lists for an advertisement: the synthesized `HEAD`
/// row first (see [`head_rows`]), then the kept refs in order.
pub open spec fn ls_remote_rows(adv: Seq<Advertised>, head: Option<Seq<char>>, heads: bool, tags: bool) -> Seq<
    RemoteRefView,
> {
    head_rows(adv, head, heads, tags) + listed_rows(adv, heads, tags)
}

/// The first step of `ls_remote`, taken before any connection is attempted:
/// explicit credentials with an SSH URL are a value error (the ssh program
/// authenticates); otherwise the URL's transport, or the network error for a
/// URL that no transport supports.
pub fn ls_remote_transport(url: &str, username: &Option<String>, password: &Option<String>) -> (res:
    Result<Scheme, BindingError>)
    ensures
        ((username is Some || password is Some) && ssh_url(url@)) ==> (res matches Err(e) && e.class
            == ErrorClass::ValueError && e.message@ == ssh_creds_message()),
        !((username is Some || password is Some) && ssh_url(url@)) ==> match scheme_of(url@) {
            Some(s) => res == Ok::<Scheme, BindingError>(s),
            None => res matches Err(e) && e.class == ErrorClass::NetworkError && e.message@
                == unsupported_url_message(url@),
        },
{
    match reject_creds_for_ssh(url, username, password) {
        Err(e) => Err(e),
        Ok(()) => classify(url),
    }
}

fn head_bytes() -> (res: Vec<u8>)
    ensures
        res@ == "HEAD"@.map_values(|c: char| c as u8),
{
    let mut v: Vec<u8> = Vec::new();
    v.push(72u8);
    v.push(69u8);
    v.push(65u8);
    v.push(68u8);
    proof {
        reveal_strlit("HEAD");
        assert(v@ =~= "HEAD"@.map_values(|c: char| c as u8));
    }
    v
}

/// Lists remote refs (like `git ls-remote`) from a connection's advertisement:
/// see [`ls_remote_rows`]. Peeled `^{}` rows are not part of the advertisement.
pub fn ls_remote(
    advertised: &Vec<(String, ObjectId)>,
    head_target: &Option<String>,
    heads: bool,
    tags: bool,
) -> (res: Vec<RemoteRef>)
    ensures
        res@.map_values(|r: RemoteRef| r@) == ls_remote_rows(
            adv_view(advertised@),
            match head_target {
                Some(t) => Some(t@),
                None => None,
            },
            heads,
            tags,
        ),
{
    let ghost adv = adv_view(advertised@);
    let ghost head = match head_target {
        Some(t) => Some(t@),
        None => None,
    };
    let mut out: Vec<RemoteRef> = Vec::new();
    if !heads && !tags {
        match head_target {
            Some(target) => {
                let mut k: usize = 0;
                while k < advertised.len() && !str_equals(advertised[k].0.as_str(), target.as_str())
                    invariant
                        0 <= k <= advertised@.len(),
                        adv == adv_view(advertised@),
                        forall|j: int| 0 <= j < k ==> adv[j].0 != target@,
                    decreases advertised@.len() - k,
                {
                    k = k + 1;
                }
                proof {
                    let p = names_target(adv, target@);
                    assert(crate::text::is_first_pos(adv.len() as int, p, k as int));
                    crate::text::lemma_first_pos(adv.len() as int, p, k as int);
                }
                if k < advertised.len() {
                    out.push(
                        RemoteRef {
                            name: head_bytes(),
                            oid: advertised[k].1.copy(),
                            symref_target: Some(string_bytes(target)),
                        },
                    );
                }
            },
            None => {},
        }
    }
    assert(out@.map_values(|r: RemoteRef| r@) =~= head_rows(adv, head, heads, tags));
    let ghost hr = head_rows(adv, head, heads, tags);
    let mut i: usize = 0;
    while i < advertised.len()
        invariant
            0 <= i <= advertised@.len(),
            adv == adv_view(advertised@),
            out@.map_values(|r: RemoteRef| r@) == hr + listed_rows(adv.subrange(0, i as int), heads, tags),
        decreases advertised@.len() - i,
    {
        let name = &advertised[i].0;
        let keep = if heads || tags {
            (heads && str_starts_with(name.as_str(), "refs/heads/")) || (tags && str_starts_with(
                name.as_str(),
                "refs/tags/",
            ))
        } else {
            true
        };
        let ghost before = out@.map_values(|r: RemoteRef| r@);
        if keep {
            out.push(RemoteRef { name: string_bytes(name), oid: advertised[i].1.copy(), symref_target: None });
        }
        proof {
            let s = adv.subrange(0, i + 1);
            assert(s.drop_last() =~= adv.subrange(0, i as int));
            assert(s.last() == adv[i as int]);
            if keep {
                assert(out@.map_values(|r: RemoteRef| r@) =~= before.push(
                    RemoteRefView { name: encode_utf8(s.last().0), oid: s.last().1, symref_target: None },
                ));
            } else {
                assert(out@.map_values(|r: RemoteRef| r@) =~= before);
            }
        }
        i = i + 1;
    }
    assert(adv.subrange(0, advertised@.len() as int) =~= adv);
    out
}

// ---------------------------------------------------------------------------
// Fetch

/// How a fetch treats tags (grit-lib's `TagMode`, one for one).
#[derive(Clone, Copy, Debug, PartialEq, Eq, Structural)]
pub enum TagMode {
    NoTags,
    Following,
    All,
}

/// The options of a fetch: refspecs, tag mode and pruning.
#[derive(Debug)]
pub struct FetchRequest {
    pub refspecs: Vec<String>,
    pub tags: TagMode,
    pub prune: bool,
}

/// The refspec a fetch uses when none is given: every branch into
/// `refs/remotes/origin/*`.
pub open spec fn default_fetch_refspec() -> Seq<char> {
    "+refs/heads/*:refs/remotes/origin/*"@
}

/// The message for an unknown tag mode.
pub open spec fn bad_tags_message(tags: Seq<char>) -> Seq<char> {
    "tags must be 'none', 'following', or 'all' (got "@ + debug_quoted(tags) + ")"@
}

/// The fetch options for the given arguments. `tags` is one of `"none"`,
/// `"following"` or `"all"`; without refspecs every branch is fetched into
/// `refs/remotes/origin/*`.
pub fn build_fetch_options(refspecs: Option<Vec<String>>, tags: &str, prune: bool) -> (res: Result<
    FetchRequest,
    BindingError,
>)
    ensures
        (tags@ == "none"@ || tags@ == "following"@ || tags@ == "all"@) <==> res is Ok,
        res matches Ok(r) ==> {
            &&& (tags@ == "none"@ ==> r.tags == TagMode::NoTags)
            &&& (tags@ == "following"@ ==> r.tags == TagMode::Following)
            &&& (tags@ == "all"@ ==> r.tags == TagMode::All)
            &&& r.prune == prune
            &&& match refspecs {
                Some(v) => r.refspecs@ == v@,
                None => r.refspecs@.len() == 1 && r.refspecs@[0]@ == default_fetch_refspec(),
            }
        },
        res matches Err(e) ==> e.class == ErrorClass::ValueError && e.message@ == bad_tags_message(
            tags@,
        ),
{
    proof {
        reveal_strlit("none");
        reveal_strlit("following");
        reveal_strlit("all");
        assert("none"@.len() == 4 && "following"@.len() == 9 && "all"@.len() == 3);
    }
    let mode = if str_equals(tags, "none") {
        TagMode::NoTags
    } else if str_equals(tags, "following") {
        TagMode::Following
    } else if str_equals(tags, "all") {
        TagMode::All
    } else {
        let q = debug_quote(tags);
        let m = concat3("tags must be 'none', 'following', or 'all' (got ", q.as_str(), ")");
        return Err(error_of(ErrorClass::ValueError, m));
    };
    let refspecs = match refspecs {
        Some(v) => v,
        None => {
            let mut v: Vec<String> = Vec::new();
            v.push(owned("+refs/heads/*:refs/remotes/origin/*"));
            v
        },
    };
    Ok(FetchRequest { refspecs, tags: mode, prune })
}

/// How a fetched ref was updated (grit-lib's `UpdateMode`, one for one).
#[derive(Clone, Copy, Debug, PartialEq, Eq, Structural)]
pub enum UpdateMode {
    New,
    FastForward,
    Forced,
    UpToDate,
    NoChangeNeeded,
    NonFastForwardRejected,
    TagUpdateRejected,
    SourceObjectNotFound,
    Unborn,
    DeletedMissing,
}

/// The lower-kebab name surfaced for each update mode.
pub open spec fn mode_name(m: UpdateMode) -> Seq<char> {
    match m {
        UpdateMode::New => "new"@,
        UpdateMode::FastForward => "fast-forward"@,
        UpdateMode::Forced => "forced"@,
        UpdateMode::UpToDate => "up-to-date"@,
        UpdateMode::NoChangeNeeded => "no-change-needed"@,
        UpdateMode::NonFastForwardRejected => "non-fast-forward-rejected"@,
        UpdateMode::TagUpdateRejected => "tag-update-rejected"@,
        UpdateMode::SourceObjectNotFound => "source-object-not-found"@,
        UpdateMode::Unborn => "unborn"@,
        UpdateMode::DeletedMissing => "deleted-missing"@,
    }
}

/// The lower-kebab name surfaced for an update mode.
pub fn update_mode_str(m: UpdateMode) -> (res: &'static str)
    ensures
        res@ == mode_name(m),
{
    match m {
        UpdateMode::New => "new",
        UpdateMode::FastForward => "fast-forward",
        UpdateMode::Forced => "forced",
        UpdateMode::UpToDate => "up-to-date",
        UpdateMode::NoChangeNeeded => "no-change-needed",
        UpdateMode::NonFastForwardRejected => "non-fast-forward-rejected",
        UpdateMode::TagUpdateRejected => "tag-update-rejected",
        UpdateMode::SourceObjectNotFound => "source-object-not-found",
        UpdateMode::Unborn => "unborn",
        UpdateMode::DeletedMissing => "deleted-missing",
    }
}

/// One applied ref update as the fetch reports it, as plain values.
#[derive(Debug)]
pub struct FetchUpdate {
    pub remote_ref: String,
    pub local_ref: Option<String>,
    pub old_oid: Option<ObjectId>,
    pub new_oid: Option<ObjectId>,
    pub mode: UpdateMode,
    pub note: Option<String>,
}

/// One applied ref update as surfaced: ref names as bytes, the mode by name.
#[derive(Debug)]
pub struct RefUpdate {
    remote_ref: Vec<u8>,
    local_ref: Option<Vec<u8>>,
    old_oid: Option<ObjectId>,
    new_oid: Option<ObjectId>,
    mode: String,
    note: Option<String>,
}

/// The abstract value of a ref update.
pub ghost struct RefUpdateView {
    pub remote_ref: Seq<u8>,
    pub local_ref: Option<Seq<u8>>,
    pub old_oid: Option<Seq<u8>>,
    pub new_oid: Option<Seq<u8>>,
    pub mode: Seq<char>,
    pub note: Option<Seq<char>>,
}

impl View for RefUpdate {
    type V = RefUpdateView;

    closed spec fn view(&self) -> RefUpdateView {
        RefUpdateView {
            remote_ref: self.remote_ref@,
            local_ref: match self.local_ref {
                Some(r) => Some(r@),
                None => None,
            },
            old_oid: opt_oid_view(self.old_oid),
            new_oid: opt_oid_view(self.new_oid),
            mode: self.mode@,
            note: match self.note {
                Some(n) => Some(n@),
                None => None,
            },
        }
    }
}

/// What the surfaced form of a fetch update holds.
pub open spec fn update_view(u: FetchUpdate) -> RefUpdateView {
    RefUpdateView {
        remote_ref: encode_utf8(u.remote_ref@),
        local_ref: match u.local_ref {
            Some(r) => Some(encode_utf8(r@)),
            None => None,
        },
        old_oid: opt_oid_view(u.old_oid),
        new_oid: opt_oid_view(u.new_oid),
        mode: mode_name(u.mode),
        note: match u.note {
            Some(n) => Some(n@),
            None => None,
        },
    }
}

fn copy_opt_oid(o: &Option<ObjectId>) -> (res: Option<ObjectId>)
    ensures
        opt_oid_view(res) == opt_oid_view(*o),
{
    match o {
        Some(x) => Some(x.copy()),
        None => None,
    }
}

impl RefUpdate {
    pub fn remote_ref(&self) -> (res: Vec<u8>)
        ensures
            res@ == self@.remote_ref,
    {
        self.remote_ref.clone()
    }

    pub fn local_ref(&self) -> (res: Option<Vec<u8>>)
        ensures
            match res {
                Some(r) => self@.local_ref == Some(r@),
                None => self@.local_ref is None,
            },
    {
        self.local_ref.clone()
    }

    pub fn old_oid(&self) -> (res: Option<ObjectId>)
        ensures
            opt_oid_view(res) == self@.old_oid,
    {
        copy_opt_oid(&self.old_oid)
    }

    pub fn new_oid(&self) -> (res: Option<ObjectId>)
        ensures
            opt_oid_view(res) == self@.new_oid,
    {
        copy_opt_oid(&self.new_oid)
    }

    pub fn mode(&self) -> (res: &str)
        ensures
            res@ == self@.mode,
    {
        self.mode.as_str()
    }

    pub fn note(&self) -> (res: Option<&str>)
        ensures
            match res {
                Some(n) => self@.note == Some(n@),
                None => self@.note is None,
            },
    {
        match &self.note {
            Some(n) => Some(n.as_str()),
            None => None,
        }
    }
}

/// The result of a fetch: the applied ref updates and the remote's default
/// branch (its `HEAD` symref), if advertised.
#[derive(Debug)]
pub struct FetchReport {
    updates: Vec<RefUpdate>,
    default_branch: Option<Vec<u8>>,
}

impl FetchReport {
    pub closed spec fn spec_updates(&self) -> Seq<RefUpdateView> {
        self.updates@.map_values(|u: RefUpdate| u@)
    }

    pub closed spec fn spec_default_branch(&self) -> Option<Seq<u8>> {
        match self.default_branch {
            Some(b) => Some(b@),
            None => None,
        }
    }

    pub fn updates(&self) -> (res: &Vec<RefUpdate>)
        ensures
            res@.map_values(|u: RefUpdate| u@) == self.spec_updates(),
    {
        &self.updates
    }

    pub fn default_branch(&self) -> (res: Option<Vec<u8>>)
        ensures
            match res {
                Some(b) => self.spec_default_branch() == Some(b@),
                None => self.spec_default_branch() is None,
            },
    {
        self.default_branch.clone()
    }
}

/// Builds a fetch report from the fetch's outcome: one surfaced update per
/// applied update, in order, and the default branch as bytes.
pub fn build_fetch_report(updates: Vec<FetchUpdate>, default_branch: Option<String>) -> (res: FetchReport)
    ensures
        res.spec_updates().len() == updates@.len(),
        forall|i: int| 0 <= i < updates@.len() ==> #[trigger] res.spec_updates()[i] == update_view(
            updates@[i],
        ),
        match default_branch {
            Some(b) => res.spec_default_branch() == Some(encode_utf8(b@)),
            None => res.spec_default_branch() is None,
        },
{
    let mut out: Vec<RefUpdate> = Vec::new();
    let mut i: usize = 0;
    while i < updates.len()
        invariant
            0 <= i <= updates@.len(),
            out@.len() == i,
            forall|k: int| 0 <= k < i ==> #[trigger] out@[k]@ == update_view(updates@[k]),
        decreases updates@.len() - i,
    {
        let u = &updates[i];
        let local_ref = match &u.local_ref {
            Some(r) => Some(string_bytes(r)),
            None => None,
        };
        out.push(
            RefUpdate {
                remote_ref: string_bytes(&u.remote_ref),
                local_ref,
                old_oid: copy_opt_oid(&u.old_oid),
                new_oid: copy_opt_oid(&u.new_oid),
                mode: owned(update_mode_str(u.mode)),
                note: u.note.clone(),
            },
        );
        i = i + 1;
    }
    let default_branch = match &default_branch {
        Some(b) => Some(string_bytes(b)),
        None => None,
    };
    let r = FetchReport { updates: out, default_branch };
    assert(r.spec_updates().len() == updates@.len());
    r
}

// ---------------------------------------------------------------------------
// Clone

/// The branch a clone checks out: its short name, the local branch ref, and
/// the remote-tracking ref it starts from.
#[derive(Debug)]
pub struct CloneBranch {
    pub name: String,
    pub local_head: String,
    pub tracking: String,
}

/// The short name of the branch a clone checks out: the requested branch, else
/// the remote's default branch, with one leading `refs/heads/` removed.
pub open spec fn clone_branch_name(branch: Option<Seq<char>>, default_branch: Option<Seq<char>>) -> Option<
    Seq<char>,
> {
    match branch {
        Some(b) => Some(strip_prefix_or_self(b, "refs/heads/"@)),
        None => match default_branch {
            Some(d) => Some(strip_prefix_or_self(d, "refs/heads/"@)),
            None => None,
        },
    }
}

/// Chooses the branch a clone checks out (see [`clone_branch_name`]). Without a
/// requested branch and without an advertised default, the clone cannot proceed.
pub fn plan_clone_branch(branch: Option<String>, default_branch: Option<String>) -> (res: Result<
    CloneBranch,
    BindingError,
>)
    ensures
        ({
            let want = clone_branch_name(
                match branch {
                    Some(b) => Some(b@),
                    None => None,
                },
                match default_branch {
                    Some(d) => Some(d@),
                    None => None,
                },
            );
            &&& (want is Some <==> res is Ok)
            &&& (res matches Ok(c) ==> c.name@ == want.unwrap() && c.local_head@ == "refs/heads/"@
                + c.name@ && c.tracking@ == "refs/remotes/origin/"@ + c.name@)
            &&& (res matches Err(e) ==> e.class == ErrorClass::NetworkError && e.message@
                == "remote did not advertise a default branch; pass branch="@)
        }),
{
    let name = match &branch {
        Some(b) => strip_prefix_or_self_exec(b.as_str(), "refs/heads/"),
        None => match &default_branch {
            Some(d) => strip_prefix_or_self_exec(d.as_str(), "refs/heads/"),
            None => {
                return Err(network_err("remote did not advertise a default branch; pass branch="));
            },
        },
    };
    let local_head = concat2("refs/heads/", name.as_str());
    let tracking = concat2("refs/remotes/origin/", name.as_str());
    Ok(CloneBranch { name, local_head, tracking })
}

/// The message when the chosen branch is not on the remote.
pub open spec fn branch_not_found_message(name: Seq<char>) -> Seq<char> {
    "branch "@ + debug_quoted(name) + " not found on remote"@
}

/// The error raised when the chosen branch's tracking ref did not arrive.
pub fn branch_not_found(name: &str) -> (res: BindingError)
    ensures
        res.class == ErrorClass::NetworkError,
        res.message@ == branch_not_found_message(name@),
{
    let q = debug_quote(name);
    error_of(ErrorClass::NetworkError, concat3("branch ", q.as_str(), " not found on remote"))
}

/// The config a clone writes for its origin: `remote.origin.url` and the
/// standard fetch refspec.
pub fn origin_config(url: &str) -> (res: Vec<(String, String)>)
    ensures
        res@.len() == 2,
        res@[0].0@ == "remote.origin.url"@ && res@[0].1@ == url@,
        res@[1].0@ == "remote.origin.fetch"@ && res@[1].1@ == default_fetch_refspec(),
{
    let mut v: Vec<(String, String)> = Vec::new();
    v.push((owned("remote.origin.url"), owned(url)));
    v.push((owned("remote.origin.fetch"), owned("+refs/heads/*:refs/remotes/origin/*")));
    v
}

/// The upstream config a clone writes for its checked-out branch:
/// `branch.<name>.remote = origin` and `branch.<name>.merge = <remote head>`.
pub fn branch_upstream_config(name: &str, remote_head: &str) -> (res: Vec<(String, String)>)
    ensures
        res@.len() == 2,
        res@[0].0@ == "branch."@ + name@ + ".remote"@ && res@[0].1@ == "origin"@,
        res@[1].0@ == "branch."@ + name@ + ".merge"@ && res@[1].1@ == remote_head@,
{
    let mut v: Vec<(String, String)> = Vec::new();
    v.push((concat3("branch.", name, ".remote"), owned("origin")));
    v.push((concat3("branch.", name, ".merge"), owned(remote_head)));
    v
}

} // verus!
