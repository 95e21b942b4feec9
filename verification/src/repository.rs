//! The rules behind the repository operations: which inputs a ref update,
//! delete or reflog append accepts, what it writes, and the exact bytes of
//! the commit and tag objects it creates. The reads and writes themselves go
//! to the object database and the ref store.

use vstd::prelude::*;
use vstd::utf8::*;
use crate::error::{BindingError, ErrorClass, error_of};
use crate::oid::{ObjectId, valid_oid_len};
use crate::refs::{cas_verdict, opt_id, ref_name_verdict, ref_state_mismatch, validate_ref_name};
use crate::signature::{Signature, SignatureView, wire_ident, resolve_ident, both_ident_message,
    missing_ident_message};
use crate::text::{concat2, concat3, debug_quote, debug_quoted, hex_lower, str_bytes, string_bytes,
    utf8_to_string, str_equals};
use crate::objects::{ObjectKind, kind_keyword, kind_name, commit_tree, commit_parse, parse_failure};

verus! {

// ---------------------------------------------------------------------------
// Text fields

/// The message when a field is not UTF-8.
pub open spec fn not_utf8_message(what: Seq<char>) -> Seq<char> {
    what + " must be valid UTF-8"@
}

/// Decodes a field that grit-lib stores as text; a value error when the bytes
/// are not UTF-8 (never a lossy decode).
pub fn utf8_field(what: &str, bytes: Vec<u8>) -> (res: Result<String, BindingError>)
    ensures
        res is Ok <==> valid_utf8(bytes@),
        res matches Ok(s) ==> s@ == decode_utf8(bytes@) && encode_utf8(s@) == bytes@,
        res matches Err(e) ==> e.class == ErrorClass::ValueError && e.errno is None && e.message@
            == not_utf8_message(what@),
{
    match utf8_to_string(bytes) {
        Some(s) => Ok(s),
        None => Err(error_of(ErrorClass::ValueError, concat2(what, " must be valid UTF-8"))),
    }
}

/// The bytes that delimit a single-line record or an object header line.
pub open spec fn is_wire_control(b: u8) -> bool {
    b == 0 || b == 10 || b == 13
}

/// Whether some byte is NUL, LF or CR.
pub open spec fn has_wire_control(bytes: Seq<u8>) -> bool {
    exists|i: int| 0 <= i < bytes.len() && #[trigger] is_wire_control(bytes[i])
}

/// The message when a field holds a record delimiter.
pub open spec fn wire_control_message(what: Seq<char>) -> Seq<char> {
    what + " must not contain NUL, newline, or carriage return"@
}

/// Rejects a text field whose bytes include NUL, LF or CR, which would break
/// a single-line reflog record or a tag header line.
pub fn reject_wire_control(what: &str, s: &str) -> (res: Result<(), BindingError>)
    ensures
        res is Ok <==> !has_wire_control(encode_utf8(s@)),
        res matches Err(e) ==> e.class == ErrorClass::ValueError && e.errno is None && e.message@
            == wire_control_message(what@),
{
    let bytes = str_bytes(s);
    let mut i: usize = 0;
    while i < bytes.len()
        invariant
            0 <= i <= bytes@.len(),
            bytes@ == encode_utf8(s@),
            forall|j: int| 0 <= j < i ==> !#[trigger] is_wire_control(bytes@[j]),
        decreases bytes@.len() - i,
    {
        let b = bytes[i];
        if b == 0 || b == 10 || b == 13 {
            assert(is_wire_control(bytes@[i as int]));
            return Err(error_of(
                ErrorClass::ValueError,
                concat2(what, " must not contain NUL, newline, or carriage return"),
            ));
        }
        i = i + 1;
    }
    Ok(())
}

// ---------------------------------------------------------------------------
// Identities

/// The model of an optional signature.
pub open spec fn opt_sig(s: Option<&Signature>) -> Option<SignatureView> {
    match s {
        Some(v) => Some(v@),
        None => None,
    }
}

/// The model of optional bytes.
pub open spec fn opt_bytes(b: Option<Vec<u8>>) -> Option<Seq<u8>> {
    match b {
        Some(v) => Some(v@),
        None => None,
    }
}

/// The identity header an object gets from a signature or from raw bytes:
/// exactly one of the two must be given.
pub open spec fn ident_outcome(field: Seq<char>, sig: Option<SignatureView>, raw: Option<Seq<u8>>) -> Result<
    Seq<u8>,
    Seq<char>,
> {
    match (sig, raw) {
        (Some(s), None) => Ok(wire_ident(s)),
        (None, Some(r)) => Ok(r),
        (Some(_), Some(_)) => Err(both_ident_message(field)),
        (None, None) => Err(missing_ident_message(field)),
    }
}

/// [`resolve_ident`], stated as one outcome.
fn ident_bytes(field: &str, sig: Option<&Signature>, raw: Option<Vec<u8>>) -> (res: Result<
    Vec<u8>,
    BindingError,
>)
    ensures
        match res {
            Ok(b) => ident_outcome(field@, opt_sig(sig), opt_bytes(raw)) == Ok::<Seq<u8>, Seq<char>>(b@),
            Err(e) => e.class == ErrorClass::ValueError && ident_outcome(field@, opt_sig(sig), opt_bytes(raw))
                == Err::<Seq<u8>, Seq<char>>(e.message@),
        },
{
    resolve_ident(field, sig, raw)
}

// ---------------------------------------------------------------------------
// Reflog requests

/// The `(identity, message)` a reflog entry is written with, or the value
/// error: a message needs a signer, and both must be UTF-8 with the message
/// free of record delimiters. No message means no reflog entry.
pub open spec fn reflog_outcome(message: Option<Seq<u8>>, signer: Option<SignatureView>) -> Result<
    Option<(Seq<char>, Seq<char>)>,
    Seq<char>,
> {
    match message {
        None => Ok(None),
        Some(m) => match signer {
            None => Err("message= requires signer="@),
            Some(s) => if !valid_utf8(wire_ident(s)) {
                Err(not_utf8_message("signer"@))
            } else if !valid_utf8(m) {
                Err(not_utf8_message("reflog message"@))
            } else if has_wire_control(m) {
                Err(wire_control_message("reflog message"@))
            } else {
                Ok(Some((decode_utf8(wire_ident(s)), decode_utf8(m))))
            },
        },
    }
}

/// The model of an optional reflog entry request.
pub open spec fn reflog_view(r: Option<(String, String)>) -> Option<(Seq<char>, Seq<char>)> {
    match r {
        Some((a, b)) => Some((a@, b@)),
        None => None,
    }
}

/// Resolves the optional reflog request of a ref operation.
pub fn reflog_args(message: Option<Vec<u8>>, signer: Option<&Signature>) -> (res: Result<
    Option<(String, String)>,
    BindingError,
>)
    ensures
        match res {
            Ok(r) => reflog_outcome(opt_bytes(message), opt_sig(signer)) == Ok::<
                Option<(Seq<char>, Seq<char>)>,
                Seq<char>,
            >(reflog_view(r)),
            Err(e) => e.class == ErrorClass::ValueError && e.errno is None && reflog_outcome(
                opt_bytes(message),
                opt_sig(signer),
            ) == Err::<Option<(Seq<char>, Seq<char>)>, Seq<char>>(e.message@),
        },
{
    match message {
        None => Ok(None),
        Some(msg) => {
            let signer = match signer {
                Some(s) => s,
                None => {
                    proof {
                        reveal_strlit("message= requires signer=");
                    }
                    return Err(error_of(
                        ErrorClass::ValueError,
                        String::from_str("message= requires signer="),
                    ));
                },
            };
            let ident = utf8_field("signer", signer.wire_bytes())?;
            let ghost m0 = msg@;
            let text = utf8_field("reflog message", msg)?;
            reject_wire_control("reflog message", text.as_str())?;
            assert(encode_utf8(text@) == m0);
            Ok(Some((ident, text)))
        },
    }
}

// ---------------------------------------------------------------------------
// Ref updates

/// A validated ref operation: the ref's name and the reflog entry to write,
/// if any, as `(identity, message)`.
#[derive(Debug)]
pub struct RefWrite {
    pub refname: String,
    pub reflog: Option<(String, String)>,
}

/// What a ref operation's inputs give: the validated name and reflog request,
/// or the error's class and message. The name is checked first, then the
/// reflog request.
pub open spec fn ref_write_outcome(
    name: Seq<u8>,
    message: Option<Seq<u8>>,
    signer: Option<SignatureView>,
) -> Result<(Seq<char>, Option<(Seq<char>, Seq<char>)>), (ErrorClass, Seq<char>)> {
    match ref_name_verdict(name) {
        Err(m) => Err((ErrorClass::RepositoryError, m)),
        Ok(n) => match reflog_outcome(message, signer) {
            Err(m) => Err((ErrorClass::ValueError, m)),
            Ok(r) => Ok((n, r)),
        },
    }
}

/// The message when both update guards are given.
pub open spec fn both_guards_message() -> Seq<char> {
    "pass create=True or expected_old=, not both"@
}

/// What an update's inputs give: create-only and compare-and-swap cannot be
/// combined; otherwise as [`ref_write_outcome`].
pub open spec fn update_request_outcome(
    name: Seq<u8>,
    create: bool,
    has_expected: bool,
    message: Option<Seq<u8>>,
    signer: Option<SignatureView>,
) -> Result<(Seq<char>, Option<(Seq<char>, Seq<char>)>), (ErrorClass, Seq<char>)> {
    if create && has_expected {
        Err((ErrorClass::ValueError, both_guards_message()))
    } else {
        ref_write_outcome(name, message, signer)
    }
}

/// Whether a request result is the given outcome.
pub open spec fn write_matches(
    res: Result<RefWrite, BindingError>,
    o: Result<(Seq<char>, Option<(Seq<char>, Seq<char>)>), (ErrorClass, Seq<char>)>,
) -> bool {
    match res {
        Ok(w) => o == Ok::<
            (Seq<char>, Option<(Seq<char>, Seq<char>)>),
            (ErrorClass, Seq<char>),
        >((w.refname@, reflog_view(w.reflog))),
        Err(e) => e.errno is None && o == Err::<
            (Seq<char>, Option<(Seq<char>, Seq<char>)>),
            (ErrorClass, Seq<char>),
        >((e.class, e.message@)),
    }
}

/// Validates the name and reflog request of a ref delete (or of an update,
/// after its guards are checked).
pub fn ref_write_request(name: &[u8], message: Option<Vec<u8>>, signer: Option<&Signature>) -> (res:
    Result<RefWrite, BindingError>)
    ensures
        write_matches(res, ref_write_outcome(name@, opt_bytes(message), opt_sig(signer))),
{
    let refname = validate_ref_name(name)?;
    let reflog = reflog_args(message, signer)?;
    Ok(RefWrite { refname, reflog })
}

/// Validates the inputs of a ref update: create-only and compare-and-swap
/// are exclusive, then the name and the reflog request are checked.
pub fn update_ref_request(
    name: &[u8],
    create: bool,
    expected_old: Option<&ObjectId>,
    message: Option<Vec<u8>>,
    signer: Option<&Signature>,
) -> (res: Result<RefWrite, BindingError>)
    ensures
        write_matches(
            res,
            update_request_outcome(name@, create, expected_old is Some, opt_bytes(message), opt_sig(signer)),
        ),
{
    if create && expected_old.is_some() {
        proof {
            reveal_strlit("pass create=True or expected_old=, not both");
        }
        return Err(error_of(
            ErrorClass::ValueError,
            String::from_str("pass create=True or expected_old=, not both"),
        ));
    }
    ref_write_request(name, message, signer)
}

/// The all-zero id of the given width.
pub open spec fn zero_id(n: nat) -> Seq<u8> {
    Seq::new(n, |i: int| 0u8)
}

/// Decides an update once the ref's current value has been read: the guard
/// must hold (a ref-mismatch error otherwise); the result is the old value
/// the reflog records, the zero id of the new id's width when the ref was
/// absent.
pub fn update_ref_check(
    refname: &str,
    current: Option<&ObjectId>,
    new_oid: &ObjectId,
    expected_old: Option<&ObjectId>,
    create: bool,
) -> (res: Result<ObjectId, BindingError>)
    ensures
        match cas_verdict(refname@, opt_id(current), opt_id(expected_old), create) {
            Some(m) => res matches Err(e) && e.class == ErrorClass::RefMismatchError && e.message@ == m,
            None => res matches Ok(old) && old@ == match current {
                Some(c) => c@,
                None => zero_id(new_oid@.len()),
            },
        },
{
    match ref_state_mismatch(refname, current, expected_old, create) {
        Some(m) => Err(error_of(ErrorClass::RefMismatchError, m)),
        None => match current {
            Some(c) => Ok(c.copy()),
            None => {
                let z = new_oid.zero_like();
                assert(z@ =~= zero_id(new_oid@.len()));
                Ok(z)
            },
        },
    }
}

/// Decides a delete once the ref's current value has been read: a
/// compare-and-swap delete needs the ref at the expected value. When a
/// reflog entry was requested and the ref existed, the result is the
/// `(old, zero)` pair it records.
pub fn delete_ref_check(
    refname: &str,
    current: Option<&ObjectId>,
    expected_old: Option<&ObjectId>,
    log: bool,
) -> (res: Result<Option<(ObjectId, ObjectId)>, BindingError>)
    ensures
        match cas_verdict(refname@, opt_id(current), opt_id(expected_old), false) {
            Some(m) => res matches Err(e) && e.class == ErrorClass::RefMismatchError && e.message@ == m,
            None => res matches Ok(r) && match (log, current) {
                (true, Some(c)) => r matches Some((o, z)) && o@ == c@ && z@ == zero_id(c@.len()),
                _ => r is None,
            },
        },
{
    match ref_state_mismatch(refname, current, expected_old, false) {
        Some(m) => Err(error_of(ErrorClass::RefMismatchError, m)),
        None => {
            if log {
                match current {
                    Some(c) => {
                        let z = c.zero_like();
                        assert(z@ =~= zero_id(c@.len()));
                        Ok(Some((c.copy(), z)))
                    },
                    None => Ok(None),
                }
            } else {
                Ok(None)
            }
        },
    }
}

/// What an explicit reflog append accepts: a valid ref name, then a UTF-8
/// signer identity, then a UTF-8 message free of record delimiters.
pub open spec fn append_reflog_outcome(name: Seq<u8>, signer: SignatureView, message: Seq<u8>) -> Result<
    (Seq<char>, Seq<char>, Seq<char>),
    (ErrorClass, Seq<char>),
> {
    match ref_name_verdict(name) {
        Err(m) => Err((ErrorClass::RepositoryError, m)),
        Ok(n) => if !valid_utf8(wire_ident(signer)) {
            Err((ErrorClass::ValueError, not_utf8_message("signer"@)))
        } else if !valid_utf8(message) {
            Err((ErrorClass::ValueError, not_utf8_message("reflog message"@)))
        } else if has_wire_control(message) {
            Err((ErrorClass::ValueError, wire_control_message("reflog message"@)))
        } else {
            Ok((n, decode_utf8(wire_ident(signer)), decode_utf8(message)))
        },
    }
}

/// Validates an explicit reflog append; the result is `(refname, identity,
/// message)`.
pub fn append_reflog_request(name: &[u8], signer: &Signature, message: Vec<u8>) -> (res: Result<
    (String, String, String),
    BindingError,
>)
    ensures
        match res {
            Ok((n, i, m)) => append_reflog_outcome(name@, signer@, message@) == Ok::<
                (Seq<char>, Seq<char>, Seq<char>),
                (ErrorClass, Seq<char>),
            >((n@, i@, m@)),
            Err(e) => append_reflog_outcome(name@, signer@, message@) == Err::<
                (Seq<char>, Seq<char>, Seq<char>),
                (ErrorClass, Seq<char>),
            >((e.class, e.message@)),
        },
{
    let refname = validate_ref_name(name)?;
    let ident = utf8_field("signer", signer.wire_bytes())?;
    let ghost m0 = message@;
    let msg = utf8_field("reflog message", message)?;
    reject_wire_control("reflog message", msg.as_str())?;
    assert(encode_utf8(msg@) == m0);
    Ok((refname, ident, msg))
}

/// The bytes of `a` followed by those of `b`.
fn concat_bytes(a: &[u8], b: &[u8]) -> (res: Vec<u8>)
    ensures
        res@ == a@ + b@,
{
    let mut out: Vec<u8> = Vec::new();
    out.extend_from_slice(a);
    out.extend_from_slice(b);
    assert(out@ =~= a@ + b@);
    out
}

/// The branch a new repository's HEAD points at: the given name (which must
/// be UTF-8) or `main`; `refs/heads/<branch>` must be a valid ref name.
pub open spec fn init_branch_outcome(initial_branch: Option<Seq<u8>>) -> Result<Seq<char>, (ErrorClass, Seq<char>)> {
    match initial_branch {
        None => match ref_name_verdict(encode_utf8("refs/heads/main"@)) {
            Err(m) => Err((ErrorClass::RepositoryError, m)),
            Ok(_) => Ok("main"@),
        },
        Some(b) => if !valid_utf8(b) {
            Err((ErrorClass::ValueError, not_utf8_message("initial_branch"@)))
        } else {
            match ref_name_verdict(encode_utf8("refs/heads/"@) + b) {
                Err(m) => Err((ErrorClass::RepositoryError, m)),
                Ok(_) => Ok(decode_utf8(b)),
            }
        },
    }
}

/// Validates the initial branch of a repository about to be created.
pub fn init_branch(initial_branch: Option<Vec<u8>>) -> (res: Result<String, BindingError>)
    ensures
        match res {
            Ok(b) => init_branch_outcome(opt_bytes(initial_branch)) == Ok::<Seq<char>, (ErrorClass, Seq<char>)>(
                b@,
            ),
            Err(e) => init_branch_outcome(opt_bytes(initial_branch)) == Err::<
                Seq<char>,
                (ErrorClass, Seq<char>),
            >((e.class, e.message@)),
        },
{
    let branch = match initial_branch {
        Some(b) => utf8_field("initial_branch", b)?,
        None => String::from_str("main"),
    };
    let prefix = str_bytes("refs/heads/");
    let tail = string_bytes(&branch);
    let full = concat_bytes(prefix.as_slice(), tail.as_slice());
    proof {
        if initial_branch is None {
            reveal_strlit("main");
            reveal_strlit("refs/heads/");
            reveal_strlit("refs/heads/main");
            assert(encode_utf8("refs/heads/"@) + encode_utf8("main"@) =~= encode_utf8("refs/heads/main"@))
                by {
                crate::text::lemma_encode_utf8_append("refs/heads/"@, "main"@);
                assert("refs/heads/"@ + "main"@ =~= "refs/heads/main"@);
            }
        }
    }
    validate_ref_name(full.as_slice())?;
    Ok(branch)
}

// ---------------------------------------------------------------------------
// Commit and tag objects

/// The text bytes of a string.
pub open spec fn text(s: Seq<char>) -> Seq<u8> {
    encode_utf8(s)
}

/// The `parent <hex>` lines of a commit, in order.
pub open spec fn parent_lines(parents: Seq<Seq<u8>>) -> Seq<u8>
    decreases parents.len(),
{
    if parents.len() == 0 {
        Seq::empty()
    } else {
        parent_lines(parents.drop_last()) + text("parent "@ + hex_lower(parents.last()) + "\n"@)
    }
}

/// The commit object grit-lib's `serialize_commit` writes for a tree, parents,
/// exact author and committer header bytes, an optional encoding and an exact
/// message body.
pub open spec fn commit_payload(
    tree: Seq<u8>,
    parents: Seq<Seq<u8>>,
    author: Seq<u8>,
    committer: Seq<u8>,
    encoding: Option<Seq<char>>,
    message: Seq<u8>,
) -> Seq<u8> {
    text("tree "@ + hex_lower(tree) + "\n"@) + parent_lines(parents) + text("author "@) + author
        + seq![10u8] + text("committer "@) + committer + seq![10u8] + match encoding {
        Some(e) => text("encoding "@ + e + "\n"@),
        None => Seq::empty(),
    } + seq![10u8] + message
}

/// The model of a list of ids.
pub open spec fn ids_view(v: Seq<ObjectId>) -> Seq<Seq<u8>> {
    v.map_values(|id: ObjectId| id@)
}

/// The model of an optional string.
pub open spec fn opt_text(s: Option<String>) -> Option<Seq<char>> {
    match s {
        Some(v) => Some(v@),
        None => None,
    }
}

/// Serializes a commit with grit-lib's `objects::serialize_commit`, given the
/// exact author/committer header bytes and the exact message bytes.
///
/// Claims what the function's source shows: a `tree` line, one `parent` line
/// per parent, the `author` and `committer` lines with the given bytes, an
/// `encoding` line when one is given, a blank line, then the message bytes
/// unchanged. Ids are written as lowercase hex.
#[verifier::external_body]
fn grit_serialize_commit(
    tree: &ObjectId,
    parents: &Vec<ObjectId>,
    author_raw: Vec<u8>,
    committer_raw: Vec<u8>,
    encoding: Option<String>,
    message: Vec<u8>,
) -> (res: Result<Vec<u8>, grit_lib::error::Error>)
    ensures
        res is Ok,
        res matches Ok(b) ==> b@ == commit_payload(
            tree@,
            ids_view(parents@),
            author_raw@,
            committer_raw@,
            opt_text(encoding),
            message@,
        ),
{
    let data = grit_lib::objects::CommitData {
        tree: grit_lib::objects::ObjectId::from_bytes(&tree.raw())?,
        parents: parents.iter().map(|p| grit_lib::objects::ObjectId::from_bytes(&p.raw())).collect::<
            Result<Vec<_>, _>,
        >()?,
        author: String::new(),
        committer: String::new(),
        author_raw,
        committer_raw,
        encoding,
        message: String::new(),
        raw_message: Some(message),
    };
    Ok(grit_lib::objects::serialize_commit(&data))
}

/// What creating a commit gives: the object's bytes, or the value error when
/// an identity is given both or neither way. The author is resolved first.
pub open spec fn commit_outcome(
    tree: Seq<u8>,
    parents: Seq<Seq<u8>>,
    message: Seq<u8>,
    author: Option<SignatureView>,
    committer: Option<SignatureView>,
    author_raw: Option<Seq<u8>>,
    committer_raw: Option<Seq<u8>>,
    encoding: Option<Seq<char>>,
) -> Result<Seq<u8>, Seq<char>> {
    match ident_outcome("author"@, author, author_raw) {
        Err(m) => Err(m),
        Ok(a) => match ident_outcome("committer"@, committer, committer_raw) {
            Err(m) => Err(m),
            Ok(c) => Ok(commit_payload(tree, parents, a, c, encoding, message)),
        },
    }
}

/// The `parent <hex>` line of one parent.
pub open spec fn parent_line(parent: Seq<u8>) -> Seq<u8> {
    text("parent "@ + hex_lower(parent) + "\n"@)
}

/// The parent lines of the first `k` parents begin the parent lines of all
/// of them, and adding the next parent adds its line.
proof fn lemma_parent_lines_prefix(parents: Seq<Seq<u8>>, k: int)
    requires
        0 <= k <= parents.len(),
    ensures
        parent_lines(parents.take(k)).len() <= parent_lines(parents).len(),
        parent_lines(parents).subrange(0, parent_lines(parents.take(k)).len() as int) == parent_lines(
            parents.take(k),
        ),
        k < parents.len() ==> parent_lines(parents.take(k + 1)) == parent_lines(parents.take(k))
            + parent_line(parents[k]),
    decreases parents.len(),
{
    if k < parents.len() {
        let t = parents.take(k + 1);
        assert(t.drop_last() =~= parents.take(k));
        assert(t.last() == parents[k]);
        let d = parents.drop_last();
        assert(d.take(k) =~= parents.take(k));
        lemma_parent_lines_prefix(d, k);
        let pk = parent_lines(parents.take(k));
        assert(parent_lines(parents) == parent_lines(d) + parent_line(parents.last()));
        assert(parent_lines(parents).subrange(0, pk.len() as int) =~= parent_lines(d).subrange(
            0,
            pk.len() as int,
        ));
    } else {
        assert(parents.take(k) =~= parents);
        assert(parent_lines(parents).subrange(0, parent_lines(parents).len() as int) =~= parent_lines(
            parents,
        ));
    }
}

/// Law: a created commit names its parents in the order given: right after
/// the `tree` line come one `parent` line per parent, the `i`-th holding the
/// hex of the `i`-th parent (the first parent first), and then the `author`
/// line.
pub proof fn law_commit_parents_in_order(
    tree: Seq<u8>,
    parents: Seq<Seq<u8>>,
    message: Seq<u8>,
    author: Option<SignatureView>,
    committer: Option<SignatureView>,
    author_raw: Option<Seq<u8>>,
    committer_raw: Option<Seq<u8>>,
    encoding: Option<Seq<char>>,
    payload: Seq<u8>,
)
    requires
        commit_outcome(tree, parents, message, author, committer, author_raw, committer_raw, encoding)
            == Ok::<Seq<u8>, Seq<char>>(payload),
    ensures
        ({
            let tl = text("tree "@ + hex_lower(tree) + "\n"@);
            let pl = parent_lines(parents);
            &&& payload.len() >= tl.len() + pl.len() + text("author "@).len()
            &&& payload.subrange(0, tl.len() as int) == tl
            &&& forall|i: int|
                0 <= i < parents.len() ==> payload.subrange(
                    (tl.len() + parent_lines(parents.take(i)).len()) as int,
                    (tl.len() + parent_lines(parents.take(i + 1)).len()) as int,
                ) == parent_line(#[trigger] parents[i])
            &&& payload.subrange(
                (tl.len() + pl.len()) as int,
                (tl.len() + pl.len() + text("author "@).len()) as int,
            ) == text("author "@)
        }),
{
    let tl = text("tree "@ + hex_lower(tree) + "\n"@);
    let pl = parent_lines(parents);
    let a = ident_outcome("author"@, author, author_raw)->Ok_0;
    let c = ident_outcome("committer"@, committer, committer_raw)->Ok_0;
    assert(payload == commit_payload(tree, parents, a, c, encoding, message));
    let au = text("author "@);
    let head = tl + pl;
    assert(payload.subrange(0, tl.len() as int) =~= tl);
    assert(payload.subrange(head.len() as int, (head.len() + au.len()) as int) =~= au);
    assert forall|i: int| 0 <= i < parents.len() implies payload.subrange(
        (tl.len() + parent_lines(parents.take(i)).len()) as int,
        (tl.len() + parent_lines(parents.take(i + 1)).len()) as int,
    ) == parent_line(#[trigger] parents[i]) by {
        lemma_parent_lines_prefix(parents, i);
        lemma_parent_lines_prefix(parents, i + 1);
        let lo = parent_lines(parents.take(i)).len() as int;
        let hi = parent_lines(parents.take(i + 1)).len() as int;
        assert(pl.subrange(lo, hi) =~= parent_lines(parents.take(i + 1)).subrange(lo, hi));
        assert(parent_lines(parents.take(i + 1)).subrange(lo, hi) =~= parent_line(parents[i]));
        assert(payload.subrange(tl.len() + lo, tl.len() + hi) =~= pl.subrange(lo, hi));
    }
}

/// The bytes of a new commit object (`git commit-tree`): identities come from
/// a signature or from raw header bytes, and the message is kept byte for
/// byte, so the id matches git's.
pub fn create_commit_payload(
    tree: &ObjectId,
    parents: &Vec<ObjectId>,
    message: Vec<u8>,
    author: Option<&Signature>,
    committer: Option<&Signature>,
    author_raw: Option<Vec<u8>>,
    committer_raw: Option<Vec<u8>>,
    encoding: Option<String>,
) -> (res: Result<Vec<u8>, BindingError>)
    ensures
        match res {
            Ok(b) => commit_outcome(
                tree@,
                ids_view(parents@),
                message@,
                opt_sig(author),
                opt_sig(committer),
                opt_bytes(author_raw),
                opt_bytes(committer_raw),
                opt_text(encoding),
            ) == Ok::<Seq<u8>, Seq<char>>(b@),
            Err(e) => e.class == ErrorClass::ValueError && commit_outcome(
                tree@,
                ids_view(parents@),
                message@,
                opt_sig(author),
                opt_sig(committer),
                opt_bytes(author_raw),
                opt_bytes(committer_raw),
                opt_text(encoding),
            ) == Err::<Seq<u8>, Seq<char>>(e.message@),
        },
{
    let a = ident_bytes("author", author, author_raw)?;
    let c = ident_bytes("committer", committer, committer_raw)?;
    match grit_serialize_commit(tree, parents, a, c, encoding, message) {
        Ok(b) => Ok(b),
        Err(_) => Err(error_of(ErrorClass::ValueError, String::new())),
    }
}

/// A message with every trailing newline removed.
pub open spec fn strip_trailing_newlines(s: Seq<char>) -> Seq<char>
    decreases s.len(),
{
    if s.len() > 0 && s.last() == '\n' {
        strip_trailing_newlines(s.drop_last())
    } else {
        s
    }
}

/// The tag object grit-lib's `serialize_tag` writes: `object`, `type` and
/// `tag` lines, a `tagger` line when there is a tagger, a blank line, then the
/// message without its trailing newlines plus one newline (nothing for an
/// empty message).
pub open spec fn tag_payload(
    object: Seq<u8>,
    kind_text: Seq<char>,
    tag: Seq<char>,
    tagger: Option<Seq<char>>,
    message: Seq<char>,
) -> Seq<u8> {
    let body = strip_trailing_newlines(message);
    text(
        "object "@ + hex_lower(object) + "\n"@ + "type "@ + kind_text + "\n"@ + "tag "@ + tag + "\n"@
            + match tagger {
            Some(t) => "tagger "@ + t + "\n"@,
            None => Seq::empty(),
        } + "\n"@ + if body.len() > 0 {
            body + "\n"@
        } else {
            Seq::empty()
        },
    )
}

/// Serializes a tag with grit-lib's `objects::serialize_tag`.
///
/// Claims what the function's source shows (see [`tag_payload`]).
#[verifier::external_body]
fn grit_serialize_tag(object: &ObjectId, kind_text: &str, tag: String, tagger: Option<String>, message: String) -> (res:
    Result<Vec<u8>, grit_lib::error::Error>)
    ensures
        res is Ok,
        res matches Ok(b) ==> b@ == tag_payload(object@, kind_text@, tag@, opt_text(tagger), message@),
{
    let data = grit_lib::objects::TagData {
        object: grit_lib::objects::ObjectId::from_bytes(&object.raw())?,
        object_type: kind_text.to_owned(),
        tag,
        tagger,
        message,
    };
    Ok(grit_lib::objects::serialize_tag(&data))
}

/// The tagger header of a tag: none when neither form is given, else the
/// resolved identity, which must be UTF-8.
pub open spec fn tagger_outcome(tagger: Option<SignatureView>, tagger_raw: Option<Seq<u8>>) -> Result<
    Option<Seq<char>>,
    Seq<char>,
> {
    if tagger is None && tagger_raw is None {
        Ok(None)
    } else {
        match ident_outcome("tagger"@, tagger, tagger_raw) {
            Err(m) => Err(m),
            Ok(b) => if valid_utf8(b) {
                Ok(Some(decode_utf8(b)))
            } else {
                Err(not_utf8_message("tagger"@))
            },
        }
    }
}

/// What creating a tag gives: the object's bytes, or the value error. The
/// tagger is checked first, then the tag name (UTF-8, no record delimiters),
/// then the message (UTF-8).
pub open spec fn tag_outcome(
    target: Seq<u8>,
    kind: ObjectKind,
    name: Seq<u8>,
    message: Seq<u8>,
    tagger: Option<SignatureView>,
    tagger_raw: Option<Seq<u8>>,
) -> Result<Seq<u8>, Seq<char>> {
    match tagger_outcome(tagger, tagger_raw) {
        Err(m) => Err(m),
        Ok(t) => if !valid_utf8(name) {
            Err(not_utf8_message("tag name"@))
        } else if has_wire_control(name) {
            Err(wire_control_message("tag name"@))
        } else if !valid_utf8(message) {
            Err(not_utf8_message("tag message"@))
        } else {
            Ok(tag_payload(target, kind_keyword(kind), decode_utf8(name), t, decode_utf8(message)))
        },
    }
}

/// The bytes of a new annotated-tag object (`git mktag`) for a target of the
/// given kind; grit-lib keeps the tag's fields as text, so they must be UTF-8.
pub fn create_tag_payload(
    target: &ObjectId,
    target_kind: ObjectKind,
    name: Vec<u8>,
    message: Vec<u8>,
    tagger: Option<&Signature>,
    tagger_raw: Option<Vec<u8>>,
) -> (res: Result<Vec<u8>, BindingError>)
    ensures
        match res {
            Ok(b) => tag_outcome(target@, target_kind, name@, message@, opt_sig(tagger), opt_bytes(tagger_raw))
                == Ok::<Seq<u8>, Seq<char>>(b@),
            Err(e) => e.class == ErrorClass::ValueError && tag_outcome(
                target@,
                target_kind,
                name@,
                message@,
                opt_sig(tagger),
                opt_bytes(tagger_raw),
            ) == Err::<Seq<u8>, Seq<char>>(e.message@),
        },
{
    let type_str = kind_name(target_kind);
    let tagger_str = if tagger.is_none() && tagger_raw.is_none() {
        None
    } else {
        let bytes = ident_bytes("tagger", tagger, tagger_raw)?;
        Some(utf8_field("tagger", bytes)?)
    };
    let ghost n0 = name@;
    let tag_name = utf8_field("tag name", name)?;
    reject_wire_control("tag name", tag_name.as_str())?;
    assert(encode_utf8(tag_name@) == n0);
    let msg = utf8_field("tag message", message)?;
    match grit_serialize_tag(target, type_str, tag_name, tagger_str, msg) {
        Ok(b) => Ok(b),
        Err(_) => Err(error_of(ErrorClass::ValueError, String::new())),
    }
}

// ---------------------------------------------------------------------------
// History walks and diffs

/// The commit orderings a history walk offers (grit-lib's `OrderingMode`
/// values that are exposed).
#[derive(Clone, Copy, Debug, PartialEq, Eq, Structural)]
pub enum WalkOrder {
    /// Newest first by committer date (`git rev-list`).
    Date,
    /// `git rev-list --date-order`.
    DateOrder,
    /// `git rev-list --topo-order`.
    Topo,
}

/// The options of a history walk.
#[derive(Clone, Copy, Debug, PartialEq, Eq, Structural)]
pub struct WalkPlan {
    pub ordering: WalkOrder,
    pub reverse: bool,
    pub first_parent: bool,
}

/// The message for an unknown walk order.
pub open spec fn unknown_order_message(order: Seq<char>) -> Seq<char> {
    "unknown order: "@ + debug_quoted(order)
        + " (expected one of: 'date', 'date-order', 'topo', 'reverse')"@
}

/// The walk options for an `order=` argument: none or `"date"` is the default
/// order, `"date-order"` and `"topo"` select those orders, and `"reverse"` is
/// the default order reversed; anything else is a value error.
pub fn plan_revwalk(order: Option<&str>, first_parent: bool) -> (res: Result<WalkPlan, BindingError>)
    ensures
        match order {
            None => res == Ok::<WalkPlan, BindingError>(
                WalkPlan { ordering: WalkOrder::Date, reverse: false, first_parent },
            ),
            Some(o) => if o@ == "date"@ {
                res matches Ok(p) && p == (WalkPlan { ordering: WalkOrder::Date, reverse: false, first_parent })
            } else if o@ == "date-order"@ {
                res matches Ok(p) && p == (WalkPlan {
                    ordering: WalkOrder::DateOrder,
                    reverse: false,
                    first_parent,
                })
            } else if o@ == "topo"@ {
                res matches Ok(p) && p == (WalkPlan { ordering: WalkOrder::Topo, reverse: false, first_parent })
            } else if o@ == "reverse"@ {
                res matches Ok(p) && p == (WalkPlan { ordering: WalkOrder::Date, reverse: true, first_parent })
            } else {
                res matches Err(e) && e.class == ErrorClass::ValueError && e.message@
                    == unknown_order_message(o@)
            },
        },
{
    match order {
        None => Ok(WalkPlan { ordering: WalkOrder::Date, reverse: false, first_parent }),
        Some(o) => {
            if str_equals(o, "date") {
                Ok(WalkPlan { ordering: WalkOrder::Date, reverse: false, first_parent })
            } else if str_equals(o, "date-order") {
                Ok(WalkPlan { ordering: WalkOrder::DateOrder, reverse: false, first_parent })
            } else if str_equals(o, "topo") {
                Ok(WalkPlan { ordering: WalkOrder::Topo, reverse: false, first_parent })
            } else if str_equals(o, "reverse") {
                Ok(WalkPlan { ordering: WalkOrder::Date, reverse: true, first_parent })
            } else {
                let q = debug_quote(o);
                let m = concat3(
                    "unknown order: ",
                    q.as_str(),
                    " (expected one of: 'date', 'date-order', 'topo', 'reverse')",
                );
                Err(error_of(ErrorClass::ValueError, m))
            }
        },
    }
}

/// The message when a diff side is neither a commit nor a tree.
pub open spec fn not_diffable_message(hex: Seq<char>, kind: ObjectKind) -> Seq<char> {
    "object "@ + hex + " is a "@ + kind_keyword(kind) + ", cannot diff (expected a commit or tree)"@
}

/// The tree a diff side stands for: a tree is itself, a commit stands for its
/// tree, and any other object is an invalid-object error.
pub fn diff_tree_of(id: &ObjectId, kind: ObjectKind, data: &[u8]) -> (res: Result<ObjectId, BindingError>)
    ensures
        kind == ObjectKind::Tree ==> (res matches Ok(t) && t@ == id@),
        kind == ObjectKind::Commit ==> {
            &&& res is Ok <==> commit_parse(data@) is Ok
            &&& res matches Ok(t) ==> t@ == commit_parse(data@)->Ok_0.tree
            &&& res matches Err(e) ==> parse_failure(commit_parse(data@), e)
        },
        (kind == ObjectKind::Blob || kind == ObjectKind::Tag) ==> (res matches Err(e) && e.class
            == ErrorClass::InvalidObjectError && e.message@ == not_diffable_message(hex_lower(id@), kind)),
{
    match kind {
        ObjectKind::Tree => Ok(id.copy()),
        ObjectKind::Commit => commit_tree(data),
        _ => {
            let h = id.hex();
            let mut m = concat3("object ", h.as_str(), " is a ");
            m.append(kind_name(kind));
            m.append(", cannot diff (expected a commit or tree)");
            Err(error_of(ErrorClass::InvalidObjectError, m))
        },
    }
}

} // verus!
