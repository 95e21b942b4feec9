//! Author/committer/tagger identities in Git's wire form
//! `Name <email> <unix-seconds> <+HHMM>`.

use vstd::prelude::*;
use crate::text::{int_decimal, nat_digits, push_i64_decimal, push_nat_digits, lemma_nat_digits_are_digits};
use crate::error::{BindingError, ErrorClass, error_of, value_err};

verus! {

/// Bytes that would corrupt a wire ident: NUL, LF, CR, `<` and `>`.
pub open spec fn forbidden_ident_byte(b: u8) -> bool {
    b == 0 || b == 10 || b == 13 || b == 60 || b == 62
}

/// Whether no byte of `s` would corrupt a wire ident.
pub open spec fn clean_ident_field(s: Seq<u8>) -> bool {
    forall|i: int| 0 <= i < s.len() ==> !forbidden_ident_byte(#[trigger] s[i])
}

/// Whether a timezone offset (in seconds) is accepted by the constructor:
/// within a day either way and a whole number of minutes.
pub open spec fn valid_new_offset(offset: int) -> bool {
    -86400 <= offset <= 86400 && offset % 60 == 0
}

/// The abstract value of a signature.
pub ghost struct SignatureView {
    pub name: Seq<u8>,
    pub email: Seq<u8>,
    pub when_secs: int,
    pub when_offset: int,
}

/// A Git identity: raw name and email bytes, a Unix time and a signed UTC
/// offset in seconds (e.g. `+05:30` is `19800`).
#[derive(Debug)]
pub struct Signature {
    name: Vec<u8>,
    email: Vec<u8>,
    when_secs: i64,
    when_offset_secs: i32,
}

impl View for Signature {
    type V = SignatureView;

    closed spec fn view(&self) -> SignatureView {
        SignatureView {
            name: self.name@,
            email: self.email@,
            when_secs: self.when_secs as int,
            when_offset: self.when_offset_secs as int,
        }
    }
}

/// Zero-padded two-digit decimal (`{:02}`): at least two digits.
pub open spec fn pad2(n: nat) -> Seq<u8> {
    if n < 10 {
        seq![48u8, (48 + n) as u8]
    } else {
        nat_digits(n)
    }
}

/// Git's `+HHMM` / `-HHMM` rendering of a signed offset in seconds.
pub open spec fn tz_field(secs: int) -> Seq<u8> {
    let a: nat = if secs < 0 { (-secs) as nat } else { secs as nat };
    let sign: u8 = if secs < 0 { 45u8 } else { 43u8 };
    seq![sign] + pad2(a / 3600) + pad2((a % 3600) / 60)
}

/// The wire ident of a signature: `Name <email> <unix-seconds> <+HHMM>`.
pub open spec fn wire_ident(v: SignatureView) -> Seq<u8> {
    v.name + seq![32u8, 60u8] + v.email + seq![62u8, 32u8] + int_decimal(v.when_secs) + seq![32u8]
        + tz_field(v.when_offset)
}

/// `i` is the last position of `b` in `s`.
pub open spec fn is_last_index(s: Seq<u8>, b: u8, i: int) -> bool {
    0 <= i < s.len() && s[i] == b && forall|j: int| i < j < s.len() ==> s[j] != b
}

/// `i` is the first position of `b` in `s` at or after `start`.
pub open spec fn is_first_index_from(s: Seq<u8>, b: u8, start: int, i: int) -> bool {
    start <= i < s.len() && s[i] == b && forall|j: int| start <= j < i ==> s[j] != b
}

/// The positions of the last `<` and the first `>` after it, when both exist.
pub open spec fn ident_brackets(raw: Seq<u8>, lt: int, gt: int) -> bool {
    is_last_index(raw, 60u8, lt) && is_first_index_from(raw, 62u8, lt + 1, gt)
}

/// Name and email split out of raw ident bytes: the name is what precedes the
/// last `<` (with exactly one trailing space dropped), the email what lies
/// between that `<` and the first `>` after it. Without such a pair, the name
/// is the whole input and the email is empty.
pub open spec fn split_ident(raw: Seq<u8>) -> (Seq<u8>, Seq<u8>) {
    if exists|lt: int, gt: int| ident_brackets(raw, lt, gt) {
        let (lt, gt) = choose|lt: int, gt: int| ident_brackets(raw, lt, gt);
        let name_end = if lt > 0 && raw[lt - 1] == 32u8 { lt - 1 } else { lt };
        (raw.subrange(0, name_end), raw.subrange(lt + 1, gt))
    } else {
        (raw, Seq::empty())
    }
}

proof fn lemma_brackets_unique(raw: Seq<u8>, lt1: int, gt1: int, lt2: int, gt2: int)
    requires
        ident_brackets(raw, lt1, gt1),
        ident_brackets(raw, lt2, gt2),
    ensures
        lt1 == lt2 && gt1 == gt2,
{
    if lt1 < lt2 {
        assert(raw[lt2] != 60u8);
    } else if lt2 < lt1 {
        assert(raw[lt1] != 60u8);
    }
    if gt1 < gt2 {
        assert(raw[gt1] != 62u8);
    } else if gt2 < gt1 {
        assert(raw[gt2] != 62u8);
    }
}

/// Splits `Name <email> ...` raw ident bytes into name and email (see [`split_ident`]).
pub fn split_name_email(raw: &[u8]) -> (res: (Vec<u8>, Vec<u8>))
    ensures
        (res.0@, res.1@) == split_ident(raw@),
{
    let n = raw.len();
    // Find the last '<'.
    let mut k: usize = n;
    while k > 0 && raw[k - 1] != 60u8
        invariant
            0 <= k <= n,
            n == raw@.len(),
            forall|j: int| k <= j < n ==> raw@[j] != 60u8,
        decreases k,
    {
        k = k - 1;
    }
    if k == 0 {
        proof {
            assert forall|lt: int, gt: int| !ident_brackets(raw@, lt, gt) by {
                if 0 <= lt < n && raw@[lt] == 60u8 {
                    assert(raw@[lt] != 60u8);
                }
            }
        }
        return (vstd::slice::slice_to_vec(raw), Vec::new());
    }
    let lt = k - 1;
    assert(is_last_index(raw@, 60u8, lt as int));
    // Find the first '>' after it.
    let mut g: usize = lt + 1;
    while g < n && raw[g] != 62u8
        invariant
            lt + 1 <= g <= n,
            n == raw@.len(),
            forall|j: int| lt + 1 <= j < g ==> raw@[j] != 62u8,
        decreases n - g,
    {
        g = g + 1;
    }
    if g == n {
        proof {
            assert forall|l: int, gt: int| !ident_brackets(raw@, l, gt) by {
                if ident_brackets(raw@, l, gt) {
                    lemma_brackets_unique(raw@, l, gt, l, gt);
                    if l < lt {
                        assert(raw@[lt as int] == 60u8);
                    } else if l > lt {
                        assert(raw@[l] != 60u8);
                    }
                    assert(raw@[gt] != 62u8);
                }
            }
        }
        return (vstd::slice::slice_to_vec(raw), Vec::new());
    }
    assert(ident_brackets(raw@, lt as int, g as int));
    let mut name_end = lt;
    if name_end > 0 && raw[name_end - 1] == 32u8 {
        name_end = name_end - 1;
    }
    let mut name: Vec<u8> = Vec::new();
    let mut i: usize = 0;
    while i < name_end
        invariant
            name_end <= lt < n,
            n == raw@.len(),
            0 <= i <= name_end,
            name@ == raw@.subrange(0, i as int),
        decreases name_end - i,
    {
        name.push(raw[i]);
        i = i + 1;
        assert(name@ =~= raw@.subrange(0, i as int));
    }
    let mut email: Vec<u8> = Vec::new();
    let mut j: usize = lt + 1;
    while j < g
        invariant
            lt + 1 <= j <= g,
            g < n,
            n == raw@.len(),
            email@ == raw@.subrange(lt + 1, j as int),
        decreases g - j,
    {
        email.push(raw[j]);
        j = j + 1;
        assert(email@ =~= raw@.subrange(lt + 1, j as int));
    }
    proof {
        let (l2, g2) = choose|l2: int, g2: int| ident_brackets(raw@, l2, g2);
        lemma_brackets_unique(raw@, lt as int, g as int, l2, g2);
    }
    (name, email)
}

/// Git's `+HHMM` / `-HHMM` rendering of a signed offset in seconds, e.g.
/// `0` is `+0000`, `19800` is `+0530`, `-28800` is `-0800`.
pub fn format_tz_offset(secs: i32, out: &mut Vec<u8>)
    requires
        secs != i32::MIN,
    ensures
        final(out)@ == old(out)@ + tz_field(secs as int),
{
    let a: i32 = if secs < 0 { -secs } else { secs };
    if secs < 0 {
        out.push(45u8);
    } else {
        out.push(43u8);
    }
    let hh = a / 3600;
    let mm = (a % 3600) / 60;
    push_pad2(hh as u64, out);
    push_pad2(mm as u64, out);
    proof {
        let ghost s: int = secs as int;
        let ghost an: nat = if s < 0 { (-s) as nat } else { s as nat };
        assert(an == a as int);
        assert(tz_field(s) == seq![if s < 0 { 45u8 } else { 43u8 }] + pad2(an / 3600) + pad2(
            (an % 3600) / 60,
        ));
    }
}

fn push_pad2(n: u64, out: &mut Vec<u8>)
    ensures
        final(out)@ == old(out)@ + pad2(n as nat),
{
    if n < 10 {
        out.push(48u8);
        let d: u8 = n as u8;
        out.push(48 + d);
        assert(seq![48u8, (48 + n) as u8] =~= seq![48u8] + seq![(48 + d) as u8]);
    } else {
        push_nat_digits(n, out);
    }
}

/// The time and offset parsed from an ident string's trailing
/// `<unix-seconds> <+HHMM>`, as grit-lib's `ident::parse_signature_times`
/// computes them; `None` when the tail is missing, malformed or overflows.
pub uninterp spec fn signature_times(ident: Seq<char>) -> Option<(i64, i64)>;

/// Parses the trailing time of an ident with grit-lib's
/// `ident::parse_signature_times`, returning `(unix_seconds, tz_offset_secs)`.
///
/// Claims the result is a function of the ident text, and that a parsed
/// offset lies within +/-(99h 99m): grit-lib's source reads it from two
/// two-character hour and minute fields.
#[verifier::external_body]
fn grit_signature_times(ident: &str) -> (res: Option<(i64, i64)>)
    ensures
        res == signature_times(ident@),
        res matches Some(t) ==> -362340 <= t.1 <= 362340,
{
    grit_lib::ident::parse_signature_times(ident).map(|t| (t.unix_seconds, t.tz_offset_secs))
}

/// The message for an ident field holding a forbidden byte.
pub open spec fn bad_field_message(field: Seq<char>) -> Seq<char> {
    "signature "@ + field + " must not contain NUL, newline, '<' or '>'"@
}

fn clean_field(bytes: &Vec<u8>) -> (res: bool)
    ensures
        res == clean_ident_field(bytes@),
{
    let mut i: usize = 0;
    while i < bytes.len()
        invariant
            0 <= i <= bytes@.len(),
            forall|j: int| 0 <= j < i ==> !forbidden_ident_byte(#[trigger] bytes@[j]),
        decreases bytes@.len() - i,
    {
        let b = bytes[i];
        if b == 0 || b == 10 || b == 13 || b == 60 || b == 62 {
            assert(forbidden_ident_byte(bytes@[i as int]));
            return false;
        }
        i = i + 1;
    }
    true
}

impl Signature {
    #[verifier::type_invariant]
    spec fn wf(self) -> bool {
        -362340 <= self.when_offset_secs <= 362340
    }

    /// Builds an identity for writing. Rejects a name or email holding NUL,
    /// a newline, `<` or `>` (which would corrupt the wire ident), and an offset
    /// outside +/-24h or not a whole number of minutes.
    pub fn new(name: Vec<u8>, email: Vec<u8>, when: (i64, i32)) -> (res: Result<Signature, BindingError>)
        ensures
            res is Ok <==> clean_ident_field(name@) && clean_ident_field(email@) && valid_new_offset(
                when.1 as int,
            ),
            res matches Ok(s) ==> s@ == (SignatureView {
                name: name@,
                email: email@,
                when_secs: when.0 as int,
                when_offset: when.1 as int,
            }),
            res matches Err(e) ==> e.class == ErrorClass::ValueError,
            res matches Err(e) ==> !clean_ident_field(name@) ==> e.message@ == bad_field_message(
                "name"@,
            ),
            res matches Err(e) ==> clean_ident_field(name@) && !clean_ident_field(email@)
                ==> e.message@ == bad_field_message("email"@),
            res matches Err(e) ==> clean_ident_field(name@) && clean_ident_field(email@) && !(
            -86400 <= when.1 <= 86400) ==> e.message@
                == "timezone offset out of range (must be within +/-24h)"@,
            res matches Err(e) ==> clean_ident_field(name@) && clean_ident_field(email@) && -86400
                <= when.1 <= 86400 && when.1 % 60 != 0 ==> e.message@
                == "timezone offset must be a whole number of minutes"@,
    {
        if !clean_field(&name) {
            let m = crate::text::concat3("signature ", "name", " must not contain NUL, newline, '<' or '>'");
            proof {
                reveal_strlit("signature ");
                reveal_strlit("name");
                reveal_strlit(" must not contain NUL, newline, '<' or '>'");
            }
            return Err(error_of(ErrorClass::ValueError, m));
        }
        if !clean_field(&email) {
            let m = crate::text::concat3("signature ", "email", " must not contain NUL, newline, '<' or '>'");
            proof {
                reveal_strlit("signature ");
                reveal_strlit("email");
                reveal_strlit(" must not contain NUL, newline, '<' or '>'");
            }
            return Err(error_of(ErrorClass::ValueError, m));
        }
        let offset = when.1;
        if !(-86400 <= offset && offset <= 86400) {
            return Err(value_err("timezone offset out of range (must be within +/-24h)"));
        }
        if offset % 60 != 0 {
            return Err(value_err("timezone offset must be a whole number of minutes"));
        }
        Ok(Signature { name, email, when_secs: when.0, when_offset_secs: offset })
    }

    /// Builds a signature read from an object: name and email are split out of
    /// the raw header bytes (see [`split_ident`]); the time comes from the
    /// decoded ident text, or is `(0, 0)` when that tail does not parse.
    pub fn parse(raw: &[u8], ident_str: &str) -> (res: Signature)
        ensures
            (res@.name, res@.email) == split_ident(raw@),
            signature_times(ident_str@) matches Some(t) ==> res@.when_secs == t.0
                && res@.when_offset == t.1,
            signature_times(ident_str@) is None ==> res@.when_secs == 0 && res@.when_offset == 0,
    {
        let (name, email) = split_name_email(raw);
        let (when_secs, when_offset_secs) = match grit_signature_times(ident_str) {
            Some(t) => (t.0, t.1 as i32),
            None => (0i64, 0i32),
        };
        Signature { name, email, when_secs, when_offset_secs }
    }

    /// The Git wire ident bytes: `Name <email> <unix-seconds> <+HHMM>`.
    pub fn wire_bytes(&self) -> (res: Vec<u8>)
        ensures
            res@ == wire_ident(self@),
    {
        proof {
            use_type_invariant(self);
        }
        let mut out: Vec<u8> = Vec::new();
        out.extend_from_slice(self.name.as_slice());
        out.push(32u8);
        out.push(60u8);
        out.extend_from_slice(self.email.as_slice());
        out.push(62u8);
        out.push(32u8);
        push_i64_decimal(self.when_secs, &mut out);
        out.push(32u8);
        format_tz_offset(self.when_offset_secs, &mut out);
        assert(out@ =~= wire_ident(self@));
        out
    }

    /// An independent copy.
    pub fn copy(&self) -> (res: Signature)
        ensures
            res@ == self@,
    {
        proof {
            use_type_invariant(self);
        }
        Signature {
            name: self.name.clone(),
            email: self.email.clone(),
            when_secs: self.when_secs,
            when_offset_secs: self.when_offset_secs,
        }
    }

    /// The identity name as raw bytes.
    pub fn name(&self) -> (res: Vec<u8>)
        ensures
            res@ == self@.name,
    {
        self.name.clone()
    }

    /// The identity email as raw bytes.
    pub fn email(&self) -> (res: Vec<u8>)
        ensures
            res@ == self@.email,
    {
        self.email.clone()
    }

    /// `(unix_seconds, utc_offset_seconds)`.
    pub fn when(&self) -> (res: (i64, i32))
        ensures
            res.0 as int == self@.when_secs,
            res.1 as int == self@.when_offset,
    {
        (self.when_secs, self.when_offset_secs)
    }
}

/// The error message when both forms of an identity are given.
pub open spec fn both_ident_message(field: Seq<char>) -> Seq<char> {
    "provide "@ + field + "= or "@ + field + "_raw=, not both"@
}

/// The error message when neither form of an identity is given.
pub open spec fn missing_ident_message(field: Seq<char>) -> Seq<char> {
    field + "= or "@ + field + "_raw= is required"@
}

/// The exact header bytes for a commit/tag identity given either a structured
/// signature or raw bytes: exactly one of the two must be supplied.
pub fn resolve_ident(field: &str, sig: Option<&Signature>, raw: Option<Vec<u8>>) -> (res: Result<
    Vec<u8>,
    BindingError,
>)
    ensures
        (sig is Some && raw is None) ==> (res matches Ok(b) && b@ == wire_ident(sig.unwrap()@)),
        (sig is None && raw is Some) ==> (res matches Ok(b) && b@ == raw.unwrap()@),
        (sig is Some && raw is Some) ==> (res matches Err(e) && e.class == ErrorClass::ValueError
            && e.message@ == both_ident_message(field@)),
        (sig is None && raw is None) ==> (res matches Err(e) && e.class == ErrorClass::ValueError
            && e.message@ == missing_ident_message(field@)),
{
    match (sig, raw) {
        (Some(s), None) => Ok(s.wire_bytes()),
        (None, Some(r)) => Ok(r),
        (Some(_), Some(_)) => {
            let mut m = crate::text::concat3("provide ", field, "= or ");
            m.append(field);
            m.append("_raw=, not both");
            proof {
                reveal_strlit("provide ");
                reveal_strlit("= or ");
                reveal_strlit("_raw=, not both");
            }
            Err(error_of(ErrorClass::ValueError, m))
        },
        (None, None) => {
            let mut m = crate::text::concat3(field, "= or ", field);
            m.append("_raw= is required");
            proof {
                reveal_strlit("= or ");
                reveal_strlit("_raw= is required");
            }
            Err(error_of(ErrorClass::ValueError, m))
        },
    }
}

/// Law: a signature built for writing and rendered to wire bytes splits back
/// into the same name and email.
pub proof fn law_wire_ident_splits_back(v: SignatureView)
    requires
        clean_ident_field(v.name),
        clean_ident_field(v.email),
    ensures
        split_ident(wire_ident(v)) == (v.name, v.email),
{
    let w = wire_ident(v);
    let tail = int_decimal(v.when_secs) + seq![32u8] + tz_field(v.when_offset);
    let lt: int = v.name.len() as int + 1;
    let gt: int = v.name.len() as int + 2 + v.email.len() as int;
    lemma_tail_has_no_brackets(v.when_secs, v.when_offset);
    assert(w =~= v.name + seq![32u8, 60u8] + v.email + seq![62u8, 32u8] + tail);
    assert forall|j: int| lt < j < w.len() implies w[j] != 60u8 by {
        if j < gt {
            assert(w[j] == v.email[j - lt - 1]);
        } else if j > gt + 1 {
            assert(w[j] == tail[j - gt - 2]);
        }
    }
    assert forall|j: int| lt + 1 <= j < gt implies w[j] != 62u8 by {
        assert(w[j] == v.email[j - lt - 1]);
    }
    assert(ident_brackets(w, lt, gt));
    let (l2, g2) = choose|l2: int, g2: int| ident_brackets(w, l2, g2);
    lemma_brackets_unique(w, lt, gt, l2, g2);
    assert(w[lt - 1] == 32u8);
    assert(w.subrange(0, lt - 1) =~= v.name);
    assert(w.subrange(lt + 1, gt) =~= v.email);
}

proof fn lemma_tail_has_no_brackets(secs: int, off: int)
    ensures
        ({
            let tail = int_decimal(secs) + seq![32u8] + tz_field(off);
            forall|i: int| 0 <= i < tail.len() ==> #[trigger] tail[i] != 60u8 && tail[i] != 62u8
        }),
{
    let a: nat = if off < 0 { (-off) as nat } else { off as nat };
    let m: nat = if secs < 0 { (-secs) as nat } else { secs as nat };
    lemma_nat_digits_are_digits(m);
    lemma_nat_digits_are_digits(a / 3600);
    lemma_nat_digits_are_digits((a % 3600) / 60);
    let tail = int_decimal(secs) + seq![32u8] + tz_field(off);
    let d = int_decimal(secs);
    let tz = tz_field(off);
    let p1 = pad2(a / 3600);
    let p2 = pad2((a % 3600) / 60);
    assert forall|i: int| 0 <= i < tail.len() implies #[trigger] tail[i] != 60u8 && tail[i]
        != 62u8 by {
        if i < d.len() {
            if secs < 0 {
                if i > 0 {
                    assert(d[i] == nat_digits(m)[i - 1]);
                }
            } else {
                assert(d[i] == nat_digits(m)[i]);
            }
        } else if i > d.len() {
            let k = i - d.len() - 1;
            assert(tail[i] == tz[k]);
            if k > 0 && k < 1 + p1.len() {
                assert(tz[k] == p1[k - 1]);
            } else if k >= 1 + p1.len() {
                assert(tz[k] == p2[k - 1 - p1.len()]);
            }
        }
    }
}

} // verus!
