//! Remote URL handling: which transport a URL selects, and how credentials are
//! taken from an http(s) URL's userinfo.

use vstd::prelude::*;
use crate::text::{
    has_sub, lemma_trim_end, trim_start, trimmed,
    concat3, debug_quote, debug_quoted, first_pos, is_first_pos, last_char_pos, lemma_first_pos,
    rfind_char, find_char, first_char_pos, seq_starts_with, str_starts_with, sub_at, substring,
};
use crate::error::{BindingError, ErrorClass, error_of, value_err};

verus! {

/// The transports a remote URL can select.
#[derive(Clone, Copy, Debug, PartialEq, Eq, Structural)]
pub enum Scheme {
    Git,
    Http,
    Ssh,
}

/// Whether a URL is an SSH address, as grit-lib's `transport::is_ssh_url`
/// decides: after trimming white space, `ext::` URLs are not, `ssh://` and
/// `git+ssh://` URLs are, any other URL holding `://` is not, and otherwise
/// it is an scp-style `host:path` exactly when it has a `:` with no `/`
/// before the first one.
pub open spec fn ssh_url(url: Seq<char>) -> bool {
    let u = trimmed(url);
    if seq_starts_with(u, "ext::"@) {
        false
    } else if seq_starts_with(u, "ssh://"@) || seq_starts_with(u, "git+ssh://"@) {
        true
    } else if has_sub(u, "://"@) {
        false
    } else {
        let colon = first_char_pos(u, ':');
        colon < u.len() && colon < first_char_pos(u, '/')
    }
}

/// Whether a URL starts with `ssh://` or `git+ssh://`.
pub open spec fn ssh_prefixed(url: Seq<char>) -> bool {
    seq_starts_with(url, "ssh://"@) || seq_starts_with(url, "git+ssh://"@)
}

/// Whether `c` is an ASCII letter.
pub open spec fn is_ascii_letter(c: char) -> bool {
    ('a' <= c <= 'z') || ('A' <= c <= 'Z')
}

/// A URL with some other scheme: it starts with a letter, holds `://`, and
/// does not start with `ssh://` or `git+ssh://`.
pub open spec fn other_scheme_url(url: Seq<char>) -> bool {
    &&& url.len() > 0
    &&& is_ascii_letter(url[0])
    &&& exists|i: int| sub_at(url, i, "://"@)
    &&& !ssh_prefixed(url)
}

/// Asks grit-lib's `transport::is_ssh_url` whether `url` is an SSH address.
///
/// Claims what the function's source shows, as [`ssh_url`] states it
/// (`str::trim` removes white space as `char::is_whitespace` defines it;
/// positions found by `str::find` on bytes are in the same order as
/// character positions).
#[verifier::external_body]
fn grit_is_ssh_url(url: &str) -> (res: bool)
    ensures
        res == ssh_url(url@),
{
    grit_lib::transport::is_ssh_url(url)
}

/// The transport a URL selects, if any: `git://` for the git daemon,
/// `http://`/`https://` for smart HTTP, else SSH when grit-lib takes it for an
/// SSH address.
pub open spec fn scheme_of(url: Seq<char>) -> Option<Scheme> {
    if seq_starts_with(url, "git://"@) {
        Some(Scheme::Git)
    } else if seq_starts_with(url, "https://"@) || seq_starts_with(url, "http://"@) {
        Some(Scheme::Http)
    } else if ssh_url(url) {
        Some(Scheme::Ssh)
    } else {
        None
    }
}

/// A URL that starts with `ssh://` or `git+ssh://` is an SSH address.
pub proof fn lemma_ssh_prefixed_is_ssh(url: Seq<char>)
    requires
        ssh_prefixed(url),
    ensures
        ssh_url(url),
{
    reveal_strlit("ssh://");
    reveal_strlit("git+ssh://");
    reveal_strlit("ext::");
    let n: int = if seq_starts_with(url, "ssh://"@) { 6 } else { 10 };
    let pre = url.subrange(0, n);
    assert(url[0] == pre[0]);
    assert(url[n - 1] == pre[n - 1]);
    assert(trim_start(url) == url);
    lemma_trim_end(url);
    let u = trimmed(url);
    assert(n - 1 < u.len());
    assert(u.subrange(0, n) =~= pre);
    if seq_starts_with(u, "ext::"@) {
        assert(u[0] == u.subrange(0, 5)[0]);
    }
}

/// A URL that starts with a letter, holds `://` and does not start with
/// `ssh://` or `git+ssh://` is not an SSH address.
pub proof fn lemma_other_scheme_not_ssh(url: Seq<char>)
    requires
        other_scheme_url(url),
    ensures
        !ssh_url(url),
{
    reveal_strlit("ssh://");
    reveal_strlit("git+ssh://");
    reveal_strlit("://");
    assert(trim_start(url) == url);
    lemma_trim_end(url);
    let u = trimmed(url);
    let i = choose|i: int| sub_at(url, i, "://"@);
    assert(url[i] == url.subrange(i, i + 3)[0]);
    assert(url[i + 2] == url.subrange(i, i + 3)[2]);
    assert(i + 2 < u.len());
    assert(u.subrange(i, i + 3) =~= url.subrange(i, i + 3));
    assert(sub_at(u, i, "://"@));
    if seq_starts_with(u, "ssh://"@) {
        assert(url.subrange(0, 6) =~= u.subrange(0, 6));
    }
    if seq_starts_with(u, "git+ssh://"@) {
        assert(url.subrange(0, 10) =~= u.subrange(0, 10));
    }
}

/// The message for a URL no transport supports.
pub open spec fn unsupported_url_message(url: Seq<char>) -> Seq<char> {
    "unsupported transport for URL "@ + debug_quoted(url)
        + "; supported schemes: git://, http://, https://, ssh:// (and scp-style host:path)"@
}

/// Classifies a remote URL by transport; a network error for any other URL.
pub fn classify(url: &str) -> (res: Result<Scheme, BindingError>)
    ensures
        res is Ok <==> scheme_of(url@) is Some,
        res matches Ok(s) ==> scheme_of(url@) == Some(s),
        res matches Err(e) ==> e.class == ErrorClass::NetworkError && e.message@
            == unsupported_url_message(url@),
        ssh_prefixed(url@) ==> (res matches Ok(s) && s == Scheme::Ssh),
        (other_scheme_url(url@) && !seq_starts_with(url@, "git://"@) && !seq_starts_with(
            url@,
            "https://"@,
        ) && !seq_starts_with(url@, "http://"@)) ==> res is Err,
{
    proof {
        reveal_strlit("git://");
        reveal_strlit("https://");
        reveal_strlit("http://");
        reveal_strlit("ssh://");
        reveal_strlit("git+ssh://");
        if seq_starts_with(url@, "ssh://"@) {
            assert(url@[0] == url@.subrange(0, 6)[0]);
        }
        if seq_starts_with(url@, "git+ssh://"@) {
            assert(url@[3] == url@.subrange(0, 10)[3]);
            assert(url@[0] == url@.subrange(0, 10)[0]);
        }
        if seq_starts_with(url@, "git://"@) {
            assert(url@[3] == url@.subrange(0, 6)[3]);
            assert(url@[0] == url@.subrange(0, 6)[0]);
        }
        if seq_starts_with(url@, "https://"@) {
            assert(url@[0] == url@.subrange(0, 8)[0]);
        }
        if seq_starts_with(url@, "http://"@) {
            assert(url@[0] == url@.subrange(0, 7)[0]);
        }
        if ssh_prefixed(url@) {
            lemma_ssh_prefixed_is_ssh(url@);
        }
        if other_scheme_url(url@) {
            lemma_other_scheme_not_ssh(url@);
        }
    }
    if str_starts_with(url, "git://") {
        Ok(Scheme::Git)
    } else if str_starts_with(url, "https://") || str_starts_with(url, "http://") {
        Ok(Scheme::Http)
    } else if grit_is_ssh_url(url) {
        Ok(Scheme::Ssh)
    } else {
        let q = debug_quote(url);
        let m = concat3(
            "unsupported transport for URL ",
            q.as_str(),
            "; supported schemes: git://, http://, https://, ssh:// (and scp-style host:path)",
        );
        Err(error_of(ErrorClass::NetworkError, m))
    }
}

/// The message when http credentials are given with an SSH URL.
pub open spec fn ssh_creds_message() -> Seq<char> {
    "username/password are not used for ssh URLs; ssh authentication is handled by the ssh program (keys/agent). Put the user in the URL, e.g. ssh://user@host/path."@
}

/// Refuses explicit http credentials for an SSH URL, where authentication is
/// the ssh program's job.
pub fn reject_creds_for_ssh(url: &str, username: &Option<String>, password: &Option<String>) -> (res:
    Result<(), BindingError>)
    ensures
        res is Err <==> (username is Some || password is Some) && ssh_url(url@),
        res matches Err(e) ==> e.class == ErrorClass::ValueError && e.message@
            == ssh_creds_message(),
{
    if (username.is_some() || password.is_some()) && grit_is_ssh_url(url) {
        return Err(
            value_err(
                "username/password are not used for ssh URLs; ssh authentication is handled by the ssh program (keys/agent). Put the user in the URL, e.g. ssh://user@host/path.",
            ),
        );
    }
    Ok(())
}

/// Positions where `://` starts in `s`.
pub open spec fn scheme_sep_at(s: Seq<char>) -> spec_fn(int) -> bool {
    |i: int| sub_at(s, i, "://"@)
}

/// Whether a character ends a URL authority.
pub open spec fn is_authority_end(c: char) -> bool {
    c == '/' || c == '?' || c == '#'
}

/// Positions of `s` holding a character that ends an authority.
pub open spec fn authority_end_at(s: Seq<char>) -> spec_fn(int) -> bool {
    |i: int| is_authority_end(s[i])
}

/// Credentials taken from a URL's userinfo: a user and an optional password.
pub type Userinfo = (Seq<char>, Option<Seq<char>>);

/// The userinfo split of a URL, as [`split_userinfo`] computes it: the URL
/// with any non-empty `user[:pass]@` removed from the authority right after
/// `scheme://`, and the credentials it held. The user is what precedes the
/// first `:` (the password what follows it); the userinfo is what precedes
/// the last `@` of the authority. URLs without `://`, without `@` in the
/// authority, or with empty userinfo are returned unchanged with no credentials.
pub open spec fn userinfo_split(url: Seq<char>) -> (Seq<char>, Option<Userinfo>) {
    let si = first_pos(url.len() as int, scheme_sep_at(url));
    if si == url.len() {
        (url, None)
    } else {
        let scheme = url.subrange(0, si);
        let rest = url.subrange(si + 3, url.len() as int);
        let ae = first_pos(rest.len() as int, authority_end_at(rest));
        let authority = rest.subrange(0, ae);
        let tail = rest.subrange(ae, rest.len() as int);
        let at = last_char_pos(authority, '@');
        if at < 0 {
            (url, None)
        } else {
            let userinfo = authority.subrange(0, at);
            let host = authority.subrange(at + 1, authority.len() as int);
            if userinfo.len() == 0 {
                (url, None)
            } else {
                let c = first_char_pos(userinfo, ':');
                let creds: Userinfo = if c == userinfo.len() {
                    (userinfo, None)
                } else {
                    (userinfo.subrange(0, c), Some(userinfo.subrange(c + 1, userinfo.len() as int)))
                };
                (scheme + "://"@ + host + tail, Some(creds))
            }
        }
    }
}

fn find_scheme_sep(url: &str) -> (res: usize)
    ensures
        res as int == first_pos(url@.len() as int, scheme_sep_at(url@)),
        res <= url@.len(),
        res < url@.len() ==> sub_at(url@, res as int, "://"@),
{
    proof {
        reveal_strlit("://");
    }
    let n = url.unicode_len();
    let mut i: usize = 0;
    while i < n && !(n >= 3 && i <= n - 3 && url.get_char(i) == ':' && url.get_char(i + 1) == '/'
        && url.get_char(i + 2) == '/')
        invariant
            n == url@.len(),
            0 <= i <= n,
            "://"@.len() == 3,
            "://"@[0] == ':' && "://"@[1] == '/' && "://"@[2] == '/',
            forall|j: int| 0 <= j < i ==> !#[trigger] sub_at(url@, j, "://"@),
        decreases n - i,
    {
        proof {
            if sub_at(url@, i as int, "://"@) {
                assert(url@.subrange(i as int, i + 3)[0] == ':');
                assert(url@.subrange(i as int, i + 3)[1] == '/');
                assert(url@.subrange(i as int, i + 3)[2] == '/');
            }
        }
        i = i + 1;
    }
    proof {
        let p = scheme_sep_at(url@);
        if i < n {
            assert(url@.subrange(i as int, i + 3) =~= "://"@);
        }
        assert(is_first_pos(url@.len() as int, p, i as int));
        lemma_first_pos(url@.len() as int, p, i as int);
    }
    i
}

fn find_authority_end(rest: &str) -> (res: usize)
    ensures
        res as int == first_pos(rest@.len() as int, authority_end_at(rest@)),
        res <= rest@.len(),
{
    let n = rest.unicode_len();
    let mut i: usize = 0;
    while i < n && !(rest.get_char(i) == '/' || rest.get_char(i) == '?' || rest.get_char(i) == '#')
        invariant
            n == rest@.len(),
            0 <= i <= n,
            forall|j: int| 0 <= j < i ==> !is_authority_end(#[trigger] rest@[j]),
        decreases n - i,
    {
        i = i + 1;
    }
    proof {
        let p = authority_end_at(rest@);
        assert(is_first_pos(rest@.len() as int, p, i as int));
        lemma_first_pos(rest@.len() as int, p, i as int);
    }
    i
}

/// Splits optional `user[:pass]@` userinfo out of an http(s) URL's authority
/// (see [`userinfo_split`]). Userinfo is taken literally, not percent-decoded.
pub fn split_userinfo(url: &str) -> (res: (String, Option<(String, Option<String>)>))
    ensures
        ({
            let (clean, creds) = userinfo_split(url@);
            &&& res.0@ == clean
            &&& match res.1 {
                None => creds is None,
                Some((u, p)) => creds matches Some(c) && c.0 == u@ && match p {
                    None => c.1 is None,
                    Some(pw) => c.1 == Some(pw@),
                },
            }
        }),
{
    let si = find_scheme_sep(url);
    let n = url.unicode_len();
    if si == n {
        return (String::from_str(url), None);
    }
    proof {
        reveal_strlit("://");
    }
    let scheme = substring(url, 0, si);
    let rest = substring(url, si + 3, n);
    let rest_len = rest.as_str().unicode_len();
    let ae = find_authority_end(rest.as_str());
    let authority = substring(rest.as_str(), 0, ae);
    let tail = substring(rest.as_str(), ae, rest_len);
    let at = rfind_char(authority.as_str(), '@');
    match at {
        None => (String::from_str(url), None),
        Some(at) => {
            let alen = authority.as_str().unicode_len();
            if at == 0 {
                assert(authority@.subrange(0, 0).len() == 0);
                return (String::from_str(url), None);
            }
            let userinfo = substring(authority.as_str(), 0, at);
            let host = substring(authority.as_str(), at + 1, alen);
            let c = find_char(userinfo.as_str(), ':');
            let ulen = userinfo.as_str().unicode_len();
            let creds = if c == ulen {
                (userinfo, None)
            } else {
                let u = substring(userinfo.as_str(), 0, c);
                let p = substring(userinfo.as_str(), c + 1, ulen);
                (u, Some(p))
            };
            let mut clean = concat3(scheme.as_str(), "://", host.as_str());
            clean.append(tail.as_str());
            (clean, Some(creds))
        },
    }
}

/// The effective HTTP(S) request: the URL with userinfo removed, and the user
/// and password to present. Explicit arguments win; otherwise the URL's
/// userinfo supplies them.
pub fn resolve_url_credentials(url: &str, username: Option<String>, password: Option<String>) -> (res: (
    String,
    Option<String>,
    Option<String>,
))
    ensures
        ({
            let (clean, creds) = userinfo_split(url@);
            &&& res.0@ == clean
            &&& match username {
                Some(u) => res.1 matches Some(r) && r@ == u@,
                None => match creds {
                    Some(c) => res.1 matches Some(r) && r@ == c.0,
                    None => res.1 is None,
                },
            }
            &&& match password {
                Some(p) => res.2 matches Some(r) && r@ == p@,
                None => match creds {
                    Some(c) => match c.1 {
                        Some(pw) => res.2 matches Some(r) && r@ == pw,
                        None => res.2 is None,
                    },
                    None => res.2 is None,
                },
            }
        }),
{
    let (clean_url, userinfo) = split_userinfo(url);
    let user = match username {
        Some(u) => Some(u),
        None => match &userinfo {
            Some((u, _)) => Some(u.clone()),
            None => None,
        },
    };
    let pass = match password {
        Some(p) => Some(p),
        None => match &userinfo {
            Some((_, Some(p))) => Some(p.clone()),
            _ => None,
        },
    };
    (clean_url, user, pass)
}

} // verus!
