//! Read-only lookups in a merged git configuration (system < global < local
//! < worktree < command line), last value wins.

use vstd::prelude::*;
use crate::error::{BindingError, ErrorClass, error_of};
use crate::text::{ascii_lower, concat3, debug_quote, debug_quoted, trimmed};
use grit_lib::config::ConfigSet as MergedConfig;

verus! {

/// grit-lib's merged configuration, held as loaded.
#[verifier::external_type_specification]
#[verifier::external_body]
pub struct ExConfigSet(MergedConfig);

/// The entries of a merged configuration in load order: each entry's
/// canonical key and its value (`None` for a bare boolean key).
pub uninterp spec fn config_entries(c: MergedConfig) -> Seq<(Seq<char>, Option<Seq<char>>)>;

/// The canonical form grit-lib's `config::canonical_key` gives a key (section
/// and name lower-cased), or `None` when it rejects the key.
pub uninterp spec fn config_key(key: Seq<char>) -> Option<Seq<char>>;

/// What grit-lib's `config::parse_bool` makes of a value.
pub uninterp spec fn config_bool(value: Seq<char>) -> Result<bool, Seq<char>>;

/// What grit-lib's `config::parse_i64` makes of a value.
pub uninterp spec fn config_int(value: Seq<char>) -> Result<i64, Seq<char>>;

/// The value of the last entry with the given canonical key, a bare key
/// reading as `"true"`.
pub open spec fn last_value(entries: Seq<(Seq<char>, Option<Seq<char>>)>, key: Seq<char>) -> Option<Seq<char>>
    decreases entries.len(),
{
    if entries.len() == 0 {
        None
    } else if entries.last().0 == key {
        Some(
            match entries.last().1 {
                Some(v) => v,
                None => "true"@,
            },
        )
    } else {
        last_value(entries.drop_last(), key)
    }
}

/// The string value of a key: absent when grit-lib rejects the key, else the
/// last value recorded under its canonical form.
pub open spec fn config_lookup(entries: Seq<(Seq<char>, Option<Seq<char>>)>, key: Seq<char>) -> Option<Seq<char>> {
    match config_key(key) {
        None => None,
        Some(k) => last_value(entries, k),
    }
}

/// The model of a parse result.
pub open spec fn parsed_view<T>(r: Result<T, String>) -> Result<T, Seq<char>> {
    match r {
        Ok(v) => Ok(v),
        Err(m) => Err(m@),
    }
}

/// Looks a key up with grit-lib's `ConfigSet::get`.
///
/// Claims what the method's source shows: the key is canonicalized (a
/// rejected key finds nothing), the last entry with that key wins, and a bare
/// key reads as `"true"`.
#[verifier::external_body]
fn grit_config_get(c: &MergedConfig, key: &str) -> (res: Option<String>)
    ensures
        match res {
            Some(v) => config_lookup(config_entries(*c), key@) == Some(v@),
            None => config_lookup(config_entries(*c), key@) is None,
        },
{
    c.get(key)
}

/// Whether a value names one of the modes of `pack.allowPackReuse`: `single`
/// or `multi`, in any ASCII case, with surrounding white space ignored.
pub open spec fn reuse_mode(value: Seq<char>) -> bool {
    let m = ascii_lower(trimmed(value));
    m == "single"@ || m == "multi"@
}

/// Reads a boolean with grit-lib's `ConfigSet::get_bool`.
///
/// Claims what the method's source shows: nothing when the key has no value;
/// for the key `pack.allowPackReuse`, nothing when the value is one of its
/// modes (see [`reuse_mode`]); otherwise the value parsed by `parse_bool`.
#[verifier::external_body]
fn grit_config_get_bool(c: &MergedConfig, key: &str) -> (res: Option<Result<bool, String>>)
    ensures
        match config_lookup(config_entries(*c), key@) {
            None => res is None,
            Some(v) => if config_key(key@) == Some("pack.allowpackreuse"@) && reuse_mode(v) {
                res is None
            } else {
                res matches Some(r) && parsed_view(r) == config_bool(v)
            },
        },
{
    c.get_bool(key)
}

/// Reads an integer with grit-lib's `ConfigSet::get_i64`.
///
/// Claims what the method's source shows: nothing when the key has no value,
/// else the value parsed by `parse_i64` (which takes `k`/`m`/`g` suffixes).
#[verifier::external_body]
fn grit_config_get_i64(c: &MergedConfig, key: &str) -> (res: Option<Result<i64, String>>)
    ensures
        match config_lookup(config_entries(*c), key@) {
            None => res is None,
            Some(v) => res matches Some(r) && parsed_view(r) == config_int(v),
        },
{
    c.get_i64(key)
}

/// The message for a value that does not parse.
pub open spec fn bad_value_message(key: Seq<char>, msg: Seq<char>) -> Seq<char> {
    "config key "@ + debug_quoted(key) + ": "@ + msg
}

/// Whether an answer is the parsed value, or the value error for it.
pub open spec fn typed_answer<T>(res: Result<Option<T>, BindingError>, key: Seq<char>, parsed: Result<T, Seq<char>>) -> bool {
    match parsed {
        Ok(x) => res matches Ok(v) && v == Some(x),
        Err(m) => res matches Err(e) && e.class == ErrorClass::ValueError && e.message@ == bad_value_message(key, m),
    }
}

/// Turns a typed lookup into the caller's answer: absent stays absent, a
/// parsed value is returned, and a value that does not parse is a value error
/// naming the key.
pub fn config_value_result<T>(key: &str, r: Option<Result<T, String>>) -> (res: Result<Option<T>, BindingError>)
    ensures
        match r {
            None => res matches Ok(v) && v is None,
            Some(Ok(x)) => res matches Ok(v) && v == Some(x),
            Some(Err(m)) => res matches Err(e) && e.class == ErrorClass::ValueError && e.message@
                == bad_value_message(key@, m@),
        },
{
    match r {
        None => Ok(None),
        Some(Ok(x)) => Ok(Some(x)),
        Some(Err(m)) => {
            let q = debug_quote(key);
            let mut msg = concat3("config key ", q.as_str(), ": ");
            msg.append(m.as_str());
            Err(error_of(ErrorClass::ValueError, msg))
        },
    }
}

/// A merged configuration; it owns its entries.
pub struct ConfigSet {
    inner: MergedConfig,
}

impl ConfigSet {
    /// The entries, in load order.
    pub closed spec fn entries(&self) -> Seq<(Seq<char>, Option<Seq<char>>)> {
        config_entries(self.inner)
    }

    /// The configuration holding grit-lib's merged set.
    pub fn new(inner: MergedConfig) -> (res: ConfigSet)
        ensures
            res.entries() == config_entries(inner),
    {
        ConfigSet { inner }
    }

    /// The last value of a key across the merged layers (a bare boolean key
    /// reads as `"true"`), or `None` when it is absent everywhere.
    pub fn get_str(&self, key: &str) -> (res: Option<String>)
        ensures
            match res {
                Some(v) => config_lookup(self.entries(), key@) == Some(v@),
                None => config_lookup(self.entries(), key@) is None,
            },
    {
        grit_config_get(&self.inner, key)
    }

    /// A boolean value (`true`/`yes`/`on`/`1` and `false`/`no`/`off`/`0`
    /// spellings, as grit-lib decides them): `None` when absent, a value error
    /// when the value is not a boolean. `pack.allowPackReuse` set to one of its
    /// modes, `single` or `multi`, reads as absent.
    pub fn get_bool(&self, key: &str) -> (res: Result<Option<bool>, BindingError>)
        ensures
            match config_lookup(self.entries(), key@) {
                None => res matches Ok(v) && v is None,
                Some(v) => if config_key(key@) == Some("pack.allowpackreuse"@) && reuse_mode(v) {
                    res matches Ok(x) && x is None
                } else {
                    typed_answer(res, key@, config_bool(v))
                },
            },
    {
        let r = grit_config_get_bool(&self.inner, key);
        config_value_result(key, r)
    }

    /// An integer value (with `k`/`m`/`g` suffixes): `None` when absent, a
    /// value error when the value is not an integer.
    pub fn get_int(&self, key: &str) -> (res: Result<Option<i64>, BindingError>)
        ensures
            match config_lookup(self.entries(), key@) {
                None => res matches Ok(v) && v is None,
                Some(v) => typed_answer(res, key@, config_int(v)),
            },
    {
        let r = grit_config_get_i64(&self.inner, key);
        config_value_result(key, r)
    }
}

} // verus!
