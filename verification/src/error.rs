//! The error classes surfaced to callers, and how grit-lib failures map onto them.
//!
//! The classes form a hierarchy on the Python side: `GritError` is the base, with
//! `RepositoryError`, `ObjectNotFoundError`, `InvalidObjectError`,
//! `RefMismatchError`, `NetworkError` and `AuthenticationError` below it; the
//! remaining classes are Python built-ins (`OSError`, `ValueError`, ...).

use vstd::prelude::*;

verus! {

/// The exception class a failure is raised as.
#[derive(Clone, Copy, Debug, PartialEq, Eq, Structural)]
pub enum ErrorClass {
    GritError,
    RepositoryError,
    ObjectNotFoundError,
    InvalidObjectError,
    RefMismatchError,
    NetworkError,
    AuthenticationError,
    OsError,
    ValueError,
    TypeError,
    FileExistsError,
}

/// A failure: its class, its message, and for an OS error the errno when known.
#[derive(Debug)]
pub struct BindingError {
    pub class: ErrorClass,
    pub message: String,
    pub errno: Option<i32>,
}

/// The variants of `grit_lib::error::Error`, one for one; `Other` stands for any
/// variant a later grit-lib adds (the enum is non-exhaustive).
#[derive(Clone, Copy, Debug, PartialEq, Eq, Structural)]
pub enum GritErrorKind {
    NotARepository,
    ForbiddenBareRepository,
    DubiousOwnership,
    UnsupportedRepositoryFormatVersion,
    UnsupportedRepositoryExtension,
    InvalidObjectId,
    ObjectNotFound,
    CorruptObject,
    UnknownObjectType,
    ObjectHeaderTooLong,
    Io,
    Zlib,
    LooseHashMismatch,
    IndexError,
    CacheTreeCorrupt,
    InvalidRef,
    PathError,
    ConfigError,
    Signing,
    Auth,
    PushOptionsUnsupported,
    Message,
    Other,
}

/// A grit-lib failure as plain values: its variant, its `Display` text, and for
/// an I/O failure the inner error's errno and `Display` text.
#[derive(Debug)]
pub struct GritFailure {
    pub kind: GritErrorKind,
    pub message: String,
    pub io_errno: Option<i32>,
    pub io_message: String,
}

/// grit-lib's error type, carried through opaquely.
#[verifier::external_type_specification]
#[verifier::external_body]
pub struct ExGritError(grit_lib::error::Error);

/// The class each grit-lib failure variant is raised as.
pub open spec fn grit_class(kind: GritErrorKind) -> ErrorClass {
    match kind {
        GritErrorKind::NotARepository
        | GritErrorKind::ForbiddenBareRepository
        | GritErrorKind::DubiousOwnership
        | GritErrorKind::UnsupportedRepositoryFormatVersion
        | GritErrorKind::UnsupportedRepositoryExtension
        | GritErrorKind::InvalidRef
        | GritErrorKind::ConfigError => ErrorClass::RepositoryError,
        GritErrorKind::ObjectNotFound => ErrorClass::ObjectNotFoundError,
        GritErrorKind::InvalidObjectId
        | GritErrorKind::CorruptObject
        | GritErrorKind::UnknownObjectType
        | GritErrorKind::ObjectHeaderTooLong
        | GritErrorKind::Zlib
        | GritErrorKind::LooseHashMismatch => ErrorClass::InvalidObjectError,
        GritErrorKind::Io => ErrorClass::OsError,
        GritErrorKind::PathError => ErrorClass::ValueError,
        GritErrorKind::Auth => ErrorClass::AuthenticationError,
        _ => ErrorClass::GritError,
    }
}

/// The class a grit-lib failure is raised as in a network context: transport and
/// transfer-time I/O failures become network errors, all else as [`grit_class`].
pub open spec fn grit_net_class(kind: GritErrorKind) -> ErrorClass {
    match kind {
        GritErrorKind::Message | GritErrorKind::Io => ErrorClass::NetworkError,
        _ => grit_class(kind),
    }
}

/// An error of the given class with the given message and no errno.
pub fn error_of(class: ErrorClass, message: String) -> (res: BindingError)
    ensures
        res.class == class,
        res.message@ == message@,
        res.errno is None,
{
    BindingError { class, message, errno: None }
}

/// Maps a grit-lib failure onto its class. An I/O failure keeps the inner
/// error's errno and text; every other failure keeps its own text.
pub fn map_err(e: GritFailure) -> (res: BindingError)
    ensures
        res.class == grit_class(e.kind),
        e.kind == GritErrorKind::Io ==> res.errno == e.io_errno && res.message@ == e.io_message@,
        e.kind != GritErrorKind::Io ==> res.errno is None && res.message@ == e.message@,
{
    let class = match e.kind {
        GritErrorKind::NotARepository
        | GritErrorKind::ForbiddenBareRepository
        | GritErrorKind::DubiousOwnership
        | GritErrorKind::UnsupportedRepositoryFormatVersion
        | GritErrorKind::UnsupportedRepositoryExtension
        | GritErrorKind::InvalidRef
        | GritErrorKind::ConfigError => ErrorClass::RepositoryError,
        GritErrorKind::ObjectNotFound => ErrorClass::ObjectNotFoundError,
        GritErrorKind::InvalidObjectId
        | GritErrorKind::CorruptObject
        | GritErrorKind::UnknownObjectType
        | GritErrorKind::ObjectHeaderTooLong
        | GritErrorKind::Zlib
        | GritErrorKind::LooseHashMismatch => ErrorClass::InvalidObjectError,
        GritErrorKind::Io => ErrorClass::OsError,
        GritErrorKind::PathError => ErrorClass::ValueError,
        GritErrorKind::Auth => ErrorClass::AuthenticationError,
        _ => ErrorClass::GritError,
    };
    match e.kind {
        GritErrorKind::Io => BindingError { class, message: e.io_message, errno: e.io_errno },
        _ => BindingError { class, message: e.message, errno: None },
    }
}

/// Maps a grit-lib failure in a network context: `Message` and `Io` failures
/// become network errors carrying the failure's own text (no errno); every
/// other failure is mapped as [`map_err`] maps it.
pub fn net_map_err(e: GritFailure) -> (res: BindingError)
    ensures
        res.class == grit_net_class(e.kind),
        res.errno is None,
        res.message@ == e.message@,
{
    match e.kind {
        GritErrorKind::Message | GritErrorKind::Io => BindingError {
            class: ErrorClass::NetworkError,
            message: e.message,
            errno: None,
        },
        _ => map_err(e),
    }
}

/// A repository-class error for a binding-level ref fault (such as a ref name
/// that is not UTF-8).
pub fn invalid_ref(msg: &str) -> (res: BindingError)
    ensures
        res.class == ErrorClass::RepositoryError,
        res.message@ == msg@,
        res.errno is None,
{
    BindingError { class: ErrorClass::RepositoryError, message: String::from_str(msg), errno: None }
}

/// A network-class error for a binding-level transport fault (such as an
/// unsupported URL scheme).
pub fn network_err(msg: &str) -> (res: BindingError)
    ensures
        res.class == ErrorClass::NetworkError,
        res.message@ == msg@,
        res.errno is None,
{
    BindingError { class: ErrorClass::NetworkError, message: String::from_str(msg), errno: None }
}

/// A value error with the given message.
pub fn value_err(msg: &str) -> (res: BindingError)
    ensures
        res.class == ErrorClass::ValueError,
        res.message@ == msg@,
        res.errno is None,
{
    BindingError { class: ErrorClass::ValueError, message: String::from_str(msg), errno: None }
}

/// Law: in a network context, only transport (`Message`) and I/O failures change
/// class; every other failure is classed exactly as outside a network context.
pub proof fn law_net_mapping_refines_mapping(kind: GritErrorKind)
    ensures
        kind != GritErrorKind::Message && kind != GritErrorKind::Io ==> grit_net_class(kind)
            == grit_class(kind),
        kind == GritErrorKind::Message || kind == GritErrorKind::Io ==> grit_net_class(kind)
            == ErrorClass::NetworkError,
        grit_class(GritErrorKind::Auth) == ErrorClass::AuthenticationError,
        grit_net_class(GritErrorKind::Auth) == ErrorClass::AuthenticationError,
{
}

} // verus!
