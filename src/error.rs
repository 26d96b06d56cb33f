//! Engine return codes and the library's error type.
use vstd::prelude::*;
use crate::status::ConnectionStatus;

verus! {

/// The return codes of the protocol engine that the library knows by name.
#[derive(Debug, Clone, Copy, PartialEq, Eq, Structural)]
pub enum MosqErr {
    AuthContinue,
    NoSubscribers,
    SubExists,
    ConnPending,
    Success,
    NoMem,
    Protocol,
    Inval,
    NoConn,
    ConnRefused,
    NotFound,
    ConnLost,
    Tls,
    PayloadSize,
    NotSupported,
    Auth,
    AclDenied,
    Unknown,
    Errno,
    Eai,
    Proxy,
    PluginDefer,
    MalformedUtf8,
    Keepalive,
    Lookup,
    MalformedPacket,
    DuplicateProperty,
    TlsHandshake,
    QosNotSupported,
    OversizePacket,
    Ocsp,
}

/// The integer that the engine uses for each return code.
pub open spec fn mosq_err_code(e: MosqErr) -> int {
    match e {
        MosqErr::AuthContinue => -4,
        MosqErr::NoSubscribers => -3,
        MosqErr::SubExists => -2,
        MosqErr::ConnPending => -1,
        MosqErr::Success => 0,
        MosqErr::NoMem => 1,
        MosqErr::Protocol => 2,
        MosqErr::Inval => 3,
        MosqErr::NoConn => 4,
        MosqErr::ConnRefused => 5,
        MosqErr::NotFound => 6,
        MosqErr::ConnLost => 7,
        MosqErr::Tls => 8,
        MosqErr::PayloadSize => 9,
        MosqErr::NotSupported => 10,
        MosqErr::Auth => 11,
        MosqErr::AclDenied => 12,
        MosqErr::Unknown => 13,
        MosqErr::Errno => 14,
        MosqErr::Eai => 15,
        MosqErr::Proxy => 16,
        MosqErr::PluginDefer => 17,
        MosqErr::MalformedUtf8 => 18,
        MosqErr::Keepalive => 19,
        MosqErr::Lookup => 20,
        MosqErr::MalformedPacket => 21,
        MosqErr::DuplicateProperty => 22,
        MosqErr::TlsHandshake => 23,
        MosqErr::QosNotSupported => 24,
        MosqErr::OversizePacket => 25,
        MosqErr::Ocsp => 26,
    }
}

/// The named return code for the engine's integer `code`, if there is one.
pub open spec fn mosq_err_for(code: i32) -> Option<MosqErr> {
    match code {
        -4 => Some(MosqErr::AuthContinue),
        -3 => Some(MosqErr::NoSubscribers),
        -2 => Some(MosqErr::SubExists),
        -1 => Some(MosqErr::ConnPending),
        0 => Some(MosqErr::Success),
        1 => Some(MosqErr::NoMem),
        2 => Some(MosqErr::Protocol),
        3 => Some(MosqErr::Inval),
        4 => Some(MosqErr::NoConn),
        5 => Some(MosqErr::ConnRefused),
        6 => Some(MosqErr::NotFound),
        7 => Some(MosqErr::ConnLost),
        8 => Some(MosqErr::Tls),
        9 => Some(MosqErr::PayloadSize),
        10 => Some(MosqErr::NotSupported),
        11 => Some(MosqErr::Auth),
        12 => Some(MosqErr::AclDenied),
        13 => Some(MosqErr::Unknown),
        14 => Some(MosqErr::Errno),
        15 => Some(MosqErr::Eai),
        16 => Some(MosqErr::Proxy),
        17 => Some(MosqErr::PluginDefer),
        18 => Some(MosqErr::MalformedUtf8),
        19 => Some(MosqErr::Keepalive),
        20 => Some(MosqErr::Lookup),
        21 => Some(MosqErr::MalformedPacket),
        22 => Some(MosqErr::DuplicateProperty),
        23 => Some(MosqErr::TlsHandshake),
        24 => Some(MosqErr::QosNotSupported),
        25 => Some(MosqErr::OversizePacket),
        26 => Some(MosqErr::Ocsp),
        _ => None,
    }
}

/// The codes that name a `MosqErr`.
pub open spec fn is_known_code(code: i32) -> bool {
    -4 <= code <= 26
}

/// The engine's code for success.
pub const MOSQ_SUCCESS: i32 = 0;

/// The engine's code for "see errno".
pub const MOSQ_ERRNO: i32 = 14;

/// The engine's code for a name-resolution failure, whose detail is in errno.
pub const MOSQ_EAI: i32 = 15;

impl MosqErr {
    /// The integer that the engine uses for this code.
    pub fn code(self) -> (r: i32)
        ensures
            r == mosq_err_code(self),
    {
        match self {
            MosqErr::AuthContinue => -4,
            MosqErr::NoSubscribers => -3,
            MosqErr::SubExists => -2,
            MosqErr::ConnPending => -1,
            MosqErr::Success => 0,
            MosqErr::NoMem => 1,
            MosqErr::Protocol => 2,
            MosqErr::Inval => 3,
            MosqErr::NoConn => 4,
            MosqErr::ConnRefused => 5,
            MosqErr::NotFound => 6,
            MosqErr::ConnLost => 7,
            MosqErr::Tls => 8,
            MosqErr::PayloadSize => 9,
            MosqErr::NotSupported => 10,
            MosqErr::Auth => 11,
            MosqErr::AclDenied => 12,
            MosqErr::Unknown => 13,
            MosqErr::Errno => 14,
            MosqErr::Eai => 15,
            MosqErr::Proxy => 16,
            MosqErr::PluginDefer => 17,
            MosqErr::MalformedUtf8 => 18,
            MosqErr::Keepalive => 19,
            MosqErr::Lookup => 20,
            MosqErr::MalformedPacket => 21,
            MosqErr::DuplicateProperty => 22,
            MosqErr::TlsHandshake => 23,
            MosqErr::QosNotSupported => 24,
            MosqErr::OversizePacket => 25,
            MosqErr::Ocsp => 26,
        }
    }

    /// The named return code for `code`, if there is one.
    pub fn from_code(code: i32) -> (r: Option<MosqErr>)
        ensures
            r == mosq_err_for(code),
            r is Some <==> is_known_code(code),
            r matches Some(e) ==> mosq_err_code(e) == code,
    {
        match code {
            -4 => Some(MosqErr::AuthContinue),
            -3 => Some(MosqErr::NoSubscribers),
            -2 => Some(MosqErr::SubExists),
            -1 => Some(MosqErr::ConnPending),
            0 => Some(MosqErr::Success),
            1 => Some(MosqErr::NoMem),
            2 => Some(MosqErr::Protocol),
            3 => Some(MosqErr::Inval),
            4 => Some(MosqErr::NoConn),
            5 => Some(MosqErr::ConnRefused),
            6 => Some(MosqErr::NotFound),
            7 => Some(MosqErr::ConnLost),
            8 => Some(MosqErr::Tls),
            9 => Some(MosqErr::PayloadSize),
            10 => Some(MosqErr::NotSupported),
            11 => Some(MosqErr::Auth),
            12 => Some(MosqErr::AclDenied),
            13 => Some(MosqErr::Unknown),
            14 => Some(MosqErr::Errno),
            15 => Some(MosqErr::Eai),
            16 => Some(MosqErr::Proxy),
            17 => Some(MosqErr::PluginDefer),
            18 => Some(MosqErr::MalformedUtf8),
            19 => Some(MosqErr::Keepalive),
            20 => Some(MosqErr::Lookup),
            21 => Some(MosqErr::MalformedPacket),
            22 => Some(MosqErr::DuplicateProperty),
            23 => Some(MosqErr::TlsHandshake),
            24 => Some(MosqErr::QosNotSupported),
            25 => Some(MosqErr::OversizePacket),
            26 => Some(MosqErr::Ocsp),
            _ => None,
        }
    }
}

/// The errors of the library, by the stage at which they arise.
#[derive(Debug, Clone, Copy, PartialEq, Eq, Structural)]
pub enum Error {
    /// The engine could not create a client instance; carries the OS error code.
    Create(i32),
    /// A text argument holds a NUL character and cannot be handed to the engine.
    CString,
    /// The engine reported an OS-level failure; carries the OS error code.
    IO(i32),
    /// The engine reported a named return code.
    Mosq(MosqErr),
    /// The engine reported a return code that the library does not know.
    UnknownMosq(i32),
    /// Host name resolution failed; carries the resolver's error code.
    Resolution(i32),
    /// The broker answered the connection attempt with a rejecting status.
    RejectedConnection(ConnectionStatus),
    /// The completion signal of an issued operation was dropped unresolved.
    CompletionLost,
}

/// The error for the engine's non-success code `code`, where `os_error` is
/// the OS error code observed right after the engine call returned.
pub open spec fn error_for_code(code: i32, os_error: i32) -> Error {
    if code == MOSQ_ERRNO {
        Error::IO(os_error)
    } else if code == MOSQ_EAI {
        Error::Resolution(os_error)
    } else {
        match mosq_err_for(code) {
            Some(e) => Error::Mosq(e),
            None => Error::UnknownMosq(code),
        }
    }
}

impl Error {
    /// Translate an engine return code other than success into an error.
    /// `os_error` is the OS error code observed right after the engine call.
    pub fn from_err(code: i32, os_error: i32) -> (r: Error)
        ensures
            r == error_for_code(code, os_error),
    {
        if code == MOSQ_ERRNO {
            Error::IO(os_error)
        } else if code == MOSQ_EAI {
            Error::Resolution(os_error)
        } else {
            match MosqErr::from_code(code) {
                Some(e) => Error::Mosq(e),
                None => Error::UnknownMosq(code),
            }
        }
    }

    /// Translate an engine return code into `Ok(res)` on success and into
    /// the matching error otherwise.
    pub fn result<T>(code: i32, os_error: i32, res: T) -> (r: Result<T, Error>)
        ensures
            code == MOSQ_SUCCESS ==> r == Ok::<T, Error>(res),
            code != MOSQ_SUCCESS ==> r == Err::<T, Error>(error_for_code(code, os_error)),
    {
        if code == MOSQ_SUCCESS {
            Ok(res)
        } else {
            Err(Error::from_err(code, os_error))
        }
    }
}

} // verus!
