//! Status codes of the kernel's file system and network services.
use vstd::prelude::*;
use crate::io_error::{ErrorKind, decode_error_kind, is_known_status, status_kind};

verus! {

/// A failure status of a file system or process system call.
#[derive(Debug, Clone, Copy, PartialEq, Eq, Structural)]
pub enum Error {
    Unsupported,
    UnknownFilesystem,
    NotFound,
    FileEof,
    InvalidMemory,
    StorageFull,
    Filesystem,
    PermissionDenied,
    Io,
    FilesystemOutOfRam,
    OutOfMemory,
    FileNotAnExec,
    TooManyProcesses,
}

pub open spec fn error_code(e: Error) -> int {
    match e {
        Error::Unsupported => 2,
        Error::UnknownFilesystem => 3,
        Error::NotFound => 5,
        Error::FileEof => 6,
        Error::InvalidMemory => 7,
        Error::StorageFull => 8,
        Error::Filesystem => 9,
        Error::PermissionDenied => 10,
        Error::Io => 11,
        Error::FilesystemOutOfRam => 12,
        Error::OutOfMemory => 30,
        Error::FileNotAnExec => 31,
        Error::TooManyProcesses => 32,
    }
}

impl Error {
    /// The status code of this error as the kernel returns it.
    pub fn code(self) -> (c: usize)
        ensures
            c == error_code(self),
    {
        match self {
            Error::Unsupported => 2,
            Error::UnknownFilesystem => 3,
            Error::NotFound => 5,
            Error::FileEof => 6,
            Error::InvalidMemory => 7,
            Error::StorageFull => 8,
            Error::Filesystem => 9,
            Error::PermissionDenied => 10,
            Error::Io => 11,
            Error::FilesystemOutOfRam => 12,
            Error::OutOfMemory => 30,
            Error::FileNotAnExec => 31,
            Error::TooManyProcesses => 32,
        }
    }

    /// The error with a given status code, if there is one.
    pub fn from_code(code: usize) -> (e: Option<Error>)
        ensures
            match e {
                Some(err) => error_code(err) == code,
                None => !is_known_status(code as int),
            },
    {
        match code {
            2 => Some(Error::Unsupported),
            3 => Some(Error::UnknownFilesystem),
            5 => Some(Error::NotFound),
            6 => Some(Error::FileEof),
            7 => Some(Error::InvalidMemory),
            8 => Some(Error::StorageFull),
            9 => Some(Error::Filesystem),
            10 => Some(Error::PermissionDenied),
            11 => Some(Error::Io),
            12 => Some(Error::FilesystemOutOfRam),
            30 => Some(Error::OutOfMemory),
            31 => Some(Error::FileNotAnExec),
            32 => Some(Error::TooManyProcesses),
            _ => None,
        }
    }

    /// The I/O error kind of this status.
    pub fn into_io_errorkind(self) -> (k: ErrorKind)
        ensures
            k == status_kind(error_code(self)),
    {
        decode_error_kind(self.code() as i32)
    }
}

/// A failure status of a network system call.
#[derive(Debug, Clone, Copy, PartialEq, Eq, Structural)]
pub enum NetworkError {
    NoBufs,
    InProgress,
    OptionNotSupported,
    WouldBlock,
    NotConnected,
    Already,
    InvalidArgument,
    MessageSize,
    NoMemory,
    AddressInUse,
    AddressNotAvailable,
    ConnectionReset,
    ConnectionAborted,
    IsConnection,
    TimedOut,
    ConnectionRefused,
}

pub open spec fn network_error_code(e: NetworkError) -> int {
    match e {
        NetworkError::NoBufs => 1,
        NetworkError::InProgress => 2,
        NetworkError::OptionNotSupported => 4,
        NetworkError::WouldBlock => 6,
        NetworkError::NotConnected => 9,
        NetworkError::Already => 10,
        NetworkError::InvalidArgument => 11,
        NetworkError::MessageSize => 12,
        NetworkError::NoMemory => 18,
        NetworkError::AddressInUse => 20,
        NetworkError::AddressNotAvailable => 21,
        NetworkError::ConnectionReset => 52,
        NetworkError::ConnectionAborted => 53,
        NetworkError::IsConnection => 56,
        NetworkError::TimedOut => 60,
        NetworkError::ConnectionRefused => 61,
    }
}

/// Whether a value is the code of a network error.
pub open spec fn is_network_error_code(code: int) -> bool {
    code == 1 || code == 2 || code == 4 || code == 6 || code == 9 || code == 10 || code == 11
        || code == 12 || code == 18 || code == 20 || code == 21 || code == 52 || code == 53
        || code == 56 || code == 60 || code == 61
}

impl NetworkError {
    /// The error code of this network error.
    pub fn code(self) -> (c: usize)
        ensures
            c == network_error_code(self),
    {
        match self {
            NetworkError::NoBufs => 1,
            NetworkError::InProgress => 2,
            NetworkError::OptionNotSupported => 4,
            NetworkError::WouldBlock => 6,
            NetworkError::NotConnected => 9,
            NetworkError::Already => 10,
            NetworkError::InvalidArgument => 11,
            NetworkError::MessageSize => 12,
            NetworkError::NoMemory => 18,
            NetworkError::AddressInUse => 20,
            NetworkError::AddressNotAvailable => 21,
            NetworkError::ConnectionReset => 52,
            NetworkError::ConnectionAborted => 53,
            NetworkError::IsConnection => 56,
            NetworkError::TimedOut => 60,
            NetworkError::ConnectionRefused => 61,
        }
    }

    /// The network error with a given code, if there is one.
    pub fn from_code(code: usize) -> (e: Option<NetworkError>)
        ensures
            match e {
                Some(err) => network_error_code(err) == code,
                None => !is_network_error_code(code as int),
            },
    {
        match code {
            1 => Some(NetworkError::NoBufs),
            2 => Some(NetworkError::InProgress),
            4 => Some(NetworkError::OptionNotSupported),
            6 => Some(NetworkError::WouldBlock),
            9 => Some(NetworkError::NotConnected),
            10 => Some(NetworkError::Already),
            11 => Some(NetworkError::InvalidArgument),
            12 => Some(NetworkError::MessageSize),
            18 => Some(NetworkError::NoMemory),
            20 => Some(NetworkError::AddressInUse),
            21 => Some(NetworkError::AddressNotAvailable),
            52 => Some(NetworkError::ConnectionReset),
            53 => Some(NetworkError::ConnectionAborted),
            56 => Some(NetworkError::IsConnection),
            60 => Some(NetworkError::TimedOut),
            61 => Some(NetworkError::ConnectionRefused),
            _ => None,
        }
    }

    /// The I/O error kind of this network error: the status `128 + code` decoded like a
    /// kernel status. No such status is a known one, so no network error can be converted.
    pub fn into_io_errorkind(self) -> (k: ErrorKind)
        requires
            is_known_status(128 + network_error_code(self)),
        ensures
            k == status_kind(128 + network_error_code(self)),
    {
        decode_error_kind(128 + (self.code() as i32))
    }
}

/// A result whose error is a file system status.
pub type SystemResult<T> = Result<T, Error>;

/// A result whose error is a network status.
pub type NetworkResult<T> = Result<T, NetworkError>;

/// Network error codes start at 1, so none maps to a known kernel status once shifted by 128.
pub proof fn lemma_network_errors_have_no_kind(e: NetworkError)
    ensures
        !is_known_status(128 + network_error_code(e)),
{
}

/// Distinct file system errors have distinct codes, so `from_code` of an error's code gives
/// that error back.
pub proof fn lemma_error_code_injective(a: Error, b: Error)
    requires
        error_code(a) == error_code(b),
    ensures
        a == b,
{
}

/// Distinct network errors have distinct codes, so `from_code` of an error's code gives
/// that error back.
pub proof fn lemma_network_error_code_injective(a: NetworkError, b: NetworkError)
    requires
        network_error_code(a) == network_error_code(b),
    ensures
        a == b,
{
}

/// Every file system error's code is a known kernel status.
pub proof fn lemma_error_codes_known(e: Error)
    ensures
        is_known_status(error_code(e)),
{
}

/// The status code of each file system error, as the kernel numbers them.
pub proof fn lemma_error_code_table()
    ensures
        error_code(Error::Unsupported) == 2,
        error_code(Error::UnknownFilesystem) == 3,
        error_code(Error::NotFound) == 5,
        error_code(Error::FileEof) == 6,
        error_code(Error::InvalidMemory) == 7,
        error_code(Error::StorageFull) == 8,
        error_code(Error::Filesystem) == 9,
        error_code(Error::PermissionDenied) == 10,
        error_code(Error::Io) == 11,
        error_code(Error::FilesystemOutOfRam) == 12,
        error_code(Error::OutOfMemory) == 30,
        error_code(Error::FileNotAnExec) == 31,
        error_code(Error::TooManyProcesses) == 32,
{
}

/// The code of each network error, as the kernel numbers them.
pub proof fn lemma_network_error_code_table()
    ensures
        network_error_code(NetworkError::NoBufs) == 1,
        network_error_code(NetworkError::InProgress) == 2,
        network_error_code(NetworkError::OptionNotSupported) == 4,
        network_error_code(NetworkError::WouldBlock) == 6,
        network_error_code(NetworkError::NotConnected) == 9,
        network_error_code(NetworkError::Already) == 10,
        network_error_code(NetworkError::InvalidArgument) == 11,
        network_error_code(NetworkError::MessageSize) == 12,
        network_error_code(NetworkError::NoMemory) == 18,
        network_error_code(NetworkError::AddressInUse) == 20,
        network_error_code(NetworkError::AddressNotAvailable) == 21,
        network_error_code(NetworkError::ConnectionReset) == 52,
        network_error_code(NetworkError::ConnectionAborted) == 53,
        network_error_code(NetworkError::IsConnection) == 56,
        network_error_code(NetworkError::TimedOut) == 60,
        network_error_code(NetworkError::ConnectionRefused) == 61,
{
}

/// A code is a network error's code exactly when it is one of the kernel's network codes.
pub proof fn lemma_network_codes_are_the_known_ones(code: int)
    ensures
        is_network_error_code(code) <==> exists|e: NetworkError| network_error_code(e) == code,
{
    if is_network_error_code(code) {
        lemma_network_error_code_table();
        if code == 1 { assert(network_error_code(NetworkError::NoBufs) == code); }
        else if code == 2 { assert(network_error_code(NetworkError::InProgress) == code); }
        else if code == 4 { assert(network_error_code(NetworkError::OptionNotSupported) == code); }
        else if code == 6 { assert(network_error_code(NetworkError::WouldBlock) == code); }
        else if code == 9 { assert(network_error_code(NetworkError::NotConnected) == code); }
        else if code == 10 { assert(network_error_code(NetworkError::Already) == code); }
        else if code == 11 { assert(network_error_code(NetworkError::InvalidArgument) == code); }
        else if code == 12 { assert(network_error_code(NetworkError::MessageSize) == code); }
        else if code == 18 { assert(network_error_code(NetworkError::NoMemory) == code); }
        else if code == 20 { assert(network_error_code(NetworkError::AddressInUse) == code); }
        else if code == 21 { assert(network_error_code(NetworkError::AddressNotAvailable) == code); }
        else if code == 52 { assert(network_error_code(NetworkError::ConnectionReset) == code); }
        else if code == 53 { assert(network_error_code(NetworkError::ConnectionAborted) == code); }
        else if code == 56 { assert(network_error_code(NetworkError::IsConnection) == code); }
        else if code == 60 { assert(network_error_code(NetworkError::TimedOut) == code); }
        else { assert(network_error_code(NetworkError::ConnectionRefused) == code); }
    }
}

} // verus!
