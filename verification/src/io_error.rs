//! Error kinds, errors of the I/O layer, and how kernel status codes map onto them.
use vstd::prelude::*;
use vstd::string::StringExecFns;

verus! {

/// The categories of I/O errors that this platform produces.
#[derive(Debug, Clone, Copy, PartialEq, Eq, Structural)]
pub enum ErrorKind {
    NotFound,
    PermissionDenied,
    Unsupported,
    Other,
    UnexpectedEof,
    InvalidData,
    StorageFull,
    InputOutputError,
    OutOfMemory,
}

/// An I/O error: a raw kernel status, a bare kind, or one of the two fixed errors.
#[derive(Debug, Clone, Copy, PartialEq, Eq, Structural)]
pub enum IoError {
    /// A status code returned by the kernel.
    Os(i32),
    /// An error made from a kind alone.
    Simple(ErrorKind),
    /// "operation not supported on this platform".
    UnsupportedPlatform,
    /// "failed to fill whole buffer".
    ReadExactEof,
}

/// The kernel status codes that the platform knows: 2, 3, 5 to 12, and 30 to 32.
pub open spec fn is_known_status(code: int) -> bool {
    code == 2 || code == 3 || (5 <= code <= 12) || (30 <= code <= 32)
}

/// The kind of each known kernel status code.
pub open spec fn status_kind(code: int) -> ErrorKind {
    if code == 2 {
        ErrorKind::Unsupported
    } else if code == 5 {
        ErrorKind::NotFound
    } else if code == 6 {
        ErrorKind::UnexpectedEof
    } else if code == 7 || code == 31 {
        ErrorKind::InvalidData
    } else if code == 8 {
        ErrorKind::StorageFull
    } else if code == 10 {
        ErrorKind::PermissionDenied
    } else if code == 11 {
        ErrorKind::InputOutputError
    } else if code == 12 || code == 30 {
        ErrorKind::OutOfMemory
    } else {
        ErrorKind::Other
    }
}

/// The error kind of each known kernel status.
pub proof fn lemma_status_kind_table()
    ensures
        status_kind(2) == ErrorKind::Unsupported,
        status_kind(3) == ErrorKind::Other,
        status_kind(5) == ErrorKind::NotFound,
        status_kind(6) == ErrorKind::UnexpectedEof,
        status_kind(7) == ErrorKind::InvalidData,
        status_kind(8) == ErrorKind::StorageFull,
        status_kind(9) == ErrorKind::Other,
        status_kind(10) == ErrorKind::PermissionDenied,
        status_kind(11) == ErrorKind::InputOutputError,
        status_kind(12) == ErrorKind::OutOfMemory,
        status_kind(30) == ErrorKind::OutOfMemory,
        status_kind(31) == ErrorKind::InvalidData,
        status_kind(32) == ErrorKind::Other,
{
}

/// The kind of an error, where it has one: an `Os` error has one only for a known status.
pub open spec fn has_kind(e: IoError) -> bool {
    match e {
        IoError::Os(c) => is_known_status(c as int),
        _ => true,
    }
}

pub open spec fn kind_of(e: IoError) -> ErrorKind {
    match e {
        IoError::Os(c) => status_kind(c as int),
        IoError::Simple(k) => k,
        IoError::UnsupportedPlatform => ErrorKind::Unsupported,
        IoError::ReadExactEof => ErrorKind::UnexpectedEof,
    }
}

/// Maps a kernel status code to its error kind. Unknown codes are a fault of the caller.
pub fn decode_error_kind(code: i32) -> (kind: ErrorKind)
    requires
        is_known_status(code as int),
    ensures
        kind == status_kind(code as int),
{
    match code {
        2 => ErrorKind::Unsupported,
        3 => ErrorKind::Other,
        5 => ErrorKind::NotFound,
        6 => ErrorKind::UnexpectedEof,
        7 => ErrorKind::InvalidData,
        8 => ErrorKind::StorageFull,
        9 => ErrorKind::Other,
        10 => ErrorKind::PermissionDenied,
        11 => ErrorKind::InputOutputError,
        12 => ErrorKind::OutOfMemory,
        30 => ErrorKind::OutOfMemory,
        31 => ErrorKind::InvalidData,
        _ => ErrorKind::Other,
    }
}

impl IoError {
    /// An error carrying a raw kernel status.
    pub fn from_raw_os_error(code: i32) -> (e: IoError)
        ensures
            e == IoError::Os(code),
    {
        IoError::Os(code)
    }

    /// An error carrying only a kind.
    pub fn from_kind(kind: ErrorKind) -> (e: IoError)
        ensures
            e == IoError::Simple(kind),
    {
        IoError::Simple(kind)
    }

    /// The kind of this error.
    pub fn kind(&self) -> (k: ErrorKind)
        requires
            has_kind(*self),
        ensures
            k == kind_of(*self),
    {
        match self {
            IoError::Os(c) => decode_error_kind(*c),
            IoError::Simple(k) => *k,
            IoError::UnsupportedPlatform => ErrorKind::Unsupported,
            IoError::ReadExactEof => ErrorKind::UnexpectedEof,
        }
    }

    /// The kernel status carried by this error, if it carries one.
    pub fn raw_os_error(&self) -> (c: Option<i32>)
        ensures
            c == (match *self {
                IoError::Os(code) => Some(code),
                _ => None,
            }),
    {
        match self {
            IoError::Os(code) => Some(*code),
            _ => None,
        }
    }
}

/// The last error number of the calling thread: this platform keeps none, so it is 0.
pub fn errno() -> (e: i32)
    ensures
        e == 0,
{
    0
}

/// Whether a status means an interrupted call: never on this platform.
pub fn is_interrupted(_code: i32) -> (b: bool)
    ensures
        !b,
{
    false
}

pub open spec fn digit_char(d: int) -> char {
    if d == 0 { '0' } else if d == 1 { '1' } else if d == 2 { '2' } else if d == 3 { '3' }
    else if d == 4 { '4' } else if d == 5 { '5' } else if d == 6 { '6' } else if d == 7 { '7' }
    else if d == 8 { '8' } else { '9' }
}

/// Decimal digits of a natural number, most significant first.
pub open spec fn decimal_digits(n: nat) -> Seq<char>
    decreases n,
{
    if n < 10 {
        seq![digit_char(n as int)]
    } else {
        decimal_digits(n / 10).push(digit_char((n % 10) as int))
    }
}

/// Decimal text of an integer, with a leading '-' when it is negative.
pub open spec fn decimal_text(n: int) -> Seq<char> {
    if n < 0 {
        seq!['-'] + decimal_digits((-n) as nat)
    } else {
        decimal_digits(n as nat)
    }
}

pub open spec fn status_text(errno: int) -> Seq<char> {
    seq!['S', 't', 'a', 't', 'u', 's', ':', ' '] + decimal_text(errno)
}

/// The one-character text of a decimal digit.
fn digit_str(d: u64) -> (s: &'static str)
    requires
        d < 10,
    ensures
        s@ == seq![digit_char(d as int)],
{
    if d == 0 {
        proof { reveal_strlit("0"); }
        "0"
    } else if d == 1 {
        proof { reveal_strlit("1"); }
        "1"
    } else if d == 2 {
        proof { reveal_strlit("2"); }
        "2"
    } else if d == 3 {
        proof { reveal_strlit("3"); }
        "3"
    } else if d == 4 {
        proof { reveal_strlit("4"); }
        "4"
    } else if d == 5 {
        proof { reveal_strlit("5"); }
        "5"
    } else if d == 6 {
        proof { reveal_strlit("6"); }
        "6"
    } else if d == 7 {
        proof { reveal_strlit("7"); }
        "7"
    } else if d == 8 {
        proof { reveal_strlit("8"); }
        "8"
    } else {
        proof { reveal_strlit("9"); }
        "9"
    }
}

/// Appends the decimal digits of `n`, most significant first.
fn append_digits(s: &mut String, n: u64)
    ensures
        final(s)@ == old(s)@ + decimal_digits(n as nat),
    decreases n,
{
    let ghost before = s@;
    if n >= 10 {
        append_digits(s, n / 10);
    }
    s.append(digit_str(n % 10));
    proof {
        if n >= 10 {
            assert(s@ =~= before + decimal_digits((n / 10) as nat).push(digit_char((n % 10) as int)));
        } else {
            assert(s@ =~= before + seq![digit_char(n as int)]);
        }
    }
}

/// Text that describes a kernel status: "Status: " followed by the code in decimal.
pub fn error_string(errno: i32) -> (s: String)
    ensures
        s@ == status_text(errno as int),
{
    let mut text = String::from_str("Status: ");
    proof {
        reveal_strlit("Status: ");
        assert("Status: "@ =~= seq!['S', 't', 'a', 't', 'u', 's', ':', ' ']);
    }
    let wide: i64 = errno as i64;
    let magnitude: u64 = if wide < 0 {
        text.append("-");
        proof { reveal_strlit("-"); }
        (0 - wide) as u64
    } else {
        wide as u64
    };
    append_digits(&mut text, magnitude);
    proof {
        assert(text@ =~= status_text(errno as int));
    }
    text
}

} // verus!
