//! What every part of the platform layer shares: the "unsupported" error and the type of
//! values that cannot exist.
use vstd::prelude::*;
use crate::io_error::IoError;

verus! {

/// A type without values: objects of this platform that can never be made hold one. Its
/// invariant holds of no value, so verified code can make none, and code that holds one is
/// unreachable.
pub struct Never {
    nothing: (),
}

impl Never {
    #[verifier::type_invariant]
    pub(crate) closed spec fn inhabited(self) -> bool {
        self.nothing != self.nothing
    }

}

/// Whether a result is the "unsupported on this platform" error.
pub open spec fn is_unsupported<T>(r: Result<T, IoError>) -> bool {
    r == Err::<T, IoError>(IoError::UnsupportedPlatform)
}

/// The error of an operation that this platform does not support.
pub fn unsupported_err() -> (e: IoError)
    ensures
        e == IoError::UnsupportedPlatform,
{
    IoError::UnsupportedPlatform
}

/// Fails with the "unsupported on this platform" error.
pub fn unsupported<T>() -> (r: Result<T, IoError>)
    ensures
        r == Err::<T, IoError>(IoError::UnsupportedPlatform),
{
    Err(unsupported_err())
}

} // verus!
