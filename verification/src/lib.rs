pub mod guard;
pub mod progress;
pub mod resource;
pub mod revoke;
pub mod routing;
pub mod session;

use vstd::prelude::*;

verus! {

/// Largest resource size, in bytes, that a transfer will accept.
pub const MAX_TRANSFER_BYTES: u64 = 2 * 1024 * 1024 * 1024;

/// Why a resource is refused before any transfer state is created.
#[derive(Clone, Copy, Debug, PartialEq, Eq, Structural)]
pub enum ValidateError {
    /// The resource reported no bytes (or its length could not be read).
    Empty,
    /// The resource reported more bytes than `MAX_TRANSFER_BYTES`.
    TooLarge,
}

/// Accepts a declared content length only when it is known, non-zero and
/// within the size cap; says exactly which refusal applies otherwise.
pub fn validate_length(declared: Option<u64>) -> (r: Result<u64, ValidateError>)
    ensures
        match declared {
            None => r == Result::<u64, ValidateError>::Err(ValidateError::Empty),
            Some(n) => {
                if n == 0 {
                    r == Result::<u64, ValidateError>::Err(ValidateError::Empty)
                } else if n > MAX_TRANSFER_BYTES {
                    r == Result::<u64, ValidateError>::Err(ValidateError::TooLarge)
                } else {
                    r == Result::<u64, ValidateError>::Ok(n)
                }
            }
        },
{
    match declared {
        None => Err(ValidateError::Empty),
        Some(n) => {
            if n == 0 {
                Err(ValidateError::Empty)
            } else if n > MAX_TRANSFER_BYTES {
                Err(ValidateError::TooLarge)
            } else {
                Ok(n)
            }
        }
    }
}

} // verus!
