//! Standard I/O errors, as the library hands them out.

use vstd::prelude::*;

verus! {

/// An I/O error, carried through without being looked into.
#[verifier::external_type_specification]
#[verifier::external_body]
pub struct ExIoError(std::io::Error);

/// Relies on std::io::Error::new: an error of kind `NotFound` carrying the message.
#[verifier::external_body]
pub(crate) fn not_found_error(message: String) -> std::io::Error {
    std::io::Error::new(std::io::ErrorKind::NotFound, message)
}

} // verus!
