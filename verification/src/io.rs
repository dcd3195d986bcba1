//! Kinds of I/O errors, seen from verified code.
use vstd::prelude::*;

verus! {

/// `std::io::ErrorKind`, declared with its variants so that verified code can
/// match on them.
#[verifier::external_type_specification]
pub struct ExErrorKind(std::io::ErrorKind);

} // verus!
