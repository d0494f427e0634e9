//! Declarations of the outside types that the library's errors carry.

use async_io_typed::Error as FramingError;
use vstd::prelude::*;

verus! {

/// `std::io::Error`, carried through opaquely.
#[verifier::external_type_specification]
#[verifier::external_body]
pub struct ExIoError(std::io::Error);

/// `bincode::ErrorKind`, carried through opaquely (inside `bincode::Error`).
#[verifier::external_type_specification]
#[verifier::external_body]
pub struct ExBincodeErrorKind(bincode::ErrorKind);

/// The error enum of the framing crate (`async_io_typed::Error`). Its variants
/// and their payload types are public in that crate; the library reads them.
#[verifier::external_type_specification]
pub struct ExFramingError(FramingError);

} // verus!
