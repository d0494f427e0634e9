//! Errors that might arise while using a typed local socket connection.

use async_io_typed::Error as FramingError;
use vstd::prelude::*;

verus! {

/// Errors that might arise while using a typed local socket connection.
#[derive(Debug)]
pub enum Error {
    /// Error from `std::io`
    Io(std::io::Error),
    /// Error from the `bincode` crate
    Bincode(bincode::Error),
    /// A message was sent that exceeded the configured length limit
    SentMessageTooLarge,
    /// A message was received that exceeded the configured length limit
    ReceivedMessageTooLarge,
}

/// The library error that a framing error stands for: each variant is carried
/// to the variant of the same name, with its payload unchanged.
pub open spec fn error_from_framing(e: FramingError) -> Error {
    match e {
        FramingError::Io(inner) => Error::Io(inner),
        FramingError::Bincode(inner) => Error::Bincode(inner),
        FramingError::SentMessageTooLarge => Error::SentMessageTooLarge,
        FramingError::ReceivedMessageTooLarge => Error::ReceivedMessageTooLarge,
    }
}

impl vstd::std_specs::convert::FromSpecImpl<FramingError> for Error {
    open spec fn obeys_from_spec() -> bool {
        true
    }

    open spec fn from_spec(e: FramingError) -> Self {
        error_from_framing(e)
    }
}

impl From<FramingError> for Error {
    fn from(e: FramingError) -> (r: Self) {
        match e {
            FramingError::Io(inner) => Error::Io(inner),
            FramingError::Bincode(inner) => Error::Bincode(inner),
            FramingError::SentMessageTooLarge => Error::SentMessageTooLarge,
            FramingError::ReceivedMessageTooLarge => Error::ReceivedMessageTooLarge,
        }
    }
}

/// Converting a framing error loses nothing: the library error of each kind
/// comes from the framing error of the same kind alone, with the same payload,
/// so two framing errors that convert to the same library error are the same.
pub proof fn lemma_conversion_is_faithful(e1: FramingError, e2: FramingError)
    ensures
        (error_from_framing(e1) is Io) <==> (e1 is Io),
        (error_from_framing(e1) is Bincode) <==> (e1 is Bincode),
        (error_from_framing(e1) is SentMessageTooLarge) <==> (e1 is SentMessageTooLarge),
        (error_from_framing(e1) is ReceivedMessageTooLarge) <==> (e1 is ReceivedMessageTooLarge),
        error_from_framing(e1) == error_from_framing(e2) ==> e1 == e2,
{
}

} // verus!
