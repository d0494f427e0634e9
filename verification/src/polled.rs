//! The readiness of a poll, and the conversion of what the framing layer
//! reports into what this library reports.

use async_io_typed::Error as FramingError;
use vstd::prelude::*;

use crate::error::{error_from_framing, lemma_conversion_is_faithful, Error};

verus! {

/// The outcome of one poll: the operation either completed with a value, or
/// is not ready yet and has arranged for the task to be woken.
#[derive(Debug)]
pub enum Polled<T> {
    /// The operation completed with this value.
    Ready(T),
    /// The operation is not complete yet.
    Pending,
}

/// A received item as this library reports it: the same item, a framing
/// error carried to the library error that stands for it, or the end of the
/// stream.
pub open spec fn next_from_framing<T>(
    p: Polled<Option<Result<T, FramingError>>>,
) -> Polled<Option<Result<T, Error>>> {
    match p {
        Polled::Pending => Polled::Pending,
        Polled::Ready(None) => Polled::Ready(None),
        Polled::Ready(Some(Ok(item))) => Polled::Ready(Some(Ok(item))),
        Polled::Ready(Some(Err(e))) => Polled::Ready(Some(Err(error_from_framing(e)))),
    }
}

/// A completed step of sending as this library reports it.
pub open spec fn result_from_framing(r: Result<(), FramingError>) -> Result<(), Error> {
    match r {
        Ok(done) => Ok(done),
        Err(e) => Err(error_from_framing(e)),
    }
}

/// A polled step of sending as this library reports it.
pub open spec fn status_from_framing(p: Polled<Result<(), FramingError>>) -> Polled<Result<(), Error>> {
    match p {
        Polled::Pending => Polled::Pending,
        Polled::Ready(r) => Polled::Ready(result_from_framing(r)),
    }
}

/// Converts what the framing layer's reader reported into what this library
/// reports: readiness, the end of the stream and received items are kept, and
/// an error becomes the library error of the same name.
pub fn convert_next<T>(p: Polled<Option<Result<T, FramingError>>>) -> (r: Polled<Option<Result<T, Error>>>)
    ensures
        r == next_from_framing(p),
{
    match p {
        Polled::Pending => Polled::Pending,
        Polled::Ready(None) => Polled::Ready(None),
        Polled::Ready(Some(Ok(item))) => Polled::Ready(Some(Ok(item))),
        Polled::Ready(Some(Err(e))) => Polled::Ready(Some(Err(Error::from(e)))),
    }
}

/// Converts the result of handing an item to the framing layer's writer.
pub fn convert_send(r: Result<(), FramingError>) -> (out: Result<(), Error>)
    ensures
        out == result_from_framing(r),
{
    match r {
        Ok(done) => Ok(done),
        Err(e) => Err(Error::from(e)),
    }
}

/// Converts a polled step of the framing layer's writer (readiness, flushing
/// or closing).
pub fn convert_status(p: Polled<Result<(), FramingError>>) -> (r: Polled<Result<(), Error>>)
    ensures
        r == status_from_framing(p),
{
    match p {
        Polled::Pending => Polled::Pending,
        Polled::Ready(inner) => Polled::Ready(convert_send(inner)),
    }
}

/// Reporting a received item changes nothing but the error type: a poll is
/// reported pending exactly when the framing layer was pending, the end of the
/// stream exactly when it ended, an item exactly when it delivered that same
/// item, and an error exactly when it failed; and no two different outcomes of
/// the framing layer are reported alike.
pub proof fn lemma_next_conversion_is_faithful<T>(
    p1: Polled<Option<Result<T, FramingError>>>,
    p2: Polled<Option<Result<T, FramingError>>>,
)
    ensures
        (next_from_framing(p1) is Pending) <==> (p1 is Pending),
        (next_from_framing(p1) == Polled::<Option<Result<T, Error>>>::Ready(None)) <==> (p1
            == Polled::<Option<Result<T, FramingError>>>::Ready(None)),
        forall|item: T|
            (#[trigger] next_from_framing(p1) == Polled::<Option<Result<T, Error>>>::Ready(
                Some(Ok(item)),
            )) <==> (p1 == Polled::<Option<Result<T, FramingError>>>::Ready(Some(Ok(item)))),
        (next_from_framing(p1) matches Polled::Ready(Some(Err(_)))) <==> (p1 matches Polled::Ready(
            Some(Err(_)),
        )),
        next_from_framing(p1) == next_from_framing(p2) ==> p1 == p2,
{
    if let (Polled::Ready(Some(Err(e1))), Polled::Ready(Some(Err(e2)))) = (p1, p2) {
        lemma_conversion_is_faithful(e1, e2);
    }
}

/// Reporting a step of sending changes nothing but the error type: it is
/// pending, succeeded, or failed exactly when the framing layer's step was,
/// and no two different outcomes are reported alike.
pub proof fn lemma_status_conversion_is_faithful(
    p1: Polled<Result<(), FramingError>>,
    p2: Polled<Result<(), FramingError>>,
)
    ensures
        (status_from_framing(p1) is Pending) <==> (p1 is Pending),
        (status_from_framing(p1) == Polled::<Result<(), Error>>::Ready(Ok(()))) <==> (p1
            == Polled::<Result<(), FramingError>>::Ready(Ok(()))),
        (status_from_framing(p1) matches Polled::Ready(Err(_))) <==> (p1 matches Polled::Ready(
            Err(_),
        )),
        status_from_framing(p1) == status_from_framing(p2) ==> p1 == p2,
{
    if let (Polled::Ready(Err(e1)), Polled::Ready(Err(e2))) = (p1, p2) {
        lemma_conversion_is_faithful(e1, e2);
    }
}

} // verus!
