//! Typed messages over local sockets: the verified core.
//!
//! Values of a serde type travel over a local socket as framed messages. This
//! crate holds what decides how the results of the framing layer are reported:
//! the error type and the conversion into it, the readiness of a poll and the
//! conversion of each polled result, and the default message size limit.

mod outside;

pub mod error;
pub mod limits;
pub mod polled;
