//! Typed data model for the Telegram Bot HTTP API: request parameter
//! structures, the success/error response envelope, and the polymorphic
//! update/message object graph, bound to a JSON wire encoding.
//!
//! The wire layer is the [`json`] module: a JSON document tree and the
//! object-member lookup the decoders are built on. The object model lives
//! under [`bot`], with an encoder and a decoder for each wire type and
//! proofs that decoding inverts encoding.
use vstd::prelude::*;

pub mod bot;
pub mod json;

verus! {

} // verus!
