//! Generation of a one-method trait from a function signature, together with
//! an implementation of that trait for an enum whose variants each wrap one
//! payload: every variant forwards the call to its payload.
//!
//! The enum and the signature are given as plain models ([`SumType`],
//! [`Signature`]); the result is source text.

pub mod model;
pub mod validate;
pub mod emit;
pub mod laws;

pub use model::{Param, PayloadShape, Receiver, SelfParam, Signature, SumType, Variant};
pub use validate::{validity_checks, GenerateError, GenericsSite, ReceiverError, ShapeError};
pub use emit::{clap_dispatch, emit_named, generate, DispatchClause, GeneratedArtifact};

