//! Error types of std and of the message codec that travel through the
//! protocol logic untouched.
use vstd::prelude::*;

verus! {

/// A failed send or receive on the socket.
#[verifier::external_type_specification]
#[verifier::external_body]
pub struct ExIoError(std::io::Error);

/// A datagram that did not decode as a message.
#[verifier::external_type_specification]
#[verifier::external_body]
pub struct ExDecodeError(rmp_serde::decode::Error);

} // verus!
