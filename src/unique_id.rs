use crate::error::Error;
use crate::protocol::{Generate, GenerateOk, MessageBody};
use vstd::prelude::*;

verus! {

/// Whether `id` has the shape of a random UUID: version 4, RFC 4122 variant.
pub open spec fn is_random_uuid(id: u128) -> bool {
    (id >> 76u128) & 0xfu128 == 4 && (id >> 62u128) & 0x3u128 == 2
}

/// Relies on `uuid::Uuid::new_v4`, which masks random bits to version 4
/// and the RFC 4122 variant, and on `Uuid::as_u128` for its big-endian bits.
#[verifier::external_body]
fn random_uuid_bits() -> (r: u128)
    ensures
        is_random_uuid(r),
{
    uuid::Uuid::new_v4().as_u128()
}

/// Answers a request for a fresh identifier with a random version-4 UUID.
pub fn generate(_request: Generate) -> (r: GenerateOk)
    ensures
        is_random_uuid(r.id),
{
    GenerateOk { id: random_uuid_bits() }
}

/// Serves a request routed to the identifier handler; a body of any other
/// kind fails to decode.
pub fn serve_generate(request: MessageBody) -> (r: Result<MessageBody, Error>)
    ensures
        match request {
            MessageBody::Generate(_) => r matches Ok(MessageBody::GenerateOk(ok)) && is_random_uuid(
                ok.id,
            ),
            _ => r matches Err(Error::DecodeFailure),
        },
{
    match request {
        MessageBody::Generate(g) => Ok(MessageBody::GenerateOk(generate(g))),
        _ => Err(Error::DecodeFailure),
    }
}

} // verus!
