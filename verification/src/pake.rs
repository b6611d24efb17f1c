//! Key agreement: a symmetric SPAKE2 exchange over Ed25519 that gives the two
//! ends of a connection a shared secret before any password is sent.

use spake2::{Ed25519Group, Error, Identity, Password, Spake2};
use vstd::prelude::*;

verus! {

/// Bytes in a share: one byte for the side, thirty-two for the group element.
pub const SHARE_LEN: usize = 33;

/// The side byte of a symmetric share: `S` in ASCII.
pub const SYMMETRIC_SIDE: u8 = 0x53;

/// Bytes in an agreed secret.
pub const SECRET_LEN: usize = 32;

/// Why the exchange did not finish.
#[derive(Debug, Clone, Copy, PartialEq, Eq, Structural)]
pub enum PakeError {
    /// The peer's share names another side than the symmetric one.
    BadSide,
    /// The peer's share holds no group element.
    CorruptMessage,
    /// The peer's share has the wrong length.
    WrongLength,
}

/// One side of an exchange that has begun: the share to send has been made,
/// the peer's share is still to come. It holds the state of the `spake2`
/// crate, of which the verifier sees nothing.
#[verifier::external_body]
pub struct KeyAgreement {
    state: Spake2<Ed25519Group>,
}

/// `Spake2::<Ed25519Group>::start_symmetric`, with `Password::new` and
/// `Identity::new` for its arguments. The share to send is the side byte `S`
/// and a 32-byte group element; the element depends on a random scalar.
#[verifier::external_body]
pub(crate) fn start_symmetric(password: &[u8], identity: &[u8]) -> (started: (
    KeyAgreement,
    Vec<u8>,
))
    ensures
        started.1@.len() == SHARE_LEN,
        started.1@[0] == SYMMETRIC_SIDE,
{
    let (state, share) = Spake2::<Ed25519Group>::start_symmetric(
        &Password::new(password),
        &Identity::new(identity),
    );
    (KeyAgreement { state }, share)
}

/// `Spake2::finish` on a state that `start_symmetric` made. A share of
/// another length than 33 is refused as `WrongLength`, one of that length
/// with another side byte than `S` as `BadSide`; any further refusal is
/// `CorruptMessage`. The secret is a SHA-256 digest.
#[verifier::external_body]
pub(crate) fn finish(agreement: KeyAgreement, share: &[u8]) -> (outcome: Result<
    Vec<u8>,
    PakeError,
>)
    ensures
        match outcome {
            Ok(secret) => share@.len() == SHARE_LEN && share@[0] == SYMMETRIC_SIDE
                && secret@.len() == SECRET_LEN,
            Err(PakeError::WrongLength) => share@.len() != SHARE_LEN,
            Err(PakeError::BadSide) => share@.len() == SHARE_LEN && share@[0] != SYMMETRIC_SIDE,
            Err(PakeError::CorruptMessage) => share@.len() == SHARE_LEN && share@[0]
                == SYMMETRIC_SIDE,
        },
{
    match agreement.state.finish(share) {
        Ok(secret) => Ok(secret),
        Err(Error::BadSide) => Err(PakeError::BadSide),
        Err(Error::CorruptMessage) => Err(PakeError::CorruptMessage),
        Err(Error::WrongLength) => Err(PakeError::WrongLength),
    }
}

} // verus!
