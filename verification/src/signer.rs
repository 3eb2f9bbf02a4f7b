//! Resolution of the signer from the wallet's stored secret-key bytes.

use vstd::prelude::*;
use solana_sdk::signature::Keypair;
use crate::error::ResolveError;
use crate::workspace::Workspace;

verus! {

#[verifier::external_type_specification]
#[verifier::external_body]
pub struct ExKeypair(Keypair);

/// A signing keypair together with the bytes it was recovered from.
#[derive(Debug)]
pub struct Signer {
    /// The secret-key bytes as the wallet stored them.
    pub key_bytes: Vec<u8>,
    /// The keypair recovered from those bytes.
    pub keypair: Keypair,
}

/// What a signer is: its stored bytes and its keypair.
pub struct SignerView {
    pub key_bytes: Seq<u8>,
    pub keypair: Keypair,
}

impl View for Signer {
    type V = SignerView;

    open spec fn view(&self) -> SignerView {
        SignerView { key_bytes: self.key_bytes@, keypair: self.keypair }
    }
}

/// The keypair that `Keypair::from_bytes` recovers from the bytes, or
/// `None` where it rejects them.
pub uninterp spec fn keypair_of_bytes(bytes: Seq<u8>) -> Option<Keypair>;

/// Calls `Keypair::from_bytes`. What it yields is a function of the bytes
/// alone; it rejects every input whose length is not 64.
#[verifier::external_body]
fn keypair_from_bytes(bytes: &[u8]) -> (parsed: Option<Keypair>)
    ensures
        parsed == keypair_of_bytes(bytes@),
        parsed.is_some() ==> bytes@.len() == 64,
{
    Keypair::from_bytes(bytes).ok()
}

/// What the signer resolver answers for the stored bytes: the keypair
/// recovered from them, kept with the bytes, or `CorruptWallet` where
/// they hold no keypair.
pub open spec fn signer_of(bytes: Seq<u8>) -> Result<SignerView, ResolveError> {
    match keypair_of_bytes(bytes) {
        Some(keypair) => Ok(SignerView { key_bytes: bytes, keypair }),
        None => Err(ResolveError::CorruptWallet),
    }
}

/// A resolved signer by its view, or the error.
pub open spec fn outcome_view(outcome: Result<Signer, ResolveError>) -> Result<
    SignerView,
    ResolveError,
> {
    match outcome {
        Ok(signer) => Ok(signer@),
        Err(e) => Err(e),
    }
}

/// Builds the signer from the stored bytes and the keypair recovered from
/// them, if any: without a keypair the wallet is corrupt.
pub fn signer_from(bytes: &[u8], parsed: Option<Keypair>) -> (outcome: Result<Signer, ResolveError>)
    ensures
        outcome_view(outcome) == match parsed {
            Some(keypair) => Ok::<SignerView, ResolveError>(
                SignerView { key_bytes: bytes@, keypair },
            ),
            None => Err::<SignerView, ResolveError>(ResolveError::CorruptWallet),
        },
{
    match parsed {
        Some(keypair) => Ok(Signer { key_bytes: copy_bytes(bytes), keypair }),
        None => Err(ResolveError::CorruptWallet),
    }
}

/// An owned copy of a byte slice.
fn copy_bytes(bytes: &[u8]) -> (copy: Vec<u8>)
    ensures
        copy@ == bytes@,
{
    let mut copy: Vec<u8> = Vec::new();
    let mut i: usize = 0;
    while i < bytes.len()
        invariant
            i <= bytes@.len(),
            copy@ == bytes@.subrange(0, i as int),
        decreases bytes@.len() - i,
    {
        copy.push(bytes[i]);
        i += 1;
        assert(copy@ =~= bytes@.subrange(0, i as int));
    }
    assert(bytes@.subrange(0, i as int) =~= bytes@);
    copy
}

/// Recovers the signer from secret-key bytes: the keypair of the bytes
/// where they hold one, `CorruptWallet` elsewhere, and never another key.
pub fn resolve_keypair(bytes: &[u8]) -> (outcome: Result<Signer, ResolveError>)
    ensures
        outcome_view(outcome) == signer_of(bytes@),
        outcome matches Ok(signer) ==> keypair_of_bytes(bytes@) == Some(signer.keypair),
        bytes@.len() != 64 ==> outcome_view(outcome) == Err::<SignerView, ResolveError>(
            ResolveError::CorruptWallet,
        ),
{
    signer_from(bytes, keypair_from_bytes(bytes))
}

/// Recovers the signer from the wallet bytes of a workspace snapshot.
/// Bytes that are no keypair give `CorruptWallet`.
pub fn get_keypair(workspace: &Workspace) -> (outcome: Result<Signer, ResolveError>)
    ensures
        outcome_view(outcome) == signer_of(workspace.keypair_bytes@),
        outcome matches Ok(signer) ==> keypair_of_bytes(workspace.keypair_bytes@) == Some(
            signer.keypair,
        ),
        workspace.keypair_bytes@.len() != 64 ==> outcome_view(outcome) == Err::<
            SignerView,
            ResolveError,
        >(ResolveError::CorruptWallet),
{
    resolve_keypair(workspace.keypair_bytes.as_slice())
}

} // verus!
