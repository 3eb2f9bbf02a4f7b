//! Resolution of the program address: an explicit value wins over the
//! default that the workspace stores.

use vstd::prelude::*;
use anchor_lang::prelude::Pubkey;
use anchor_lang::solana_program::pubkey::ParsePubkeyError;
use std::str::FromStr;
use crate::error::ResolveError;
use crate::workspace::Workspace;

verus! {

/// A 32-byte on-chain identifier.
#[derive(Clone, Copy, Debug, PartialEq, Eq)]
pub struct Address {
    pub bytes: [u8; 32],
}

impl View for Address {
    type V = Seq<u8>;

    open spec fn view(&self) -> Seq<u8> {
        self.bytes@
    }
}

#[verifier::external_type_specification]
#[verifier::external_body]
pub struct ExParsePubkeyError(ParsePubkeyError);

/// The 32 bytes that `Pubkey::from_str` decodes from a text, or `None`
/// where it rejects the text.
pub uninterp spec fn pubkey_of_text(text: Seq<char>) -> Option<Seq<u8>>;

/// Calls `Pubkey::from_str` and hands out the bytes of the key. The result
/// is a function of the text alone: it is `Ok` with the decoded bytes where
/// the text is the base-58 form of 32 bytes, and the parser's error elsewhere.
#[verifier::external_body]
fn pubkey_from_str(text: &str) -> (parsed: Result<[u8; 32], ParsePubkeyError>)
    ensures
        match parsed {
            Ok(bytes) => pubkey_of_text(text@) == Some(bytes@),
            Err(_) => pubkey_of_text(text@).is_none(),
        },
{
    Pubkey::from_str(text).map(|key| key.to_bytes())
}

/// What a stored address text resolves to.
pub open spec fn address_of_text(text: Seq<char>) -> Result<Seq<u8>, ResolveError> {
    match pubkey_of_text(text) {
        Some(bytes) => Ok(bytes),
        None => Err(ResolveError::InvalidAddressFormat),
    }
}

/// What the resolver answers for an explicit address and a stored text.
pub open spec fn program_id_of(explicit: Option<Seq<u8>>, stored: Option<Seq<char>>) -> Result<
    Seq<u8>,
    ResolveError,
> {
    match explicit {
        Some(bytes) => Ok(bytes),
        None => match stored {
            Some(text) => address_of_text(text),
            None => Err(ResolveError::ProgramIdNotFound),
        },
    }
}

/// The bytes of an optional address.
pub open spec fn address_view(address: Option<Address>) -> Option<Seq<u8>> {
    match address {
        Some(a) => Some(a@),
        None => None,
    }
}

/// The bytes of a resolved address, or the error.
pub open spec fn outcome_view(outcome: Result<Address, ResolveError>) -> Result<
    Seq<u8>,
    ResolveError,
> {
    match outcome {
        Ok(a) => Ok(a@),
        Err(e) => Err(e),
    }
}

/// Turns the parser's answer into an address: decoded bytes become the
/// address, any parse error becomes `InvalidAddressFormat`.
pub fn address_from(parsed: Result<[u8; 32], ParsePubkeyError>) -> (outcome: Result<
    Address,
    ResolveError,
>)
    ensures
        match parsed {
            Ok(bytes) => outcome == Ok::<Address, ResolveError>(Address { bytes }),
            Err(_) => outcome == Err::<Address, ResolveError>(ResolveError::InvalidAddressFormat),
        },
{
    match parsed {
        Ok(bytes) => Ok(Address { bytes }),
        Err(_) => Err(ResolveError::InvalidAddressFormat),
    }
}

/// Parses a stored address text.
pub fn parse_address(text: &str) -> (outcome: Result<Address, ResolveError>)
    ensures
        outcome_view(outcome) == address_of_text(text@),
{
    address_from(pubkey_from_str(text))
}

/// Resolves the program address from an explicit value and a stored text.
/// The explicit value, when present, is returned unchanged and the stored
/// text is not looked at. Otherwise the stored text is parsed; without one
/// the answer is `ProgramIdNotFound`.
pub fn resolve_program_id(explicit: Option<Address>, stored: Option<&str>) -> (outcome: Result<
    Address,
    ResolveError,
>)
    ensures
        outcome_view(outcome) == program_id_of(
            address_view(explicit),
            match stored {
                Some(text) => Some(text@),
                None => None,
            },
        ),
        explicit matches Some(address) ==> outcome == Ok::<Address, ResolveError>(address),
{
    match explicit {
        Some(address) => Ok(address),
        None => match stored {
            Some(text) => parse_address(text),
            None => Err(ResolveError::ProgramIdNotFound),
        },
    }
}

/// Resolves the program address against a workspace snapshot: the explicit
/// value if there is one, else the workspace's default.
pub fn get_program_id(workspace: &Workspace, maybe_program_id: Option<Address>) -> (outcome: Result<
    Address,
    ResolveError,
>)
    ensures
        outcome_view(outcome) == program_id_of(address_view(maybe_program_id), workspace.pk_text()),
        maybe_program_id matches Some(address) ==> outcome == Ok::<Address, ResolveError>(address),
{
    match &workspace.pk_string {
        Some(text) => resolve_program_id(maybe_program_id, Some(text.as_str())),
        None => resolve_program_id(maybe_program_id, None),
    }
}

/// An explicit address takes precedence over whatever is stored.
pub proof fn lemma_override_precedence(
    address: Seq<u8>,
    stored_a: Option<Seq<char>>,
    stored_b: Option<Seq<char>>,
)
    ensures
        program_id_of(Some(address), stored_a) == Ok::<Seq<u8>, ResolveError>(address),
        program_id_of(Some(address), stored_a) == program_id_of(Some(address), stored_b),
{
}

/// Without an explicit address the answer is `ProgramIdNotFound` exactly
/// when nothing is stored, and otherwise what the stored text parses to.
pub proof fn lemma_default_address(stored: Option<Seq<char>>)
    ensures
        stored.is_none() ==> program_id_of(None, stored) == Err::<Seq<u8>, ResolveError>(
            ResolveError::ProgramIdNotFound,
        ),
        stored matches Some(text) ==> program_id_of(None, stored) == address_of_text(text),
        program_id_of(None, stored) == Err::<Seq<u8>, ResolveError>(
            ResolveError::ProgramIdNotFound,
        ) <==> stored.is_none(),
{
}

} // verus!
