//! A read-only snapshot of what the hosting workspace holds.

use vstd::prelude::*;

verus! {

/// What the workspace held at the moment of a call. The resolvers read it
/// and never change it; a later snapshot may differ.
#[derive(Debug, PartialEq, Eq)]
pub struct Workspace {
    /// URL of the RPC endpoint.
    pub endpoint: String,
    /// Commitment preference, as text.
    pub commitment: String,
    /// Secret-key bytes of the wallet.
    pub keypair_bytes: Vec<u8>,
    /// Interface description document, if one was loaded.
    pub idl_string: Option<String>,
    /// Default program address, as text, if one was configured.
    pub pk_string: Option<String>,
}

impl Workspace {
    /// The stored interface document, if any, as a sequence of characters.
    pub open spec fn idl_text(self) -> Option<Seq<char>> {
        match self.idl_string {
            Some(text) => Some(text@),
            None => None,
        }
    }

    /// The stored default program address, if any, as a sequence of characters.
    pub open spec fn pk_text(self) -> Option<Seq<char>> {
        match self.pk_string {
            Some(text) => Some(text@),
            None => None,
        }
    }
}

} // verus!
