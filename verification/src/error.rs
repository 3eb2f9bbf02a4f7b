//! Why a resource could not be resolved.

use vstd::prelude::*;

verus! {

/// The reasons for which a resolver gives no value.
#[derive(Clone, Copy, Debug, PartialEq, Eq, Structural)]
pub enum ResolveError {
    /// No interface document is stored in the workspace.
    InterfaceNotFound,
    /// Neither an explicit nor a stored program address exists.
    ProgramIdNotFound,
    /// The stored wallet bytes are not a keypair.
    CorruptWallet,
    /// The stored program address is not a valid address text.
    InvalidAddressFormat,
    /// The stored interface document does not parse.
    InterfaceMalformed,
}

impl ResolveError {
    /// The text shown to the user for this error.
    pub open spec fn message_text(self) -> Seq<char> {
        match self {
            ResolveError::InterfaceNotFound => "IDL not found"@,
            ResolveError::ProgramIdNotFound => "Program id doesn't exist"@,
            ResolveError::CorruptWallet => "Wallet keypair is corrupt"@,
            ResolveError::InvalidAddressFormat => "Program id is not a valid address"@,
            ResolveError::InterfaceMalformed => "IDL is malformed"@,
        }
    }

    /// Whether the error is an expected condition of an unconfigured
    /// workspace, as opposed to corrupt stored data.
    pub open spec fn is_expected(self) -> bool {
        self == ResolveError::InterfaceNotFound || self == ResolveError::ProgramIdNotFound
    }

    /// Renders the user-facing message.
    pub fn message(&self) -> (text: String)
        ensures
            text@ == self.message_text(),
    {
        match self {
            ResolveError::InterfaceNotFound => "IDL not found".to_owned(),
            ResolveError::ProgramIdNotFound => "Program id doesn't exist".to_owned(),
            ResolveError::CorruptWallet => "Wallet keypair is corrupt".to_owned(),
            ResolveError::InvalidAddressFormat => "Program id is not a valid address".to_owned(),
            ResolveError::InterfaceMalformed => "IDL is malformed".to_owned(),
        }
    }

    /// Tells missing configuration apart from corrupt stored data.
    pub fn is_recoverable(&self) -> (expected: bool)
        ensures
            expected == self.is_expected(),
    {
        match self {
            ResolveError::InterfaceNotFound => true,
            ResolveError::ProgramIdNotFound => true,
            _ => false,
        }
    }
}

} // verus!
