use anchor_cli_wasm::error::ResolveError;

#[test]
fn messages_are_exact() {
    assert_eq!(ResolveError::InterfaceNotFound.message(), "IDL not found");
    assert_eq!(ResolveError::ProgramIdNotFound.message(), "Program id doesn't exist");
    assert_eq!(ResolveError::CorruptWallet.message(), "Wallet keypair is corrupt");
    assert_eq!(ResolveError::InvalidAddressFormat.message(), "Program id is not a valid address");
    assert_eq!(ResolveError::InterfaceMalformed.message(), "IDL is malformed");
}

#[test]
fn only_missing_configuration_is_recoverable() {
    assert!(ResolveError::InterfaceNotFound.is_recoverable());
    assert!(ResolveError::ProgramIdNotFound.is_recoverable());
    assert!(!ResolveError::CorruptWallet.is_recoverable());
    assert!(!ResolveError::InvalidAddressFormat.is_recoverable());
    assert!(!ResolveError::InterfaceMalformed.is_recoverable());
}
