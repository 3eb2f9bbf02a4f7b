//! Resolution of the RPC client from the configured endpoint and
//! commitment preference.

use vstd::prelude::*;
use solana_client_wasm::WasmClient;
use solana_sdk::commitment_config::{CommitmentConfig, CommitmentLevel};
use crate::commitment::{commitment_of, parse_commitment, Commitment};
use crate::workspace::Workspace;

verus! {

#[verifier::external_type_specification]
#[verifier::external_body]
pub struct ExWasmClient(WasmClient);

/// An RPC client with the endpoint and commitment it was made for.
pub struct Client {
    /// URL that requests go to.
    pub endpoint: String,
    /// Commitment that requests ask for.
    pub commitment: Commitment,
    /// The client bound to that endpoint and commitment.
    pub handle: WasmClient,
}

/// The endpoint and the commitment level that a handle stores.
pub uninterp spec fn handle_binding(handle: WasmClient) -> (Seq<char>, Commitment);

/// Calls `WasmClient::new_with_commitment` with the endpoint and the
/// commitment level of the same name. The call stores both in the handle
/// as given and sends no request; the endpoint is not looked at before
/// the first request. Building the handle's HTTP client aborts on a
/// platform that offers no TLS backend.
#[verifier::external_body]
fn new_wasm_client(endpoint: &str, level: Commitment) -> (handle: WasmClient)
    ensures
        handle_binding(handle) == (endpoint@, level),
{
    let commitment = match level {
        Commitment::Processed => CommitmentLevel::Processed,
        Commitment::Confirmed => CommitmentLevel::Confirmed,
        Commitment::Finalized => CommitmentLevel::Finalized,
    };
    WasmClient::new_with_commitment(endpoint, CommitmentConfig { commitment })
}

/// Builds a client for an endpoint and a textual commitment preference.
/// Never fails: an unrecognized preference means `Confirmed`.
pub fn resolve_client(endpoint: &str, commitment: &str) -> (client: Client)
    ensures
        client.endpoint@ == endpoint@,
        client.commitment == commitment_of(commitment@),
        handle_binding(client.handle) == (endpoint@, commitment_of(commitment@)),
{
    let level = parse_commitment(commitment);
    let handle = new_wasm_client(endpoint, level);
    Client { endpoint: endpoint.to_owned(), commitment: level, handle }
}

/// Builds the client that a workspace snapshot configures.
pub fn get_client(workspace: &Workspace) -> (client: Client)
    ensures
        client.endpoint@ == workspace.endpoint@,
        client.commitment == commitment_of(workspace.commitment@),
        handle_binding(client.handle) == (
            workspace.endpoint@,
            commitment_of(workspace.commitment@),
        ),
{
    resolve_client(workspace.endpoint.as_str(), workspace.commitment.as_str())
}

} // verus!
