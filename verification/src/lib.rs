//! Resolution of the resources a command needs from a workspace snapshot:
//! the RPC client, the signer, the program interface and the program address.

pub mod client;
pub mod commitment;
pub mod error;
pub mod interface;
pub mod program_id;
pub mod signer;
pub mod workspace;
