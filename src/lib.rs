//! A foreign-call bridge for account and transaction primitives.
//!
//! The verified core: the output-buffer handoff protocol, address
//! validation, the transfer-program steps around the external encoder, the
//! allowed-script registry and the account-resource view.
pub mod handoff;
pub mod address;
pub mod hexcode;
pub mod transfer;
pub mod registry;
pub mod account;

pub use handoff::{BridgeError, OutBuffer, pass_data, pass_string};
pub use address::{Address, ADDRESS_LENGTH, addr_from_bytes};
pub use transfer::{transfer_receiver, encode_transfer_program};
pub use registry::{ScriptBytecodes, ScriptEntry, get_allowed_scripts};
pub use account::{
    AccountResource, AccountView, EventHandle, EventView, ResourceLookup, decode_account_state_blob,
    default_view, resource_view,
};
