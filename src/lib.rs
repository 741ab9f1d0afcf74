//! A fungible-asset ledger with role-based access control, a supply cap,
//! a blacklist, a time-locked ownership transfer and balance snapshots.
//! Every state transition is verified to keep the ledger consistent.

pub mod abi;
pub mod address;
pub mod error;
pub mod laws;
pub mod model;
pub mod table;
pub mod token;
pub mod uint;

pub use abi::bytes32_from_u32;
pub use address::Address;
pub use error::ERC20Error;
pub use model::{ADMIN_ROLE, DEFAULT_ADMIN_ROLE, MINTER_ROLE, PAUSER_ROLE};
pub use token::ERC20Token;
pub use uint::U256;
