use vstd::prelude::*;
use crate::address::Address;
use crate::uint::U256;

verus! {

/// Why an operation on the ledger was refused. A refused operation
/// changes nothing.
#[derive(Clone, Copy, Debug, PartialEq, Eq, Structural)]
pub enum ERC20Error {
    InsufficientBalance { balance: U256, required: U256 },
    InsufficientAllowance { allowance: U256, required: U256 },
    ZeroAddress,
    NotOwner { caller: Address, owner: Address },
    AlreadyInitialized,
    ContractPaused,
    NotContractPaused,
    InvalidAmount,
    SupplyCapExceeded { current_supply: U256, cap: U256 },
    CannotDecreaseSupplyCap,
    AccessDenied { account: Address, role: u32 },
    InvalidRole { role: u32 },
    RoleAlreadyGranted { role: u32, account: Address },
    RoleAlreadyRevoked { role: u32, account: Address },
    AddressBlacklisted { account: Address },
    AddressNotBlacklisted { account: Address },
    SnapshotAlreadyTaken { snapshot_id: U256 },
    SnapshotNotFound { snapshot_id: U256 },
    SnapshotInProgress,
    OwnershipTransferPending { new_owner: Address, unlock_time: U256 },
    NoPendingOwnershipTransfer,
    OwnershipTransferNotYetUnlockable { current_time: U256, unlock_time: U256 },
    PendingOwnershipTransferExists { new_owner: Address, unlock_time: U256 },
    BatchTransferLengthMismatch,
    BatchApproveLengthMismatch,
}

} // verus!
