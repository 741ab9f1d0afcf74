//! The ledger as mathematics: its state, and what each operation does to
//! it and returns.
use vstd::prelude::*;
use crate::address::Address;
use crate::error::ERC20Error;
use crate::table::{Grant, Membership};
use crate::uint::{modulus, u256_of, U256};

verus! {

/// Role that may mint.
pub const MINTER_ROLE: u32 = 0x1c8956a6;

/// Role that may pause and unpause.
pub const PAUSER_ROLE: u32 = 0xfe7b8a4d;

/// Role that administers the other roles, itself included.
pub const ADMIN_ROLE: u32 = 0x7c7e3d5c;

/// The role with identifier zero.
pub const DEFAULT_ADMIN_ROLE: u32 = 0;

/// The time-lock on ownership transfers set at initialization: 48 hours.
pub const DEFAULT_OWNERSHIP_DELAY: u64 = 172800;

/// The balances and the total supply recorded by a snapshot.
#[verifier::ext_equal]
pub struct SnapshotView {
    pub total_supply: nat,
    pub balances: Map<Address, nat>,
}

/// The whole state of the ledger. Every map is total: an account that
/// was never written holds zero.
#[verifier::ext_equal]
pub struct TokenView {
    pub initialized: bool,
    pub name: Seq<char>,
    pub symbol: Seq<char>,
    pub decimals: u8,
    pub total_supply: nat,
    pub balances: Map<Address, nat>,
    pub allowances: Map<Grant, nat>,
    pub owner: Address,
    pub paused: bool,
    pub supply_cap: nat,
    pub supply_cap_enabled: bool,
    pub roles: Set<Membership>,
    pub role_admins: Map<u32, u32>,
    pub blacklisted: Set<Address>,
    pub blacklist_enabled: bool,
    pub next_snapshot_id: nat,
    pub current_snapshot_id: nat,
    /// The snapshot with identifier `k` is at index `k - 1`.
    pub snapshots: Seq<SnapshotView>,
    pub pending_owner: Address,
    pub ownership_unlock_time: nat,
    pub ownership_transfer_delay: nat,
    pub emergency_admin: Address,
    pub guardian: Address,
    pub guardian_enabled: bool,
    pub minting_period_limit: nat,
    pub minting_period_duration: nat,
    pub transfer_whitelist: Set<Address>,
    pub transfer_restrictions_enabled: bool,
    pub contract_version: nat,
    pub initialized_at: nat,
}

pub type Outcome<T> = (TokenView, Result<T, ERC20Error>);

/// What holds of every state the ledger can be in: every amount fits in
/// 256 bits, each balance is within the supply, the maps are total, the
/// supply is within the cap while the cap is on, and there is one snapshot
/// for each identifier handed out, each within its own supply.
pub open spec fn valid(s: TokenView) -> bool {
    &&& s.total_supply < modulus()
    &&& s.supply_cap < modulus()
    &&& s.supply_cap_enabled ==> s.total_supply <= s.supply_cap
    &&& forall|a: Address| #[trigger] s.balances.dom().contains(a) && s.balances[a] <= s.total_supply
    &&& forall|g: Grant| #[trigger] s.allowances.dom().contains(g) && s.allowances[g] < modulus()
    &&& forall|r: u32| #[trigger] s.role_admins.dom().contains(r)
    &&& 1 <= s.next_snapshot_id < modulus()
    &&& s.current_snapshot_id == 0 ==> s.snapshots.len() + 1 == s.next_snapshot_id
    &&& s.current_snapshot_id != 0 ==> s.current_snapshot_id == s.next_snapshot_id && s.snapshots.len() == s.next_snapshot_id
    &&& forall|i: int| 0 <= i < s.snapshots.len() ==> {
        &&& (#[trigger] s.snapshots[i]).total_supply < modulus()
        &&& forall|a: Address| #[trigger] s.snapshots[i].balances.dom().contains(a)
            && s.snapshots[i].balances[a] <= s.snapshots[i].total_supply
    }
    &&& s.ownership_unlock_time < modulus()
    &&& s.ownership_transfer_delay < modulus()
    &&& s.minting_period_limit < modulus()
    &&& s.minting_period_duration < modulus()
    &&& s.contract_version < modulus()
    &&& s.initialized_at < modulus()
}

/// The state unchanged, and the error `e`.
pub open spec fn refuse<T>(s: TokenView, e: ERC20Error) -> Outcome<T> {
    (s, Err(e))
}

/// Whether `caller` is the owner. A null owner means there is none, so the
/// null identifier is never the owner.
pub open spec fn is_owner(s: TokenView, caller: Address) -> bool {
    !caller.is_null() && caller == s.owner
}

pub open spec fn not_owner(s: TokenView, caller: Address) -> ERC20Error {
    ERC20Error::NotOwner { caller, owner: s.owner }
}

pub open spec fn has_role(s: TokenView, role: u32, account: Address) -> bool {
    s.roles.contains(Membership { role, account })
}

// ---------------------------------------------------------------------
// Ledger core

/// `amount` moved from `from` to `to`: the debit first, then the credit.
pub open spec fn move_balance(b: Map<Address, nat>, from: Address, to: Address, amount: nat) -> Map<Address, nat> {
    let debited = b.insert(from, (b[from] - amount) as nat);
    debited.insert(to, debited[to] + amount)
}

/// A transfer once the pause flag has been consulted: the recipient,
/// then the balance, then the credit are checked.
pub open spec fn transfer_core(s: TokenView, from: Address, to: Address, amount: U256) -> Result<TokenView, ERC20Error> {
    let a = amount.value();
    if to.is_null() {
        Err(ERC20Error::ZeroAddress)
    } else if a == 0 {
        Ok(s)
    } else if s.balances[from] < a {
        Err(ERC20Error::InsufficientBalance { balance: u256_of(s.balances[from]), required: amount })
    } else if move_balance(s.balances, from, to, a)[to] >= modulus() {
        Err(ERC20Error::InvalidAmount)
    } else {
        Ok(TokenView { balances: move_balance(s.balances, from, to, a), ..s })
    }
}

pub open spec fn transfer(s: TokenView, caller: Address, to: Address, amount: U256) -> Outcome<bool> {
    if s.paused {
        refuse(s, ERC20Error::ContractPaused)
    } else {
        match transfer_core(s, caller, to, amount) {
            Ok(t) => (t, Ok(true)),
            Err(e) => refuse(s, e),
        }
    }
}

/// Whether the blacklist stops a transfer between `from` and `to`, and
/// on which account.
pub open spec fn blacklist_check(s: TokenView, from: Address, to: Address) -> Option<ERC20Error> {
    if s.blacklist_enabled && s.blacklisted.contains(from) {
        Some(ERC20Error::AddressBlacklisted { account: from })
    } else if s.blacklist_enabled && s.blacklisted.contains(to) {
        Some(ERC20Error::AddressBlacklisted { account: to })
    } else {
        None
    }
}

pub open spec fn transfer_with_checks(s: TokenView, caller: Address, to: Address, amount: U256) -> Outcome<bool> {
    if s.paused {
        refuse(s, ERC20Error::ContractPaused)
    } else if to.is_null() {
        refuse(s, ERC20Error::ZeroAddress)
    } else if amount.value() == 0 {
        (s, Ok(true))
    } else if blacklist_check(s, caller, to).is_some() {
        refuse(s, blacklist_check(s, caller, to).unwrap())
    } else {
        transfer(s, caller, to, amount)
    }
}

/// An allowance of `spender` over the funds of `owner` decreased by
/// `amount`, or the error where it is short.
pub open spec fn consume_allowance(s: TokenView, owner: Address, spender: Address, amount: U256) -> Result<TokenView, ERC20Error> {
    let g = Grant { owner, spender };
    if s.allowances[g] < amount.value() {
        Err(ERC20Error::InsufficientAllowance { allowance: u256_of(s.allowances[g]), required: amount })
    } else {
        Ok(TokenView { allowances: s.allowances.insert(g, (s.allowances[g] - amount.value()) as nat), ..s })
    }
}

pub open spec fn transfer_from(s: TokenView, caller: Address, from: Address, to: Address, amount: U256) -> Outcome<bool> {
    if s.paused {
        refuse(s, ERC20Error::ContractPaused)
    } else if to.is_null() {
        refuse(s, ERC20Error::ZeroAddress)
    } else if amount.value() == 0 {
        (s, Ok(true))
    } else {
        match consume_allowance(s, from, caller, amount) {
            Err(e) => refuse(s, e),
            Ok(t) => match transfer_core(t, from, to, amount) {
                Ok(u) => (u, Ok(true)),
                Err(e) => refuse(s, e),
            },
        }
    }
}

pub open spec fn transfer_from_with_checks(s: TokenView, caller: Address, from: Address, to: Address, amount: U256) -> Outcome<bool> {
    if s.paused {
        refuse(s, ERC20Error::ContractPaused)
    } else if to.is_null() {
        refuse(s, ERC20Error::ZeroAddress)
    } else if amount.value() == 0 {
        (s, Ok(true))
    } else {
        match consume_allowance(s, from, caller, amount) {
            Err(e) => refuse(s, e),
            Ok(t) => if blacklist_check(s, from, to).is_some() {
                refuse(s, blacklist_check(s, from, to).unwrap())
            } else {
                match transfer_core(t, from, to, amount) {
                    Ok(u) => (u, Ok(true)),
                    Err(e) => refuse(s, e),
                }
            },
        }
    }
}

/// New supply credited to `to`. With the supply cap on, a supply past the
/// cap is refused; with it off, a supply past 256 bits.
pub open spec fn mint_core(s: TokenView, to: Address, amount: U256) -> Outcome<bool> {
    let new_supply = s.total_supply + amount.value();
    if s.supply_cap_enabled && new_supply > s.supply_cap {
        refuse(s, ERC20Error::SupplyCapExceeded {
            current_supply: u256_of(s.total_supply),
            cap: u256_of(s.supply_cap),
        })
    } else if new_supply >= modulus() {
        refuse(s, ERC20Error::InvalidAmount)
    } else {
        (TokenView {
            balances: s.balances.insert(to, s.balances[to] + amount.value()),
            total_supply: new_supply,
            ..s
        }, Ok(true))
    }
}

/// Minting by the owner.
pub open spec fn mint(s: TokenView, caller: Address, to: Address, amount: U256) -> Outcome<bool> {
    if !is_owner(s, caller) {
        refuse(s, not_owner(s, caller))
    } else if s.paused {
        refuse(s, ERC20Error::ContractPaused)
    } else if to.is_null() {
        refuse(s, ERC20Error::ZeroAddress)
    } else if amount.value() == 0 {
        (s, Ok(true))
    } else {
        mint_core(s, to, amount)
    }
}

/// Minting by a holder of the minter role.
pub open spec fn mint_with_checks(s: TokenView, caller: Address, to: Address, amount: U256) -> Outcome<bool> {
    if !has_role(s, MINTER_ROLE, caller) {
        refuse(s, ERC20Error::AccessDenied { account: caller, role: MINTER_ROLE })
    } else if s.paused {
        refuse(s, ERC20Error::ContractPaused)
    } else if to.is_null() {
        refuse(s, ERC20Error::ZeroAddress)
    } else if amount.value() == 0 {
        (s, Ok(true))
    } else {
        mint_core(s, to, amount)
    }
}

/// `amount` taken out of the balance of `from` and out of the supply.
pub open spec fn burn_core(s: TokenView, from: Address, amount: U256) -> Result<TokenView, ERC20Error> {
    if s.balances[from] < amount.value() {
        Err(ERC20Error::InsufficientBalance { balance: u256_of(s.balances[from]), required: amount })
    } else {
        Ok(TokenView {
            balances: s.balances.insert(from, (s.balances[from] - amount.value()) as nat),
            total_supply: (s.total_supply - amount.value()) as nat,
            ..s
        })
    }
}

pub open spec fn burn(s: TokenView, caller: Address, amount: U256) -> Outcome<bool> {
    if s.paused {
        refuse(s, ERC20Error::ContractPaused)
    } else if amount.value() == 0 {
        (s, Ok(true))
    } else {
        match burn_core(s, caller, amount) {
            Ok(t) => (t, Ok(true)),
            Err(e) => refuse(s, e),
        }
    }
}

pub open spec fn burn_from(s: TokenView, caller: Address, from: Address, amount: U256) -> Outcome<bool> {
    if s.paused {
        refuse(s, ERC20Error::ContractPaused)
    } else if from.is_null() {
        refuse(s, ERC20Error::ZeroAddress)
    } else if amount.value() == 0 {
        (s, Ok(true))
    } else {
        match consume_allowance(s, from, caller, amount) {
            Err(e) => refuse(s, e),
            Ok(t) => match burn_core(t, from, amount) {
                Ok(u) => (u, Ok(true)),
                Err(e) => refuse(s, e),
            },
        }
    }
}

// ---------------------------------------------------------------------
// Allowances

pub open spec fn set_allowance(s: TokenView, owner: Address, spender: Address, amount: nat) -> TokenView {
    TokenView { allowances: s.allowances.insert(Grant { owner, spender }, amount), ..s }
}

pub open spec fn approve(s: TokenView, caller: Address, spender: Address, amount: U256) -> Outcome<bool> {
    if spender.is_null() {
        refuse(s, ERC20Error::ZeroAddress)
    } else {
        (set_allowance(s, caller, spender, amount.value()), Ok(true))
    }
}

pub open spec fn increase_allowance(s: TokenView, caller: Address, spender: Address, delta: U256) -> Outcome<bool> {
    let current = s.allowances[Grant { owner: caller, spender }];
    if spender.is_null() {
        refuse(s, ERC20Error::ZeroAddress)
    } else if current + delta.value() >= modulus() {
        refuse(s, ERC20Error::InvalidAmount)
    } else {
        (set_allowance(s, caller, spender, current + delta.value()), Ok(true))
    }
}

pub open spec fn decrease_allowance(s: TokenView, caller: Address, spender: Address, delta: U256) -> Outcome<bool> {
    let current = s.allowances[Grant { owner: caller, spender }];
    if spender.is_null() {
        refuse(s, ERC20Error::ZeroAddress)
    } else if current < delta.value() {
        refuse(s, ERC20Error::InsufficientAllowance { allowance: u256_of(current), required: delta })
    } else {
        (set_allowance(s, caller, spender, (current - delta.value()) as nat), Ok(true))
    }
}

// ---------------------------------------------------------------------
// Batches

/// The transfers of the first `n` pairs, one after another from `from`;
/// the first failure stops the batch.
pub open spec fn transfer_all(s: TokenView, from: Address, to: Seq<Address>, amounts: Seq<U256>, n: nat) -> Result<TokenView, ERC20Error>
    decreases n,
{
    if n == 0 {
        Ok(s)
    } else {
        match transfer_all(s, from, to, amounts, (n - 1) as nat) {
            Ok(t) => transfer_core(t, from, to[n - 1], amounts[n - 1]),
            Err(e) => Err(e),
        }
    }
}

/// A transfer changes the balances alone.
pub proof fn lemma_transfer_core_frame(s: TokenView, from: Address, to: Address, amount: U256)
    ensures
        transfer_core(s, from, to, amount) matches Ok(t) ==> t == (TokenView { balances: t.balances, ..s }),
{
}

/// A run of transfers changes the balances alone.
pub proof fn lemma_transfer_all_frame(s: TokenView, from: Address, to: Seq<Address>, amounts: Seq<U256>, n: nat)
    ensures
        transfer_all(s, from, to, amounts, n) matches Ok(t) ==> t == (TokenView { balances: t.balances, ..s }),
    decreases n,
{
    if n > 0 {
        lemma_transfer_all_frame(s, from, to, amounts, (n - 1) as nat);
        if let Ok(t) = transfer_all(s, from, to, amounts, (n - 1) as nat) {
            lemma_transfer_core_frame(t, from, to[n - 1], amounts[n - 1]);
        }
    }
}

/// Once a run of transfers has failed, it fails with the same error
/// however far it goes on.
pub proof fn lemma_transfer_all_stops(s: TokenView, from: Address, to: Seq<Address>, amounts: Seq<U256>, k: nat, n: nat)
    requires
        k <= n,
        transfer_all(s, from, to, amounts, k) is Err,
    ensures
        transfer_all(s, from, to, amounts, n) == transfer_all(s, from, to, amounts, k),
    decreases n,
{
    if k < n {
        lemma_transfer_all_stops(s, from, to, amounts, k, (n - 1) as nat);
    }
}

pub open spec fn batch_transfer(s: TokenView, caller: Address, recipients: Seq<Address>, amounts: Seq<U256>) -> Outcome<bool> {
    if recipients.len() != amounts.len() {
        refuse(s, ERC20Error::BatchTransferLengthMismatch)
    } else if s.paused {
        refuse(s, ERC20Error::ContractPaused)
    } else {
        match transfer_all(s, caller, recipients, amounts, recipients.len()) {
            Ok(t) => (t, Ok(true)),
            Err(e) => refuse(s, e),
        }
    }
}

/// The approvals of the first `n` pairs, one after another.
pub open spec fn approve_all(s: TokenView, owner: Address, spenders: Seq<Address>, amounts: Seq<U256>, n: nat) -> TokenView
    decreases n,
{
    if n == 0 {
        s
    } else {
        set_allowance(approve_all(s, owner, spenders, amounts, (n - 1) as nat), owner, spenders[n - 1], amounts[n - 1].value())
    }
}

pub open spec fn batch_approve(s: TokenView, caller: Address, spenders: Seq<Address>, amounts: Seq<U256>) -> Outcome<bool> {
    if spenders.len() != amounts.len() {
        refuse(s, ERC20Error::BatchApproveLengthMismatch)
    } else if s.paused {
        refuse(s, ERC20Error::ContractPaused)
    } else if spenders.contains(Address::zero_spec()) {
        refuse(s, ERC20Error::ZeroAddress)
    } else {
        (approve_all(s, caller, spenders, amounts, spenders.len()), Ok(true))
    }
}

// ---------------------------------------------------------------------
// Ownership, pause and supply cap

/// The owner, and only the owner, gets `t`.
pub open spec fn owner_only<T>(s: TokenView, caller: Address, t: Outcome<T>) -> Outcome<T> {
    if !is_owner(s, caller) {
        refuse(s, not_owner(s, caller))
    } else {
        t
    }
}

/// Replaces the owner at once. A time-locked transfer that is pending
/// stays pending.
pub open spec fn transfer_ownership(s: TokenView, caller: Address, new_owner: Address) -> Outcome<bool> {
    owner_only(s, caller, if new_owner.is_null() {
        refuse(s, ERC20Error::ZeroAddress)
    } else {
        (TokenView { owner: new_owner, ..s }, Ok(true))
    })
}

pub open spec fn renounce_ownership(s: TokenView, caller: Address) -> Outcome<bool> {
    owner_only(s, caller, (TokenView { owner: Address::zero_spec(), ..s }, Ok(true)))
}

pub open spec fn set_paused(s: TokenView, paused: bool) -> Outcome<bool> {
    if paused && s.paused {
        refuse(s, ERC20Error::ContractPaused)
    } else if !paused && !s.paused {
        refuse(s, ERC20Error::NotContractPaused)
    } else {
        (TokenView { paused, ..s }, Ok(true))
    }
}

pub open spec fn pause(s: TokenView, caller: Address) -> Outcome<bool> {
    owner_only(s, caller, set_paused(s, true))
}

pub open spec fn unpause(s: TokenView, caller: Address) -> Outcome<bool> {
    owner_only(s, caller, set_paused(s, false))
}

/// The holders of the pauser role get `t`.
pub open spec fn pauser_only<T>(s: TokenView, caller: Address, t: Outcome<T>) -> Outcome<T> {
    if !has_role(s, PAUSER_ROLE, caller) {
        refuse(s, ERC20Error::AccessDenied { account: caller, role: PAUSER_ROLE })
    } else {
        t
    }
}

pub open spec fn pause_with_role(s: TokenView, caller: Address) -> Outcome<bool> {
    pauser_only(s, caller, set_paused(s, true))
}

pub open spec fn unpause_with_role(s: TokenView, caller: Address) -> Outcome<bool> {
    pauser_only(s, caller, set_paused(s, false))
}

pub open spec fn guardian_pause(s: TokenView, caller: Address) -> Outcome<bool> {
    if !s.guardian_enabled || caller != s.guardian {
        refuse(s, ERC20Error::AccessDenied { account: caller, role: PAUSER_ROLE })
    } else {
        set_paused(s, true)
    }
}

/// Lowers the supply cap; it can never rise, nor fall below the supply.
pub open spec fn set_supply_cap(s: TokenView, caller: Address, new_cap: U256) -> Outcome<bool> {
    owner_only(s, caller, if new_cap.value() > s.supply_cap {
        refuse(s, ERC20Error::CannotDecreaseSupplyCap)
    } else if new_cap.value() < s.total_supply {
        refuse(s, ERC20Error::SupplyCapExceeded { current_supply: u256_of(s.total_supply), cap: new_cap })
    } else {
        (TokenView { supply_cap: new_cap.value(), ..s }, Ok(true))
    })
}

/// Switches the supply cap on or off; it cannot be switched on while the
/// supply is past it.
pub open spec fn set_supply_cap_enabled(s: TokenView, caller: Address, enabled: bool) -> Outcome<bool> {
    owner_only(s, caller, if enabled && s.total_supply > s.supply_cap {
        refuse(s, ERC20Error::SupplyCapExceeded {
            current_supply: u256_of(s.total_supply),
            cap: u256_of(s.supply_cap),
        })
    } else {
        (TokenView { supply_cap_enabled: enabled, ..s }, Ok(true))
    })
}

// ---------------------------------------------------------------------
// Roles

pub open spec fn role_admin_only<T>(s: TokenView, caller: Address, role: u32, t: Outcome<T>) -> Outcome<T> {
    let admin = s.role_admins[role];
    if !has_role(s, admin, caller) {
        refuse(s, ERC20Error::AccessDenied { account: caller, role: admin })
    } else {
        t
    }
}

pub open spec fn grant_role(s: TokenView, caller: Address, role: u32, account: Address) -> Outcome<bool> {
    role_admin_only(s, caller, role, if account.is_null() {
        refuse(s, ERC20Error::ZeroAddress)
    } else if has_role(s, role, account) {
        refuse(s, ERC20Error::RoleAlreadyGranted { role, account })
    } else {
        (TokenView { roles: s.roles.insert(Membership { role, account }), ..s }, Ok(true))
    })
}

pub open spec fn revoke_role(s: TokenView, caller: Address, role: u32, account: Address) -> Outcome<bool> {
    role_admin_only(s, caller, role, if account.is_null() {
        refuse(s, ERC20Error::ZeroAddress)
    } else if !has_role(s, role, account) {
        refuse(s, ERC20Error::RoleAlreadyRevoked { role, account })
    } else {
        (TokenView { roles: s.roles.remove(Membership { role, account }), ..s }, Ok(true))
    })
}

/// Drops a role of the caller's own; holding it or not, the call succeeds.
pub open spec fn renounce_role(s: TokenView, caller: Address, role: u32) -> Outcome<bool> {
    (TokenView { roles: s.roles.remove(Membership { role, account: caller }), ..s }, Ok(true))
}

// ---------------------------------------------------------------------
// Blacklist and whitelist

pub open spec fn blacklist(s: TokenView, caller: Address, account: Address) -> Outcome<bool> {
    owner_only(s, caller, if account.is_null() {
        refuse(s, ERC20Error::ZeroAddress)
    } else if s.blacklisted.contains(account) {
        refuse(s, ERC20Error::AddressBlacklisted { account })
    } else {
        (TokenView { blacklisted: s.blacklisted.insert(account), ..s }, Ok(true))
    })
}

pub open spec fn unblacklist(s: TokenView, caller: Address, account: Address) -> Outcome<bool> {
    owner_only(s, caller, if !s.blacklisted.contains(account) {
        refuse(s, ERC20Error::AddressNotBlacklisted { account })
    } else {
        (TokenView { blacklisted: s.blacklisted.remove(account), ..s }, Ok(true))
    })
}

pub open spec fn set_blacklist_enabled(s: TokenView, caller: Address, enabled: bool) -> Outcome<bool> {
    owner_only(s, caller, (TokenView { blacklist_enabled: enabled, ..s }, Ok(true)))
}

pub open spec fn add_to_whitelist(s: TokenView, caller: Address, account: Address) -> Outcome<bool> {
    owner_only(s, caller, (TokenView { transfer_whitelist: s.transfer_whitelist.insert(account), ..s }, Ok(true)))
}

pub open spec fn remove_from_whitelist(s: TokenView, caller: Address, account: Address) -> Outcome<bool> {
    owner_only(s, caller, (TokenView { transfer_whitelist: s.transfer_whitelist.remove(account), ..s }, Ok(true)))
}

pub open spec fn set_transfer_restrictions_enabled(s: TokenView, caller: Address, enabled: bool) -> Outcome<bool> {
    owner_only(s, caller, (TokenView { transfer_restrictions_enabled: enabled, ..s }, Ok(true)))
}

// ---------------------------------------------------------------------
// Snapshots

/// Opens a snapshot under the next identifier, recording every balance
/// and the supply as they stand now.
pub open spec fn snapshot(s: TokenView, caller: Address) -> Outcome<U256> {
    owner_only(s, caller, if s.current_snapshot_id != 0 {
        refuse(s, ERC20Error::SnapshotInProgress)
    } else {
        (TokenView {
            current_snapshot_id: s.next_snapshot_id,
            snapshots: s.snapshots.push(SnapshotView { total_supply: s.total_supply, balances: s.balances }),
            ..s
        }, Ok(u256_of(s.next_snapshot_id)))
    })
}

/// Closes the open snapshot, which from then on can be read.
pub open spec fn finalize_snapshot(s: TokenView, caller: Address) -> Outcome<U256> {
    owner_only(s, caller, if s.current_snapshot_id == 0 {
        refuse(s, ERC20Error::SnapshotNotFound { snapshot_id: u256_of(0) })
    } else {
        (TokenView {
            next_snapshot_id: s.current_snapshot_id + 1,
            current_snapshot_id: 0,
            ..s
        }, Ok(u256_of(s.current_snapshot_id)))
    })
}

/// Whether `id` names a closed snapshot.
pub open spec fn snapshot_readable(s: TokenView, id: nat) -> bool {
    1 <= id < s.next_snapshot_id
}

// ---------------------------------------------------------------------
// Time-locked ownership transfer

pub open spec fn initiate_ownership_transfer(s: TokenView, caller: Address, now: u64, new_owner: Address) -> Outcome<bool> {
    let unlock = now as nat + s.ownership_transfer_delay;
    owner_only(s, caller, if new_owner.is_null() {
        refuse(s, ERC20Error::ZeroAddress)
    } else if unlock >= modulus() {
        refuse(s, ERC20Error::InvalidAmount)
    } else {
        (TokenView { pending_owner: new_owner, ownership_unlock_time: unlock, ..s }, Ok(true))
    })
}

pub open spec fn accept_ownership(s: TokenView, caller: Address, now: u64) -> Outcome<bool> {
    if s.pending_owner.is_null() {
        refuse(s, ERC20Error::NoPendingOwnershipTransfer)
    } else if caller != s.pending_owner {
        refuse(s, ERC20Error::NotOwner { caller, owner: s.pending_owner })
    } else if (now as nat) < s.ownership_unlock_time {
        refuse(s, ERC20Error::OwnershipTransferNotYetUnlockable {
            current_time: u256_of(now as nat),
            unlock_time: u256_of(s.ownership_unlock_time),
        })
    } else {
        (TokenView {
            owner: s.pending_owner,
            pending_owner: Address::zero_spec(),
            ownership_unlock_time: 0,
            ..s
        }, Ok(true))
    }
}

pub open spec fn cancel_ownership_transfer(s: TokenView, caller: Address) -> Outcome<bool> {
    owner_only(s, caller, if s.pending_owner.is_null() {
        refuse(s, ERC20Error::NoPendingOwnershipTransfer)
    } else {
        (TokenView { pending_owner: Address::zero_spec(), ownership_unlock_time: 0, ..s }, Ok(true))
    })
}

pub open spec fn set_ownership_transfer_delay(s: TokenView, caller: Address, delay: U256) -> Outcome<bool> {
    owner_only(s, caller, (TokenView { ownership_transfer_delay: delay.value(), ..s }, Ok(true)))
}

// ---------------------------------------------------------------------
// Emergency roles and minting limits

pub open spec fn set_emergency_admin(s: TokenView, caller: Address, new_admin: Address) -> Outcome<bool> {
    owner_only(s, caller, (TokenView { emergency_admin: new_admin, ..s }, Ok(true)))
}

pub open spec fn set_guardian(s: TokenView, caller: Address, new_guardian: Address) -> Outcome<bool> {
    owner_only(s, caller, (TokenView {
        guardian: new_guardian,
        guardian_enabled: !new_guardian.is_null(),
        ..s
    }, Ok(true)))
}

pub open spec fn set_minting_limits(s: TokenView, caller: Address, limit: U256, duration: U256) -> Outcome<bool> {
    owner_only(s, caller, (TokenView {
        minting_period_limit: limit.value(),
        minting_period_duration: duration.value(),
        ..s
    }, Ok(true)))
}

// ---------------------------------------------------------------------
// Initialization

/// The ledger before initialization: every field zero, no snapshot
/// taken, the first snapshot identifier 1.
pub open spec fn fresh() -> TokenView {
    TokenView {
        initialized: false,
        name: Seq::empty(),
        symbol: Seq::empty(),
        decimals: 0,
        total_supply: 0,
        balances: Map::new(|a: Address| true, |a: Address| 0nat),
        allowances: Map::new(|g: Grant| true, |g: Grant| 0nat),
        owner: Address::zero_spec(),
        paused: false,
        supply_cap: 0,
        supply_cap_enabled: false,
        roles: Set::empty(),
        role_admins: Map::new(|r: u32| true, |r: u32| 0u32),
        blacklisted: Set::empty(),
        blacklist_enabled: false,
        next_snapshot_id: 1,
        current_snapshot_id: 0,
        snapshots: Seq::empty(),
        pending_owner: Address::zero_spec(),
        ownership_unlock_time: 0,
        ownership_transfer_delay: 0,
        emergency_admin: Address::zero_spec(),
        guardian: Address::zero_spec(),
        guardian_enabled: false,
        minting_period_limit: 0,
        minting_period_duration: 0,
        transfer_whitelist: Set::empty(),
        transfer_restrictions_enabled: false,
        contract_version: 0,
        initialized_at: 0,
    }
}

/// Sets the metadata, makes `owner` the owner and the holder of the admin,
/// minter and pauser roles, wires the admin roles, switches the supply cap
/// off at its largest value, sets the ownership delay to 48 hours and the
/// minting limit to its largest value, and credits `initial_supply` to
/// `owner`. The snapshot counters are left as they are.
pub open spec fn initialize(
    s: TokenView,
    now: u64,
    name: Seq<char>,
    symbol: Seq<char>,
    decimals: u8,
    initial_supply: U256,
    owner: Address,
) -> Outcome<()> {
    if s.initialized {
        refuse(s, ERC20Error::AlreadyInitialized)
    } else if owner.is_null() {
        refuse(s, ERC20Error::ZeroAddress)
    } else if decimals == 0 {
        refuse(s, ERC20Error::InvalidAmount)
    } else if s.total_supply + initial_supply.value() >= modulus() {
        refuse(s, ERC20Error::InvalidAmount)
    } else {
        (TokenView {
            initialized: true,
            name,
            symbol,
            decimals,
            owner,
            role_admins: s.role_admins
                .insert(DEFAULT_ADMIN_ROLE, ADMIN_ROLE)
                .insert(ADMIN_ROLE, ADMIN_ROLE)
                .insert(MINTER_ROLE, ADMIN_ROLE)
                .insert(PAUSER_ROLE, ADMIN_ROLE),
            roles: s.roles
                .insert(Membership { role: ADMIN_ROLE, account: owner })
                .insert(Membership { role: MINTER_ROLE, account: owner })
                .insert(Membership { role: PAUSER_ROLE, account: owner }),
            supply_cap: (modulus() - 1) as nat,
            supply_cap_enabled: false,
            ownership_transfer_delay: DEFAULT_OWNERSHIP_DELAY as nat,
            minting_period_limit: (modulus() - 1) as nat,
            minting_period_duration: 0,
            blacklist_enabled: false,
            transfer_restrictions_enabled: false,
            guardian_enabled: false,
            contract_version: 1,
            initialized_at: now as nat,
            balances: s.balances.insert(owner, s.balances[owner] + initial_supply.value()),
            total_supply: s.total_supply + initial_supply.value(),
            ..s
        }, Ok(()))
    }
}

} // verus!
