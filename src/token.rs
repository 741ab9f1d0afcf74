//! The ledger itself. Each operation takes the caller, and where it needs
//! it the current time, as arguments, and does exactly what the function
//! of the same name in `model` says.
use vstd::prelude::*;
use crate::address::Address;
use crate::error::ERC20Error;
use crate::model::{self, SnapshotView, TokenView};
use crate::laws::{lemma_sum_over_agree, sum_over};
use crate::table::{keys_unique, lemma_lookup_absent, lookup, total, AdminTable, Grant, MemberSet, Membership, Table};
use crate::uint::{lemma_of_value, lemma_value_bounded, u256_of, U256};

verus! {

/// The balances and the supply recorded when a snapshot was taken.
pub struct Snapshot {
    total_supply: U256,
    balances: Table<Address>,
}

impl Snapshot {
    pub closed spec fn view(&self) -> SnapshotView {
        SnapshotView {
            total_supply: self.total_supply.value(),
            balances: Map::new(|a: Address| true, |a: Address| self.balances.get_spec(a)),
        }
    }

    pub closed spec fn wf(&self) -> bool {
        &&& self.balances.wf()
        &&& self.balances.sum() == self.total_supply.value()
    }
}

/// The accounts of a table of balances, and the sum of their balances.
proof fn lemma_entries_sum(s: Seq<(Address, U256)>)
    requires
        keys_unique(s),
    ensures
        sum_over(Map::new(|a: Address| true, |a: Address| lookup(s, a)), s.map_values(|e: (Address, U256)| e.0))
            == total(s),
    decreases s.len(),
{
    if s.len() > 0 {
        let d = s.drop_last();
        let ks = s.map_values(|e: (Address, U256)| e.0);
        let kd = d.map_values(|e: (Address, U256)| e.0);
        lemma_entries_sum(d);
        assert(ks.drop_last() =~= kd);
        let m = Map::new(|a: Address| true, |a: Address| lookup(s, a));
        let md = Map::new(|a: Address| true, |a: Address| lookup(d, a));
        assert forall|i: int| 0 <= i < kd.len() implies m[kd[i]] == md[kd[i]] by {
            assert(kd[i] == s[i].0);
            assert(s.last() == s[s.len() - 1]);
        }
        lemma_sum_over_agree(m, md, kd);
    }
}

/// The ledger state.
pub struct ERC20Token {
    initialized: bool,
    name: String,
    symbol: String,
    decimals: u8,
    total_supply: U256,
    balances: Table<Address>,
    allowances: Table<Grant>,
    owner: Address,
    paused: bool,
    supply_cap: U256,
    supply_cap_enabled: bool,
    roles: MemberSet<Membership>,
    role_admins: AdminTable,
    blacklisted: MemberSet<Address>,
    blacklist_enabled: bool,
    next_snapshot_id: U256,
    current_snapshot_id: U256,
    snapshots: Vec<Snapshot>,
    pending_owner: Address,
    ownership_unlock_time: U256,
    ownership_transfer_delay: U256,
    emergency_admin: Address,
    guardian: Address,
    guardian_enabled: bool,
    minting_period_limit: U256,
    minting_period_duration: U256,
    transfer_whitelist: MemberSet<Address>,
    transfer_restrictions_enabled: bool,
    contract_version: U256,
    initialized_at: U256,
}

impl View for ERC20Token {
    type V = TokenView;

    closed spec fn view(&self) -> TokenView {
        TokenView {
            initialized: self.initialized,
            name: self.name@,
            symbol: self.symbol@,
            decimals: self.decimals,
            total_supply: self.total_supply.value(),
            balances: Map::new(|a: Address| true, |a: Address| self.balances.get_spec(a)),
            allowances: Map::new(|g: Grant| true, |g: Grant| self.allowances.get_spec(g)),
            owner: self.owner,
            paused: self.paused,
            supply_cap: self.supply_cap.value(),
            supply_cap_enabled: self.supply_cap_enabled,
            roles: Set::new(|m: Membership| self.roles.has(m)),
            role_admins: Map::new(|r: u32| true, |r: u32| self.role_admins.admin_of(r)),
            blacklisted: Set::new(|a: Address| self.blacklisted.has(a)),
            blacklist_enabled: self.blacklist_enabled,
            next_snapshot_id: self.next_snapshot_id.value(),
            current_snapshot_id: self.current_snapshot_id.value(),
            snapshots: self.snapshots@.map_values(|x: Snapshot| x.view()),
            pending_owner: self.pending_owner,
            ownership_unlock_time: self.ownership_unlock_time.value(),
            ownership_transfer_delay: self.ownership_transfer_delay.value(),
            emergency_admin: self.emergency_admin,
            guardian: self.guardian,
            guardian_enabled: self.guardian_enabled,
            minting_period_limit: self.minting_period_limit.value(),
            minting_period_duration: self.minting_period_duration.value(),
            transfer_whitelist: Set::new(|a: Address| self.transfer_whitelist.has(a)),
            transfer_restrictions_enabled: self.transfer_restrictions_enabled,
            contract_version: self.contract_version.value(),
            initialized_at: self.initialized_at.value(),
        }
    }
}

impl ERC20Token {
    /// The invariant of the ledger: the tables are well formed, the total
    /// supply is the sum of the balances (and in each snapshot likewise),
    /// the supply is within the cap while the cap is on, and there is one
    /// snapshot for each identifier handed out.
    pub closed spec fn wf(&self) -> bool {
        &&& self.balances.wf()
        &&& self.allowances.wf()
        &&& self.roles.wf()
        &&& self.blacklisted.wf()
        &&& self.transfer_whitelist.wf()
        &&& self.balances.sum() == self.total_supply.value()
        &&& self.supply_cap_enabled ==> self.total_supply.value() <= self.supply_cap.value()
        &&& forall|i: int| 0 <= i < self.snapshots@.len() ==> (#[trigger] self.snapshots@[i]).wf()
        &&& self.next_snapshot_id.value() >= 1
        &&& self.current_snapshot_id.value() == 0 ==> self.snapshots@.len() + 1 == self.next_snapshot_id.value()
        &&& self.current_snapshot_id.value() != 0 ==> {
            &&& self.current_snapshot_id == self.next_snapshot_id
            &&& self.snapshots@.len() == self.next_snapshot_id.value()
        }
    }

    /// The accounts that have a balance entry; every other account holds
    /// zero.
    pub closed spec fn holders(&self) -> Seq<Address> {
        self.balances.entries@.map_values(|e: (Address, U256)| e.0)
    }

    /// The total supply is the sum of the balances of the holders, each
    /// listed once; every other account holds zero. Every operation keeps
    /// `wf`, so this holds after any sequence of calls.
    pub proof fn supply_is_sum_of_balances(&self)
        requires
            self.wf(),
        ensures
            self.holders().no_duplicates(),
            forall|a: Address| !self.holders().contains(a) ==> self@.balances[a] == 0,
            sum_over(self@.balances, self.holders()) == self@.total_supply,
    {
        let s = self.balances.entries@;
        let ks = self.holders();
        lemma_entries_sum(s);
        assert(self@.balances =~= Map::new(|a: Address| true, |a: Address| lookup(s, a)));
        assert forall|i: int, j: int| 0 <= i < ks.len() && 0 <= j < ks.len() && i != j implies ks[i] != ks[j] by {
            if i < j {
                assert(s[i].0 != s[j].0);
            } else {
                assert(s[j].0 != s[i].0);
            }
        }
        assert forall|a: Address| !ks.contains(a) implies self@.balances[a] == 0 by {
            assert forall|i: int| 0 <= i < s.len() implies s[i].0 != a by {
                assert(ks[i] == s[i].0);
            }
            lemma_lookup_absent(s, a);
        }
    }

    /// A well-formed ledger is in a valid state: its amounts fit in 256
    /// bits, its maps are total and its snapshot counters agree with the
    /// snapshots taken.
    pub proof fn view_is_valid(&self)
        requires
            self.wf(),
        ensures
            model::valid(self@),
    {
        let v = self@;
        lemma_value_bounded(self.total_supply);
        lemma_value_bounded(self.supply_cap);
        lemma_value_bounded(self.next_snapshot_id);
        lemma_value_bounded(self.ownership_unlock_time);
        lemma_value_bounded(self.ownership_transfer_delay);
        lemma_value_bounded(self.minting_period_limit);
        lemma_value_bounded(self.minting_period_duration);
        lemma_value_bounded(self.contract_version);
        lemma_value_bounded(self.initialized_at);
        assert forall|a: Address| #[trigger] v.balances.dom().contains(a) && v.balances[a] <= v.total_supply by {
            self.balances.lemma_get_le_sum(a);
        }
        assert forall|g: Grant| #[trigger] v.allowances.dom().contains(g) && v.allowances[g] < crate::uint::modulus() by {
            self.allowances.lemma_get_bounded(g);
        }
        assert forall|i: int| 0 <= i < v.snapshots.len() implies {
            &&& (#[trigger] v.snapshots[i]).total_supply < crate::uint::modulus()
            &&& forall|a: Address| #[trigger] v.snapshots[i].balances.dom().contains(a)
                && v.snapshots[i].balances[a] <= v.snapshots[i].total_supply
        } by {
            let snap = self.snapshots@[i];
            assert(snap.wf());
            assert(v.snapshots[i] == snap.view());
            lemma_value_bounded(snap.total_supply);
            assert forall|a: Address| #[trigger] v.snapshots[i].balances.dom().contains(a)
                && v.snapshots[i].balances[a] <= v.snapshots[i].total_supply by {
                snap.balances.lemma_get_le_sum(a);
            }
        }
    }

    /// Storage as it stands before initialization.
    pub fn new() -> (r: ERC20Token)
        ensures
            r.wf(),
            r@ == model::fresh(),
    {
        let r = ERC20Token {
            initialized: false,
            name: String::new(),
            symbol: String::new(),
            decimals: 0,
            total_supply: U256::zero(),
            balances: Table::new(),
            allowances: Table::new(),
            owner: Address::zero(),
            paused: false,
            supply_cap: U256::zero(),
            supply_cap_enabled: false,
            roles: MemberSet::new(),
            role_admins: AdminTable::new(),
            blacklisted: MemberSet::new(),
            blacklist_enabled: false,
            next_snapshot_id: U256::from_u64(1),
            current_snapshot_id: U256::zero(),
            snapshots: Vec::new(),
            pending_owner: Address::zero(),
            ownership_unlock_time: U256::zero(),
            ownership_transfer_delay: U256::zero(),
            emergency_admin: Address::zero(),
            guardian: Address::zero(),
            guardian_enabled: false,
            minting_period_limit: U256::zero(),
            minting_period_duration: U256::zero(),
            transfer_whitelist: MemberSet::new(),
            transfer_restrictions_enabled: false,
            contract_version: U256::zero(),
            initialized_at: U256::zero(),
        };
        assert(r@ =~= model::fresh());
        r
    }

    fn only_owner(&self, caller: Address) -> (r: Result<(), ERC20Error>)
        ensures
            r == if model::is_owner(self@, caller) { Ok(()) } else { Err(model::not_owner(self@, caller)) },
    {
        if caller.is_zero() || !caller.same(&self.owner) {
            return Err(ERC20Error::NotOwner { caller, owner: self.owner });
        }
        Ok(())
    }

    /// A transfer once the pause flag has been consulted.
    fn internal_transfer(&mut self, from: Address, to: Address, amount: U256) -> (r: Result<(), ERC20Error>)
        requires
            old(self).wf(),
        ensures
            final(self).wf(),
            match model::transfer_core(old(self)@, from, to, amount) {
                Ok(t) => r == Ok::<(), ERC20Error>(()) && final(self)@ == t,
                Err(e) => r == Err::<(), ERC20Error>(e) && final(self)@ == old(self)@,
            },
    {
        if to.is_zero() {
            return Err(ERC20Error::ZeroAddress);
        }
        if amount.is_zero() {
            return Ok(());
        }
        let from_balance = self.balances.get(&from);
        let new_from_balance = match from_balance.checked_sub(&amount) {
            Some(v) => v,
            None => {
                proof {
                    lemma_of_value(from_balance);
                }
                return Err(ERC20Error::InsufficientBalance { balance: from_balance, required: amount });
            },
        };
        let to_balance = if from.same(&to) {
            new_from_balance
        } else {
            self.balances.get(&to)
        };
        let new_to_balance = match to_balance.checked_add(&amount) {
            Some(v) => v,
            None => {
                return Err(ERC20Error::InvalidAmount);
            },
        };
        let ghost old_view = self@;
        self.balances.set(&from, new_from_balance);
        self.balances.set(&to, new_to_balance);
        proof {
            let moved = model::move_balance(old_view.balances, from, to, amount.value());
            assert(self@.balances =~= moved);
            assert(self@ =~= (TokenView { balances: moved, ..old_view }));
        }
        Ok(())
    }

    /// Moves `amount` from the caller to `to`.
    pub fn transfer(&mut self, caller: Address, to: Address, amount: U256) -> (r: Result<bool, ERC20Error>)
        requires
            old(self).wf(),
        ensures
            final(self).wf(),
            (final(self)@, r) == model::transfer(old(self)@, caller, to, amount),
    {
        if self.paused {
            return Err(ERC20Error::ContractPaused);
        }
        match self.internal_transfer(caller, to, amount) {
            Ok(()) => Ok(true),
            Err(e) => Err(e),
        }
    }

    /// The allowance of `spender` over the funds of `owner`.
    fn allowance_of(&self, owner: Address, spender: Address) -> (r: U256)
        requires
            self.wf(),
        ensures
            r.value() == self@.allowances[Grant { owner, spender }],
            r == u256_of(self@.allowances[Grant { owner, spender }]),
    {
        let r = self.allowances.get(&Grant { owner, spender });
        proof {
            lemma_of_value(r);
        }
        r
    }

    fn write_allowance(&mut self, owner: Address, spender: Address, amount: U256)
        requires
            old(self).wf(),
        ensures
            final(self).wf(),
            final(self)@ == model::set_allowance(old(self)@, owner, spender, amount.value()),
    {
        let ghost old_view = self@;
        self.allowances.set(&Grant { owner, spender }, amount);
        proof {
            assert(self@ =~= model::set_allowance(old_view, owner, spender, amount.value()));
        }
    }

    /// Sets the allowance of `spender` over the caller's funds to `amount`.
    pub fn approve(&mut self, caller: Address, spender: Address, amount: U256) -> (r: Result<bool, ERC20Error>)
        requires
            old(self).wf(),
        ensures
            final(self).wf(),
            (final(self)@, r) == model::approve(old(self)@, caller, spender, amount),
    {
        if spender.is_zero() {
            return Err(ERC20Error::ZeroAddress);
        }
        self.write_allowance(caller, spender, amount);
        Ok(true)
    }

    /// Raises the allowance of `spender` over the caller's funds by `delta`.
    pub fn increase_allowance(&mut self, caller: Address, spender: Address, delta: U256) -> (r: Result<bool, ERC20Error>)
        requires
            old(self).wf(),
        ensures
            final(self).wf(),
            (final(self)@, r) == model::increase_allowance(old(self)@, caller, spender, delta),
    {
        if spender.is_zero() {
            return Err(ERC20Error::ZeroAddress);
        }
        let current = self.allowance_of(caller, spender);
        match current.checked_add(&delta) {
            Some(v) => {
                self.write_allowance(caller, spender, v);
                Ok(true)
            },
            None => Err(ERC20Error::InvalidAmount),
        }
    }

    /// Lowers the allowance of `spender` over the caller's funds by `delta`.
    pub fn decrease_allowance(&mut self, caller: Address, spender: Address, delta: U256) -> (r: Result<bool, ERC20Error>)
        requires
            old(self).wf(),
        ensures
            final(self).wf(),
            (final(self)@, r) == model::decrease_allowance(old(self)@, caller, spender, delta),
    {
        if spender.is_zero() {
            return Err(ERC20Error::ZeroAddress);
        }
        let current = self.allowance_of(caller, spender);
        match current.checked_sub(&delta) {
            Some(v) => {
                self.write_allowance(caller, spender, v);
                Ok(true)
            },
            None => Err(ERC20Error::InsufficientAllowance { allowance: current, required: delta }),
        }
    }

    /// Moves `amount` from `from` to `to` on the caller's allowance.
    pub fn transfer_from(&mut self, caller: Address, from: Address, to: Address, amount: U256) -> (r: Result<bool, ERC20Error>)
        requires
            old(self).wf(),
        ensures
            final(self).wf(),
            (final(self)@, r) == model::transfer_from(old(self)@, caller, from, to, amount),
    {
        if self.paused {
            return Err(ERC20Error::ContractPaused);
        }
        if to.is_zero() {
            return Err(ERC20Error::ZeroAddress);
        }
        if amount.is_zero() {
            return Ok(true);
        }
        let ghost s0 = self@;
        let current = self.allowance_of(from, caller);
        let remaining = match current.checked_sub(&amount) {
            Some(v) => v,
            None => {
                return Err(ERC20Error::InsufficientAllowance { allowance: current, required: amount });
            },
        };
        proof {
            let t = model::consume_allowance(s0, from, caller, amount)->Ok_0;
            assert(model::transfer_core(t, from, to, amount) matches Ok(_) <==> model::transfer_core(s0, from, to, amount) matches Ok(_));
        }
        match self.internal_transfer(from, to, amount) {
            Ok(()) => {},
            Err(e) => {
                return Err(e);
            },
        }
        self.write_allowance(from, caller, remaining);
        proof {
            let t = model::consume_allowance(s0, from, caller, amount)->Ok_0;
            assert(self@ =~= model::transfer_core(t, from, to, amount)->Ok_0);
        }
        Ok(true)
    }

    /// New supply credited to `to`, within the cap where it is enabled.
    fn internal_mint(&mut self, to: Address, amount: U256) -> (r: Result<bool, ERC20Error>)
        requires
            old(self).wf(),
        ensures
            final(self).wf(),
            (final(self)@, r) == model::mint_core(old(self)@, to, amount),
    {
        if self.supply_cap_enabled {
            let room = self.supply_cap.checked_sub(&self.total_supply);
            let past_cap = match room {
                Some(room) => amount.gt(&room),
                None => true,
            };
            if past_cap {
                proof {
                    lemma_of_value(self.total_supply);
                    lemma_of_value(self.supply_cap);
                }
                return Err(ERC20Error::SupplyCapExceeded { current_supply: self.total_supply, cap: self.supply_cap });
            }
        }
        let new_supply = match self.total_supply.checked_add(&amount) {
            Some(v) => v,
            None => {
                return Err(ERC20Error::InvalidAmount);
            },
        };
        let balance = self.balances.get(&to);
        proof {
            self.balances.lemma_get_le_sum(to);
        }
        let new_balance = match balance.checked_add(&amount) {
            Some(v) => v,
            None => {
                return Err(ERC20Error::InvalidAmount);
            },
        };
        let ghost old_view = self@;
        self.balances.set(&to, new_balance);
        self.total_supply = new_supply;
        proof {
            assert(self@ =~= model::mint_core(old_view, to, amount).0);
        }
        Ok(true)
    }

    /// Mints `amount` to `to`; the owner only.
    pub fn mint(&mut self, caller: Address, to: Address, amount: U256) -> (r: Result<bool, ERC20Error>)
        requires
            old(self).wf(),
        ensures
            final(self).wf(),
            (final(self)@, r) == model::mint(old(self)@, caller, to, amount),
    {
        self.only_owner(caller)?;
        if self.paused {
            return Err(ERC20Error::ContractPaused);
        }
        if to.is_zero() {
            return Err(ERC20Error::ZeroAddress);
        }
        if amount.is_zero() {
            return Ok(true);
        }
        self.internal_mint(to, amount)
    }

    /// Mints `amount` to `to`; holders of the minter role only.
    pub fn mint_with_checks(&mut self, caller: Address, to: Address, amount: U256) -> (r: Result<bool, ERC20Error>)
        requires
            old(self).wf(),
        ensures
            final(self).wf(),
            (final(self)@, r) == model::mint_with_checks(old(self)@, caller, to, amount),
    {
        if !self.roles.contains(&Membership { role: model::MINTER_ROLE, account: caller }) {
            return Err(ERC20Error::AccessDenied { account: caller, role: model::MINTER_ROLE });
        }
        if self.paused {
            return Err(ERC20Error::ContractPaused);
        }
        if to.is_zero() {
            return Err(ERC20Error::ZeroAddress);
        }
        if amount.is_zero() {
            return Ok(true);
        }
        self.internal_mint(to, amount)
    }

    /// `amount` taken out of the balance of `from` and out of the supply.
    fn internal_burn(&mut self, from: Address, amount: U256) -> (r: Result<(), ERC20Error>)
        requires
            old(self).wf(),
        ensures
            final(self).wf(),
            match model::burn_core(old(self)@, from, amount) {
                Ok(t) => r == Ok::<(), ERC20Error>(()) && final(self)@ == t,
                Err(e) => r == Err::<(), ERC20Error>(e) && final(self)@ == old(self)@,
            },
    {
        let balance = self.balances.get(&from);
        let new_balance = match balance.checked_sub(&amount) {
            Some(v) => v,
            None => {
                proof {
                    lemma_of_value(balance);
                }
                return Err(ERC20Error::InsufficientBalance { balance, required: amount });
            },
        };
        proof {
            self.balances.lemma_get_le_sum(from);
        }
        let new_supply = match self.total_supply.checked_sub(&amount) {
            Some(v) => v,
            None => {
                return Err(ERC20Error::InvalidAmount);
            },
        };
        let ghost old_view = self@;
        self.balances.set(&from, new_balance);
        self.total_supply = new_supply;
        proof {
            assert(self@ =~= model::burn_core(old_view, from, amount)->Ok_0);
        }
        Ok(())
    }

    /// Destroys `amount` of the caller's own funds.
    pub fn burn(&mut self, caller: Address, amount: U256) -> (r: Result<bool, ERC20Error>)
        requires
            old(self).wf(),
        ensures
            final(self).wf(),
            (final(self)@, r) == model::burn(old(self)@, caller, amount),
    {
        if self.paused {
            return Err(ERC20Error::ContractPaused);
        }
        if amount.is_zero() {
            return Ok(true);
        }
        match self.internal_burn(caller, amount) {
            Ok(()) => Ok(true),
            Err(e) => Err(e),
        }
    }

    /// Destroys `amount` of the funds of `from` on the caller's allowance.
    pub fn burn_from(&mut self, caller: Address, from: Address, amount: U256) -> (r: Result<bool, ERC20Error>)
        requires
            old(self).wf(),
        ensures
            final(self).wf(),
            (final(self)@, r) == model::burn_from(old(self)@, caller, from, amount),
    {
        if self.paused {
            return Err(ERC20Error::ContractPaused);
        }
        if from.is_zero() {
            return Err(ERC20Error::ZeroAddress);
        }
        if amount.is_zero() {
            return Ok(true);
        }
        let ghost s0 = self@;
        let current = self.allowance_of(from, caller);
        let remaining = match current.checked_sub(&amount) {
            Some(v) => v,
            None => {
                return Err(ERC20Error::InsufficientAllowance { allowance: current, required: amount });
            },
        };
        match self.internal_burn(from, amount) {
            Ok(()) => {},
            Err(e) => {
                return Err(e);
            },
        }
        self.write_allowance(from, caller, remaining);
        proof {
            let t = model::consume_allowance(s0, from, caller, amount)->Ok_0;
            assert(self@ =~= model::burn_core(t, from, amount)->Ok_0);
        }
        Ok(true)
    }

    /// Whether the blacklist stops a transfer between `from` and `to`.
    fn blacklist_check(&self, from: Address, to: Address) -> (r: Option<ERC20Error>)
        ensures
            r == model::blacklist_check(self@, from, to),
    {
        if self.blacklist_enabled {
            if self.blacklisted.contains(&from) {
                return Some(ERC20Error::AddressBlacklisted { account: from });
            }
            if self.blacklisted.contains(&to) {
                return Some(ERC20Error::AddressBlacklisted { account: to });
            }
        }
        None
    }

    /// A transfer that the blacklist can stop. The transfer whitelist is
    /// recorded but restricts nothing.
    pub fn transfer_with_checks(&mut self, caller: Address, to: Address, amount: U256) -> (r: Result<bool, ERC20Error>)
        requires
            old(self).wf(),
        ensures
            final(self).wf(),
            (final(self)@, r) == model::transfer_with_checks(old(self)@, caller, to, amount),
    {
        if self.paused {
            return Err(ERC20Error::ContractPaused);
        }
        if to.is_zero() {
            return Err(ERC20Error::ZeroAddress);
        }
        if amount.is_zero() {
            return Ok(true);
        }
        if let Some(e) = self.blacklist_check(caller, to) {
            return Err(e);
        }
        self.transfer(caller, to, amount)
    }

    /// A `transfer_from` that the blacklist can stop.
    pub fn transfer_from_with_checks(&mut self, caller: Address, from: Address, to: Address, amount: U256) -> (r: Result<bool, ERC20Error>)
        requires
            old(self).wf(),
        ensures
            final(self).wf(),
            (final(self)@, r) == model::transfer_from_with_checks(old(self)@, caller, from, to, amount),
    {
        if self.paused {
            return Err(ERC20Error::ContractPaused);
        }
        if to.is_zero() {
            return Err(ERC20Error::ZeroAddress);
        }
        if amount.is_zero() {
            return Ok(true);
        }
        let current = self.allowance_of(from, caller);
        if current.lt(&amount) {
            return Err(ERC20Error::InsufficientAllowance { allowance: current, required: amount });
        }
        if let Some(e) = self.blacklist_check(from, to) {
            return Err(e);
        }
        self.transfer_from(caller, from, to, amount)
    }

    /// Transfers `amounts[i]` from the caller to `recipients[i]`, in order;
    /// where one fails, none takes effect.
    pub fn batch_transfer(&mut self, caller: Address, recipients: Vec<Address>, amounts: Vec<U256>) -> (r: Result<bool, ERC20Error>)
        requires
            old(self).wf(),
        ensures
            final(self).wf(),
            (final(self)@, r) == model::batch_transfer(old(self)@, caller, recipients@, amounts@),
    {
        if recipients.len() != amounts.len() {
            return Err(ERC20Error::BatchTransferLengthMismatch);
        }
        if self.paused {
            return Err(ERC20Error::ContractPaused);
        }
        let ghost s0 = self@;
        let saved = self.balances.copy();
        let mut i: usize = 0;
        while i < recipients.len()
            invariant
                self.wf(),
                i <= recipients@.len(),
                recipients@.len() == amounts@.len(),
                model::transfer_all(s0, caller, recipients@, amounts@, i as nat) == Ok::<TokenView, ERC20Error>(self@),
                !s0.paused,
                s0 == old(self)@,
                saved.wf(),
                saved.sum() == s0.total_supply,
                Map::new(|a: Address| true, |a: Address| saved.get_spec(a)) == s0.balances,
            decreases recipients@.len() - i,
        {
            match self.internal_transfer(caller, recipients[i], amounts[i]) {
                Ok(()) => {},
                Err(e) => {
                    proof {
                        assert(model::transfer_all(s0, caller, recipients@, amounts@, (i + 1) as nat)
                            == Err::<TokenView, ERC20Error>(e));
                        model::lemma_transfer_all_frame(s0, caller, recipients@, amounts@, i as nat);
                        model::lemma_transfer_all_stops(s0, caller, recipients@, amounts@, (i + 1) as nat, recipients@.len());
                    }
                    self.balances = saved;
                    proof {
                        assert(self@ =~= s0);
                        assert(model::transfer_all(s0, caller, recipients@, amounts@, recipients@.len())
                            == Err::<TokenView, ERC20Error>(e));
                    }
                    return Err(e);
                },
            }
            i = i + 1;
        }
        Ok(true)
    }

    /// Sets the allowance of `spenders[i]` over the caller's funds to
    /// `amounts[i]`, in order; a null spender anywhere refuses the whole
    /// batch.
    pub fn batch_approve(&mut self, caller: Address, spenders: Vec<Address>, amounts: Vec<U256>) -> (r: Result<bool, ERC20Error>)
        requires
            old(self).wf(),
        ensures
            final(self).wf(),
            (final(self)@, r) == model::batch_approve(old(self)@, caller, spenders@, amounts@),
    {
        if spenders.len() != amounts.len() {
            return Err(ERC20Error::BatchApproveLengthMismatch);
        }
        if self.paused {
            return Err(ERC20Error::ContractPaused);
        }
        let ghost s0 = self@;
        let mut j: usize = 0;
        while j < spenders.len()
            invariant
                self.wf(),
                self@ == s0,
                !s0.paused,
                spenders@.len() == amounts@.len(),
                j <= spenders@.len(),
                forall|k: int| 0 <= k < j ==> spenders@[k] != Address::zero_spec(),
            decreases spenders@.len() - j,
        {
            if spenders[j].is_zero() {
                proof {
                    assert(spenders@[j as int] == Address::zero_spec());
                    assert(spenders@.contains(Address::zero_spec()));
                }
                return Err(ERC20Error::ZeroAddress);
            }
            j = j + 1;
        }
        let mut i: usize = 0;
        while i < spenders.len()
            invariant
                self.wf(),
                i <= spenders@.len(),
                spenders@.len() == amounts@.len(),
                !s0.paused,
                !spenders@.contains(Address::zero_spec()),
                self@ == model::approve_all(s0, caller, spenders@, amounts@, i as nat),
            decreases spenders@.len() - i,
        {
            self.write_allowance(caller, spenders[i], amounts[i]);
            i = i + 1;
        }
        Ok(true)
    }

    /// Replaces the owner at once; the owner only.
    pub fn transfer_ownership(&mut self, caller: Address, new_owner: Address) -> (r: Result<bool, ERC20Error>)
        requires
            old(self).wf(),
        ensures
            final(self).wf(),
            (final(self)@, r) == model::transfer_ownership(old(self)@, caller, new_owner),
    {
        self.only_owner(caller)?;
        if new_owner.is_zero() {
            return Err(ERC20Error::ZeroAddress);
        }
        let ghost s0 = self@;
        self.owner = new_owner;
        proof {
            assert(self@ =~= model::transfer_ownership(s0, caller, new_owner).0);
        }
        Ok(true)
    }

    /// Leaves the ledger without an owner; the owner only.
    pub fn renounce_ownership(&mut self, caller: Address) -> (r: Result<bool, ERC20Error>)
        requires
            old(self).wf(),
        ensures
            final(self).wf(),
            (final(self)@, r) == model::renounce_ownership(old(self)@, caller),
    {
        self.only_owner(caller)?;
        let ghost s0 = self@;
        self.owner = Address::zero();
        proof {
            assert(self@ =~= model::renounce_ownership(s0, caller).0);
        }
        Ok(true)
    }

    fn set_paused(&mut self, paused: bool) -> (r: Result<bool, ERC20Error>)
        requires
            old(self).wf(),
        ensures
            final(self).wf(),
            (final(self)@, r) == model::set_paused(old(self)@, paused),
    {
        if paused && self.paused {
            return Err(ERC20Error::ContractPaused);
        }
        if !paused && !self.paused {
            return Err(ERC20Error::NotContractPaused);
        }
        let ghost s0 = self@;
        self.paused = paused;
        proof {
            assert(self@ =~= model::set_paused(s0, paused).0);
        }
        Ok(true)
    }

    /// Pauses; the owner only.
    pub fn pause(&mut self, caller: Address) -> (r: Result<bool, ERC20Error>)
        requires
            old(self).wf(),
        ensures
            final(self).wf(),
            (final(self)@, r) == model::pause(old(self)@, caller),
    {
        self.only_owner(caller)?;
        self.set_paused(true)
    }

    /// Unpauses; the owner only.
    pub fn unpause(&mut self, caller: Address) -> (r: Result<bool, ERC20Error>)
        requires
            old(self).wf(),
        ensures
            final(self).wf(),
            (final(self)@, r) == model::unpause(old(self)@, caller),
    {
        self.only_owner(caller)?;
        self.set_paused(false)
    }

    fn pauser_only(&self, caller: Address) -> (r: Result<(), ERC20Error>)
        ensures
            r == if model::has_role(self@, model::PAUSER_ROLE, caller) {
                Ok(())
            } else {
                Err(ERC20Error::AccessDenied { account: caller, role: model::PAUSER_ROLE })
            },
    {
        if !self.roles.contains(&Membership { role: model::PAUSER_ROLE, account: caller }) {
            return Err(ERC20Error::AccessDenied { account: caller, role: model::PAUSER_ROLE });
        }
        Ok(())
    }

    /// Pauses; holders of the pauser role only.
    pub fn pause_with_role(&mut self, caller: Address) -> (r: Result<bool, ERC20Error>)
        requires
            old(self).wf(),
        ensures
            final(self).wf(),
            (final(self)@, r) == model::pause_with_role(old(self)@, caller),
    {
        self.pauser_only(caller)?;
        self.set_paused(true)
    }

    /// Unpauses; holders of the pauser role only.
    pub fn unpause_with_role(&mut self, caller: Address) -> (r: Result<bool, ERC20Error>)
        requires
            old(self).wf(),
        ensures
            final(self).wf(),
            (final(self)@, r) == model::unpause_with_role(old(self)@, caller),
    {
        self.pauser_only(caller)?;
        self.set_paused(false)
    }

    /// Pauses; the guardian only, while one is set.
    pub fn guardian_pause(&mut self, caller: Address) -> (r: Result<bool, ERC20Error>)
        requires
            old(self).wf(),
        ensures
            final(self).wf(),
            (final(self)@, r) == model::guardian_pause(old(self)@, caller),
    {
        if !self.guardian_enabled || !caller.same(&self.guardian) {
            return Err(ERC20Error::AccessDenied { account: caller, role: model::PAUSER_ROLE });
        }
        self.set_paused(true)
    }

    /// Lowers the supply cap to `new_cap`; the owner only.
    pub fn set_supply_cap(&mut self, caller: Address, new_cap: U256) -> (r: Result<bool, ERC20Error>)
        requires
            old(self).wf(),
        ensures
            final(self).wf(),
            (final(self)@, r) == model::set_supply_cap(old(self)@, caller, new_cap),
    {
        self.only_owner(caller)?;
        if new_cap.gt(&self.supply_cap) {
            return Err(ERC20Error::CannotDecreaseSupplyCap);
        }
        if new_cap.lt(&self.total_supply) {
            proof {
                lemma_of_value(self.total_supply);
            }
            return Err(ERC20Error::SupplyCapExceeded { current_supply: self.total_supply, cap: new_cap });
        }
        let ghost s0 = self@;
        self.supply_cap = new_cap;
        proof {
            assert(self@ =~= model::set_supply_cap(s0, caller, new_cap).0);
        }
        Ok(true)
    }

    /// Switches the supply cap on or off; the owner only.
    pub fn set_supply_cap_enabled(&mut self, caller: Address, enabled: bool) -> (r: Result<bool, ERC20Error>)
        requires
            old(self).wf(),
        ensures
            final(self).wf(),
            (final(self)@, r) == model::set_supply_cap_enabled(old(self)@, caller, enabled),
    {
        self.only_owner(caller)?;
        if enabled && self.total_supply.gt(&self.supply_cap) {
            proof {
                lemma_of_value(self.total_supply);
                lemma_of_value(self.supply_cap);
            }
            return Err(ERC20Error::SupplyCapExceeded { current_supply: self.total_supply, cap: self.supply_cap });
        }
        let ghost s0 = self@;
        self.supply_cap_enabled = enabled;
        proof {
            assert(self@ =~= model::set_supply_cap_enabled(s0, caller, enabled).0);
        }
        Ok(true)
    }

    fn role_admin_only(&self, caller: Address, role: u32) -> (r: Result<(), ERC20Error>)
        ensures
            r == if model::has_role(self@, self@.role_admins[role], caller) {
                Ok(())
            } else {
                Err(ERC20Error::AccessDenied { account: caller, role: self@.role_admins[role] })
            },
    {
        let admin = self.role_admins.get(role);
        if !self.roles.contains(&Membership { role: admin, account: caller }) {
            return Err(ERC20Error::AccessDenied { account: caller, role: admin });
        }
        Ok(())
    }

    /// Grants `role` to `account`; holders of the role's admin role only.
    pub fn grant_role(&mut self, caller: Address, role: u32, account: Address) -> (r: Result<bool, ERC20Error>)
        requires
            old(self).wf(),
        ensures
            final(self).wf(),
            (final(self)@, r) == model::grant_role(old(self)@, caller, role, account),
    {
        self.role_admin_only(caller, role)?;
        if account.is_zero() {
            return Err(ERC20Error::ZeroAddress);
        }
        let m = Membership { role, account };
        if self.roles.contains(&m) {
            return Err(ERC20Error::RoleAlreadyGranted { role, account });
        }
        let ghost s0 = self@;
        self.roles.insert(&m);
        proof {
            assert(self@ =~= model::grant_role(s0, caller, role, account).0);
        }
        Ok(true)
    }

    /// Revokes `role` from `account`; holders of the role's admin role only.
    pub fn revoke_role(&mut self, caller: Address, role: u32, account: Address) -> (r: Result<bool, ERC20Error>)
        requires
            old(self).wf(),
        ensures
            final(self).wf(),
            (final(self)@, r) == model::revoke_role(old(self)@, caller, role, account),
    {
        self.role_admin_only(caller, role)?;
        if account.is_zero() {
            return Err(ERC20Error::ZeroAddress);
        }
        let m = Membership { role, account };
        if !self.roles.contains(&m) {
            return Err(ERC20Error::RoleAlreadyRevoked { role, account });
        }
        let ghost s0 = self@;
        self.roles.remove(&m);
        proof {
            assert(self@ =~= model::revoke_role(s0, caller, role, account).0);
        }
        Ok(true)
    }

    /// Drops `role` from the caller.
    pub fn renounce_role(&mut self, caller: Address, role: u32) -> (r: Result<bool, ERC20Error>)
        requires
            old(self).wf(),
        ensures
            final(self).wf(),
            (final(self)@, r) == model::renounce_role(old(self)@, caller, role),
    {
        let ghost s0 = self@;
        self.roles.remove(&Membership { role, account: caller });
        proof {
            assert(self@ =~= model::renounce_role(s0, caller, role).0);
        }
        Ok(true)
    }

    /// Adds `account` to the blacklist; the owner only.
    pub fn blacklist(&mut self, caller: Address, account: Address) -> (r: Result<bool, ERC20Error>)
        requires
            old(self).wf(),
        ensures
            final(self).wf(),
            (final(self)@, r) == model::blacklist(old(self)@, caller, account),
    {
        self.only_owner(caller)?;
        if account.is_zero() {
            return Err(ERC20Error::ZeroAddress);
        }
        if self.blacklisted.contains(&account) {
            return Err(ERC20Error::AddressBlacklisted { account });
        }
        let ghost s0 = self@;
        self.blacklisted.insert(&account);
        proof {
            assert(self@ =~= model::blacklist(s0, caller, account).0);
        }
        Ok(true)
    }

    /// Takes `account` off the blacklist; the owner only.
    pub fn unblacklist(&mut self, caller: Address, account: Address) -> (r: Result<bool, ERC20Error>)
        requires
            old(self).wf(),
        ensures
            final(self).wf(),
            (final(self)@, r) == model::unblacklist(old(self)@, caller, account),
    {
        self.only_owner(caller)?;
        if !self.blacklisted.contains(&account) {
            return Err(ERC20Error::AddressNotBlacklisted { account });
        }
        let ghost s0 = self@;
        self.blacklisted.remove(&account);
        proof {
            assert(self@ =~= model::unblacklist(s0, caller, account).0);
        }
        Ok(true)
    }

    /// Switches the blacklist on or off; the owner only.
    pub fn set_blacklist_enabled(&mut self, caller: Address, enabled: bool) -> (r: Result<bool, ERC20Error>)
        requires
            old(self).wf(),
        ensures
            final(self).wf(),
            (final(self)@, r) == model::set_blacklist_enabled(old(self)@, caller, enabled),
    {
        self.only_owner(caller)?;
        let ghost s0 = self@;
        self.blacklist_enabled = enabled;
        proof {
            assert(self@ =~= model::set_blacklist_enabled(s0, caller, enabled).0);
        }
        Ok(true)
    }

    /// Adds `account` to the transfer whitelist; the owner only.
    pub fn add_to_whitelist(&mut self, caller: Address, account: Address) -> (r: Result<bool, ERC20Error>)
        requires
            old(self).wf(),
        ensures
            final(self).wf(),
            (final(self)@, r) == model::add_to_whitelist(old(self)@, caller, account),
    {
        self.only_owner(caller)?;
        let ghost s0 = self@;
        self.transfer_whitelist.insert(&account);
        proof {
            assert(self@ =~= model::add_to_whitelist(s0, caller, account).0);
        }
        Ok(true)
    }

    /// Takes `account` off the transfer whitelist; the owner only.
    pub fn remove_from_whitelist(&mut self, caller: Address, account: Address) -> (r: Result<bool, ERC20Error>)
        requires
            old(self).wf(),
        ensures
            final(self).wf(),
            (final(self)@, r) == model::remove_from_whitelist(old(self)@, caller, account),
    {
        self.only_owner(caller)?;
        let ghost s0 = self@;
        self.transfer_whitelist.remove(&account);
        proof {
            assert(self@ =~= model::remove_from_whitelist(s0, caller, account).0);
        }
        Ok(true)
    }

    /// Switches the whitelist mode on or off; the owner only.
    pub fn set_transfer_restrictions_enabled(&mut self, caller: Address, enabled: bool) -> (r: Result<bool, ERC20Error>)
        requires
            old(self).wf(),
        ensures
            final(self).wf(),
            (final(self)@, r) == model::set_transfer_restrictions_enabled(old(self)@, caller, enabled),
    {
        self.only_owner(caller)?;
        let ghost s0 = self@;
        self.transfer_restrictions_enabled = enabled;
        proof {
            assert(self@ =~= model::set_transfer_restrictions_enabled(s0, caller, enabled).0);
        }
        Ok(true)
    }

    /// Opens a snapshot that records every balance and the supply as they
    /// stand now, and returns its identifier; the owner only.
    pub fn snapshot(&mut self, caller: Address) -> (r: Result<U256, ERC20Error>)
        requires
            old(self).wf(),
        ensures
            final(self).wf(),
            (final(self)@, r) == model::snapshot(old(self)@, caller),
    {
        self.only_owner(caller)?;
        if !self.current_snapshot_id.is_zero() {
            return Err(ERC20Error::SnapshotInProgress);
        }
        let ghost s0 = self@;
        let id = self.next_snapshot_id;
        let recorded = Snapshot { total_supply: self.total_supply, balances: self.balances.copy() };
        self.snapshots.push(recorded);
        self.current_snapshot_id = id;
        proof {
            lemma_of_value(id);
            assert(recorded.view() =~= (SnapshotView { total_supply: s0.total_supply, balances: s0.balances }));
            assert(self.snapshots@.map_values(|x: Snapshot| x.view()) =~= s0.snapshots.push(recorded.view()));
            assert(self@ =~= model::snapshot(s0, caller).0);
            assert forall|i: int| 0 <= i < self.snapshots@.len() implies (#[trigger] self.snapshots@[i]).wf() by {
                if i < s0.snapshots.len() {
                    assert(self.snapshots@[i] == old(self).snapshots@[i]);
                }
            }
        }
        Ok(id)
    }

    /// Closes the open snapshot, which can be read from then on, and
    /// returns its identifier; the owner only.
    pub fn finalize_snapshot(&mut self, caller: Address) -> (r: Result<U256, ERC20Error>)
        requires
            old(self).wf(),
        ensures
            final(self).wf(),
            (final(self)@, r) == model::finalize_snapshot(old(self)@, caller),
    {
        self.only_owner(caller)?;
        let id = self.current_snapshot_id;
        if id.is_zero() {
            proof {
                lemma_of_value(id);
            }
            return Err(ERC20Error::SnapshotNotFound { snapshot_id: id });
        }
        let snapshot_count = self.snapshots.len();
        proof {
            assert(id.value() == snapshot_count as nat);
        }
        let next = match id.checked_add(&U256::from_u64(1)) {
            Some(v) => v,
            None => {
                return Err(ERC20Error::InvalidAmount);
            },
        };
        let ghost s0 = self@;
        self.next_snapshot_id = next;
        self.current_snapshot_id = U256::zero();
        proof {
            lemma_of_value(id);
            assert(self@ =~= model::finalize_snapshot(s0, caller).0);
        }
        Ok(id)
    }

    /// The index of the closed snapshot `id`, where there is one.
    fn snapshot_index(&self, id: U256) -> (r: Option<usize>)
        requires
            self.wf(),
        ensures
            match r {
                Some(i) => model::snapshot_readable(self@, id.value()) && i == id.value() - 1
                    && i < self.snapshots@.len(),
                None => !model::snapshot_readable(self@, id.value()),
            },
    {
        if id.is_zero() || id.ge(&self.next_snapshot_id) {
            return None;
        }
        let snapshot_count = self.snapshots.len();
        proof {
            assert(id.value() <= snapshot_count as nat);
            assert(id.high == 0);
        }
        Some((id.low - 1) as usize)
    }

    /// The balance of `account` recorded by the closed snapshot `id`.
    pub fn balance_of_at(&self, account: Address, id: U256) -> (r: Result<U256, ERC20Error>)
        requires
            self.wf(),
        ensures
            r == if model::snapshot_readable(self@, id.value()) {
                Ok(u256_of(self@.snapshots[id.value() - 1].balances[account]))
            } else {
                Err(ERC20Error::SnapshotNotFound { snapshot_id: id })
            },
    {
        match self.snapshot_index(id) {
            Some(i) => {
                let b = self.snapshots[i].balances.get(&account);
                proof {
                    assert(self.snapshots@[i as int].wf());
                    lemma_of_value(b);
                }
                Ok(b)
            },
            None => Err(ERC20Error::SnapshotNotFound { snapshot_id: id }),
        }
    }

    /// The total supply recorded by the closed snapshot `id`.
    pub fn total_supply_at(&self, id: U256) -> (r: Result<U256, ERC20Error>)
        requires
            self.wf(),
        ensures
            r == if model::snapshot_readable(self@, id.value()) {
                Ok(u256_of(self@.snapshots[id.value() - 1].total_supply))
            } else {
                Err(ERC20Error::SnapshotNotFound { snapshot_id: id })
            },
    {
        match self.snapshot_index(id) {
            Some(i) => {
                let t = self.snapshots[i].total_supply;
                proof {
                    lemma_of_value(t);
                }
                Ok(t)
            },
            None => Err(ERC20Error::SnapshotNotFound { snapshot_id: id }),
        }
    }

    /// Names `new_owner` as the next owner, who may accept once the
    /// delay has passed from `now`; a transfer already pending is
    /// replaced. The owner only.
    pub fn initiate_ownership_transfer(&mut self, caller: Address, now: u64, new_owner: Address) -> (r: Result<bool, ERC20Error>)
        requires
            old(self).wf(),
        ensures
            final(self).wf(),
            (final(self)@, r) == model::initiate_ownership_transfer(old(self)@, caller, now, new_owner),
    {
        self.only_owner(caller)?;
        if new_owner.is_zero() {
            return Err(ERC20Error::ZeroAddress);
        }
        let unlock_time = match U256::from_u64(now).checked_add(&self.ownership_transfer_delay) {
            Some(v) => v,
            None => {
                return Err(ERC20Error::InvalidAmount);
            },
        };
        let ghost s0 = self@;
        self.pending_owner = new_owner;
        self.ownership_unlock_time = unlock_time;
        proof {
            assert(self@ =~= model::initiate_ownership_transfer(s0, caller, now, new_owner).0);
        }
        Ok(true)
    }

    /// Makes the pending owner the owner, once the unlock time has come.
    pub fn accept_ownership(&mut self, caller: Address, now: u64) -> (r: Result<bool, ERC20Error>)
        requires
            old(self).wf(),
        ensures
            final(self).wf(),
            (final(self)@, r) == model::accept_ownership(old(self)@, caller, now),
    {
        let pending = self.pending_owner;
        if pending.is_zero() {
            return Err(ERC20Error::NoPendingOwnershipTransfer);
        }
        if !caller.same(&pending) {
            return Err(ERC20Error::NotOwner { caller, owner: pending });
        }
        let current_time = U256::from_u64(now);
        if current_time.lt(&self.ownership_unlock_time) {
            proof {
                lemma_of_value(current_time);
                lemma_of_value(self.ownership_unlock_time);
            }
            return Err(ERC20Error::OwnershipTransferNotYetUnlockable {
                current_time,
                unlock_time: self.ownership_unlock_time,
            });
        }
        let ghost s0 = self@;
        self.owner = pending;
        self.pending_owner = Address::zero();
        self.ownership_unlock_time = U256::zero();
        proof {
            assert(self@ =~= model::accept_ownership(s0, caller, now).0);
        }
        Ok(true)
    }

    /// Withdraws the pending ownership transfer; the owner only.
    pub fn cancel_ownership_transfer(&mut self, caller: Address) -> (r: Result<bool, ERC20Error>)
        requires
            old(self).wf(),
        ensures
            final(self).wf(),
            (final(self)@, r) == model::cancel_ownership_transfer(old(self)@, caller),
    {
        self.only_owner(caller)?;
        if self.pending_owner.is_zero() {
            return Err(ERC20Error::NoPendingOwnershipTransfer);
        }
        let ghost s0 = self@;
        self.pending_owner = Address::zero();
        self.ownership_unlock_time = U256::zero();
        proof {
            assert(self@ =~= model::cancel_ownership_transfer(s0, caller).0);
        }
        Ok(true)
    }

    /// Sets the delay of later ownership transfers; the owner only.
    pub fn set_ownership_transfer_delay(&mut self, caller: Address, delay_seconds: U256) -> (r: Result<bool, ERC20Error>)
        requires
            old(self).wf(),
        ensures
            final(self).wf(),
            (final(self)@, r) == model::set_ownership_transfer_delay(old(self)@, caller, delay_seconds),
    {
        self.only_owner(caller)?;
        let ghost s0 = self@;
        self.ownership_transfer_delay = delay_seconds;
        proof {
            assert(self@ =~= model::set_ownership_transfer_delay(s0, caller, delay_seconds).0);
        }
        Ok(true)
    }

    /// Sets the emergency admin; the owner only.
    pub fn set_emergency_admin(&mut self, caller: Address, new_admin: Address) -> (r: Result<bool, ERC20Error>)
        requires
            old(self).wf(),
        ensures
            final(self).wf(),
            (final(self)@, r) == model::set_emergency_admin(old(self)@, caller, new_admin),
    {
        self.only_owner(caller)?;
        let ghost s0 = self@;
        self.emergency_admin = new_admin;
        proof {
            assert(self@ =~= model::set_emergency_admin(s0, caller, new_admin).0);
        }
        Ok(true)
    }

    /// Sets the guardian, who may pause while set; the owner only.
    pub fn set_guardian(&mut self, caller: Address, new_guardian: Address) -> (r: Result<bool, ERC20Error>)
        requires
            old(self).wf(),
        ensures
            final(self).wf(),
            (final(self)@, r) == model::set_guardian(old(self)@, caller, new_guardian),
    {
        self.only_owner(caller)?;
        let ghost s0 = self@;
        self.guardian = new_guardian;
        self.guardian_enabled = !new_guardian.is_zero();
        proof {
            assert(self@ =~= model::set_guardian(s0, caller, new_guardian).0);
        }
        Ok(true)
    }

    /// Records the minting rate limits; the owner only.
    pub fn set_minting_limits(&mut self, caller: Address, period_limit: U256, period_duration_seconds: U256) -> (r: Result<bool, ERC20Error>)
        requires
            old(self).wf(),
        ensures
            final(self).wf(),
            (final(self)@, r) == model::set_minting_limits(old(self)@, caller, period_limit, period_duration_seconds),
    {
        self.only_owner(caller)?;
        let ghost s0 = self@;
        self.minting_period_limit = period_limit;
        self.minting_period_duration = period_duration_seconds;
        proof {
            assert(self@ =~= model::set_minting_limits(s0, caller, period_limit, period_duration_seconds).0);
        }
        Ok(true)
    }

    /// Sets the ledger up, once; `now` is recorded as the time of
    /// initialization.
    pub fn initialize(
        &mut self,
        now: u64,
        token_name: String,
        token_symbol: String,
        token_decimals: u8,
        initial_supply: U256,
        initial_owner: Address,
    ) -> (r: Result<(), ERC20Error>)
        requires
            old(self).wf(),
        ensures
            final(self).wf(),
            (final(self)@, r) == model::initialize(
                old(self)@,
                now,
                token_name@,
                token_symbol@,
                token_decimals,
                initial_supply,
                initial_owner,
            ),
    {
        if self.initialized {
            return Err(ERC20Error::AlreadyInitialized);
        }
        if initial_owner.is_zero() {
            return Err(ERC20Error::ZeroAddress);
        }
        if token_decimals == 0 {
            return Err(ERC20Error::InvalidAmount);
        }
        let new_supply = match self.total_supply.checked_add(&initial_supply) {
            Some(v) => v,
            None => {
                return Err(ERC20Error::InvalidAmount);
            },
        };
        let balance = self.balances.get(&initial_owner);
        proof {
            self.balances.lemma_get_le_sum(initial_owner);
        }
        let new_balance = match balance.checked_add(&initial_supply) {
            Some(v) => v,
            None => {
                return Err(ERC20Error::InvalidAmount);
            },
        };
        let ghost s0 = self@;
        let ghost name_view = token_name@;
        let ghost symbol_view = token_symbol@;
        self.name = token_name;
        self.symbol = token_symbol;
        self.decimals = token_decimals;
        self.owner = initial_owner;
        self.role_admins.set(model::DEFAULT_ADMIN_ROLE, model::ADMIN_ROLE);
        self.role_admins.set(model::ADMIN_ROLE, model::ADMIN_ROLE);
        self.role_admins.set(model::MINTER_ROLE, model::ADMIN_ROLE);
        self.role_admins.set(model::PAUSER_ROLE, model::ADMIN_ROLE);
        self.roles.insert(&Membership { role: model::ADMIN_ROLE, account: initial_owner });
        self.roles.insert(&Membership { role: model::MINTER_ROLE, account: initial_owner });
        self.roles.insert(&Membership { role: model::PAUSER_ROLE, account: initial_owner });
        self.supply_cap = U256::max();
        self.supply_cap_enabled = false;
        self.ownership_transfer_delay = U256::from_u64(model::DEFAULT_OWNERSHIP_DELAY);
        self.minting_period_limit = U256::max();
        self.minting_period_duration = U256::zero();
        self.blacklist_enabled = false;
        self.transfer_restrictions_enabled = false;
        self.guardian_enabled = false;
        self.contract_version = U256::from_u64(1);
        self.initialized_at = U256::from_u64(now);
        self.balances.set(&initial_owner, new_balance);
        self.total_supply = new_supply;
        self.initialized = true;
        proof {
            let expected = model::initialize(s0, now, name_view, symbol_view, token_decimals, initial_supply, initial_owner).0;
            assert(self@.role_admins =~= expected.role_admins);
            assert(self@.roles =~= expected.roles);
            assert(self@ =~= expected);
        }
        Ok(())
    }

    /// The token's name.
    pub fn name(&self) -> (r: Result<String, ERC20Error>)
        ensures
            r matches Ok(v) && v@ == self@.name,
    {
        Ok(self.name.clone())
    }

    /// The token's symbol.
    pub fn symbol(&self) -> (r: Result<String, ERC20Error>)
        ensures
            r matches Ok(v) && v@ == self@.symbol,
    {
        Ok(self.symbol.clone())
    }

    /// The number of decimals the token uses.
    pub fn decimals(&self) -> (r: Result<u8, ERC20Error>)
        ensures
            r == Ok::<u8, ERC20Error>(self@.decimals),
    {
        Ok(self.decimals)
    }

    /// The total supply.
    pub fn total_supply(&self) -> (r: Result<U256, ERC20Error>)
        ensures
            r == Ok::<U256, ERC20Error>(u256_of(self@.total_supply)),
    {
        proof {
            lemma_of_value(self.total_supply);
        }
        Ok(self.total_supply)
    }

    /// The owner; null where there is none.
    pub fn owner(&self) -> (r: Result<Address, ERC20Error>)
        ensures
            r == Ok::<Address, ERC20Error>(self@.owner),
    {
        Ok(self.owner)
    }

    /// Whether value-moving operations are refused.
    pub fn paused(&self) -> (r: Result<bool, ERC20Error>)
        ensures
            r == Ok::<bool, ERC20Error>(self@.paused),
    {
        Ok(self.paused)
    }

    /// The supply cap.
    pub fn supply_cap(&self) -> (r: Result<U256, ERC20Error>)
        ensures
            r == Ok::<U256, ERC20Error>(u256_of(self@.supply_cap)),
    {
        proof {
            lemma_of_value(self.supply_cap);
        }
        Ok(self.supply_cap)
    }

    /// Whether the supply cap is enforced.
    pub fn supply_cap_enabled(&self) -> (r: Result<bool, ERC20Error>)
        ensures
            r == Ok::<bool, ERC20Error>(self@.supply_cap_enabled),
    {
        Ok(self.supply_cap_enabled)
    }

    /// Whether the blacklist is enforced.
    pub fn blacklist_enabled(&self) -> (r: Result<bool, ERC20Error>)
        ensures
            r == Ok::<bool, ERC20Error>(self@.blacklist_enabled),
    {
        Ok(self.blacklist_enabled)
    }

    /// The identifier of the open snapshot; zero where none is open.
    pub fn current_snapshot_id(&self) -> (r: Result<U256, ERC20Error>)
        ensures
            r == Ok::<U256, ERC20Error>(u256_of(self@.current_snapshot_id)),
    {
        proof {
            lemma_of_value(self.current_snapshot_id);
        }
        Ok(self.current_snapshot_id)
    }

    /// The identifier the next snapshot will get.
    pub fn next_snapshot_id(&self) -> (r: Result<U256, ERC20Error>)
        ensures
            r == Ok::<U256, ERC20Error>(u256_of(self@.next_snapshot_id)),
    {
        proof {
            lemma_of_value(self.next_snapshot_id);
        }
        Ok(self.next_snapshot_id)
    }

    /// The owner named by a pending transfer; null where none is pending.
    pub fn pending_owner(&self) -> (r: Result<Address, ERC20Error>)
        ensures
            r == Ok::<Address, ERC20Error>(self@.pending_owner),
    {
        Ok(self.pending_owner)
    }

    /// When the pending owner may accept.
    pub fn ownership_unlock_time(&self) -> (r: Result<U256, ERC20Error>)
        ensures
            r == Ok::<U256, ERC20Error>(u256_of(self@.ownership_unlock_time)),
    {
        proof {
            lemma_of_value(self.ownership_unlock_time);
        }
        Ok(self.ownership_unlock_time)
    }

    /// The delay, in seconds, of ownership transfers.
    pub fn ownership_transfer_delay(&self) -> (r: Result<U256, ERC20Error>)
        ensures
            r == Ok::<U256, ERC20Error>(u256_of(self@.ownership_transfer_delay)),
    {
        proof {
            lemma_of_value(self.ownership_transfer_delay);
        }
        Ok(self.ownership_transfer_delay)
    }

    /// The emergency admin.
    pub fn emergency_admin(&self) -> (r: Result<Address, ERC20Error>)
        ensures
            r == Ok::<Address, ERC20Error>(self@.emergency_admin),
    {
        Ok(self.emergency_admin)
    }

    /// The guardian.
    pub fn guardian(&self) -> (r: Result<Address, ERC20Error>)
        ensures
            r == Ok::<Address, ERC20Error>(self@.guardian),
    {
        Ok(self.guardian)
    }

    /// The minting limit per period.
    pub fn minting_period_limit(&self) -> (r: Result<U256, ERC20Error>)
        ensures
            r == Ok::<U256, ERC20Error>(u256_of(self@.minting_period_limit)),
    {
        proof {
            lemma_of_value(self.minting_period_limit);
        }
        Ok(self.minting_period_limit)
    }

    /// The length of a minting period, in seconds.
    pub fn minting_period_duration(&self) -> (r: Result<U256, ERC20Error>)
        ensures
            r == Ok::<U256, ERC20Error>(u256_of(self@.minting_period_duration)),
    {
        proof {
            lemma_of_value(self.minting_period_duration);
        }
        Ok(self.minting_period_duration)
    }

    /// Whether the whitelist mode is on.
    pub fn transfer_restrictions_enabled(&self) -> (r: Result<bool, ERC20Error>)
        ensures
            r == Ok::<bool, ERC20Error>(self@.transfer_restrictions_enabled),
    {
        Ok(self.transfer_restrictions_enabled)
    }

    /// The version of the ledger's layout.
    pub fn contract_version(&self) -> (r: Result<U256, ERC20Error>)
        ensures
            r == Ok::<U256, ERC20Error>(u256_of(self@.contract_version)),
    {
        proof {
            lemma_of_value(self.contract_version);
        }
        Ok(self.contract_version)
    }

    /// The time of initialization.
    pub fn initialized_at(&self) -> (r: Result<U256, ERC20Error>)
        ensures
            r == Ok::<U256, ERC20Error>(u256_of(self@.initialized_at)),
    {
        proof {
            lemma_of_value(self.initialized_at);
        }
        Ok(self.initialized_at)
    }

    /// The balance of `owner`.
    pub fn balance_of(&self, owner: Address) -> (r: Result<U256, ERC20Error>)
        requires
            self.wf(),
        ensures
            r == Ok::<U256, ERC20Error>(u256_of(self@.balances[owner])),
    {
        let b = self.balances.get(&owner);
        proof {
            lemma_of_value(b);
        }
        Ok(b)
    }

    /// The amount `spender` may still take from the funds of `owner`.
    pub fn allowance(&self, owner: Address, spender: Address) -> (r: Result<U256, ERC20Error>)
        requires
            self.wf(),
        ensures
            r == Ok::<U256, ERC20Error>(u256_of(self@.allowances[Grant { owner, spender }])),
    {
        Ok(self.allowance_of(owner, spender))
    }

    /// Whether `account` holds `role`.
    pub fn has_role(&self, role: u32, account: Address) -> (r: Result<bool, ERC20Error>)
        ensures
            r == Ok::<bool, ERC20Error>(model::has_role(self@, role, account)),
    {
        Ok(self.roles.contains(&Membership { role, account }))
    }

    /// The role whose holders grant and revoke `role`.
    pub fn get_role_admin(&self, role: u32) -> (r: Result<u32, ERC20Error>)
        ensures
            r == Ok::<u32, ERC20Error>(self@.role_admins[role]),
    {
        Ok(self.role_admins.get(role))
    }

    /// Whether `account` is on the blacklist.
    pub fn is_blacklisted(&self, account: Address) -> (r: Result<bool, ERC20Error>)
        ensures
            r == Ok::<bool, ERC20Error>(self@.blacklisted.contains(account)),
    {
        Ok(self.blacklisted.contains(&account))
    }

    /// Whether `account` is on the transfer whitelist.
    pub fn is_transfer_whitelisted(&self, account: Address) -> (r: Result<bool, ERC20Error>)
        ensures
            r == Ok::<bool, ERC20Error>(self@.transfer_whitelist.contains(account)),
    {
        Ok(self.transfer_whitelist.contains(&account))
    }
}

} // verus!
