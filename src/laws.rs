//! Properties that hold of the ledger across calls, proved over the model.
use vstd::prelude::*;
use crate::address::Address;
use crate::error::ERC20Error;
use crate::model::{self, TokenView};
use crate::table::{Grant, Membership};
use crate::uint::{u256_of, U256};

verus! {

/// The sum of the balances of `accounts`.
pub open spec fn sum_over(b: Map<Address, nat>, accounts: Seq<Address>) -> nat
    decreases accounts.len(),
{
    if accounts.len() == 0 {
        0
    } else {
        sum_over(b, accounts.drop_last()) + b[accounts.last()]
    }
}

/// The transfers `steps` made one after another, each `(from, to, amount)`
/// called by `from`; one that is refused changes nothing.
pub open spec fn apply_transfers(s: TokenView, steps: Seq<(Address, Address, U256)>) -> TokenView
    decreases steps.len(),
{
    if steps.len() == 0 {
        s
    } else {
        let t = apply_transfers(s, steps.drop_last());
        model::transfer(t, steps.last().0, steps.last().1, steps.last().2).0
    }
}

/// Two maps that agree on `accounts` give them the same sum.
pub proof fn lemma_sum_over_agree(b1: Map<Address, nat>, b2: Map<Address, nat>, accounts: Seq<Address>)
    requires
        forall|i: int| 0 <= i < accounts.len() ==> b1[accounts[i]] == b2[accounts[i]],
    ensures
        sum_over(b1, accounts) == sum_over(b2, accounts),
    decreases accounts.len(),
{
    if accounts.len() > 0 {
        let rest = accounts.drop_last();
        assert forall|i: int| 0 <= i < rest.len() implies b1[rest[i]] == b2[rest[i]] by {
            assert(rest[i] == accounts[i]);
        }
        lemma_sum_over_agree(b1, b2, rest);
    }
}

/// Writing `v` under an account `k` listed once changes the sum by the
/// difference; under an unlisted account it changes nothing.
pub proof fn lemma_sum_over_insert(b: Map<Address, nat>, accounts: Seq<Address>, k: Address, v: nat)
    requires
        accounts.no_duplicates(),
    ensures
        accounts.contains(k) ==> sum_over(b.insert(k, v), accounts) + b[k] == sum_over(b, accounts) + v,
        !accounts.contains(k) ==> sum_over(b.insert(k, v), accounts) == sum_over(b, accounts),
    decreases accounts.len(),
{
    if accounts.len() > 0 {
        let rest = accounts.drop_last();
        let last = accounts.last();
        assert(rest.no_duplicates());
        lemma_sum_over_insert(b, rest, k, v);
        if last == k {
            assert(!rest.contains(k)) by {
                if rest.contains(k) {
                    let j = choose|j: int| 0 <= j < rest.len() && rest[j] == k;
                    assert(accounts[j] == accounts[accounts.len() - 1]);
                }
            }
        } else if accounts.contains(k) {
            let j = choose|j: int| 0 <= j < accounts.len() && accounts[j] == k;
            assert(rest[j] == k);
        } else {
            assert(!rest.contains(k)) by {
                if rest.contains(k) {
                    let j = choose|j: int| 0 <= j < rest.len() && rest[j] == k;
                    assert(accounts[j] == k);
                }
            }
        }
    }
}

/// Among a closed set of accounts that holds the whole supply, a run of
/// transfers keeps the sum of their balances equal to the total supply,
/// and leaves every account outside the set as it was.
pub proof fn transfers_conserve_supply(s: TokenView, accounts: Seq<Address>, steps: Seq<(Address, Address, U256)>)
    requires
        accounts.no_duplicates(),
        forall|i: int| 0 <= i < steps.len() ==> accounts.contains(#[trigger] steps[i].0) && accounts.contains(steps[i].1),
        sum_over(s.balances, accounts) == s.total_supply,
    ensures
        sum_over(apply_transfers(s, steps).balances, accounts) == apply_transfers(s, steps).total_supply,
        forall|a: Address| !accounts.contains(a) ==> apply_transfers(s, steps).balances[a] == s.balances[a],
    decreases steps.len(),
{
    if steps.len() > 0 {
        let rest = steps.drop_last();
        assert forall|i: int| 0 <= i < rest.len() implies accounts.contains(#[trigger] rest[i].0) && accounts.contains(rest[i].1) by {
            assert(rest[i] == steps[i]);
        }
        transfers_conserve_supply(s, accounts, rest);
        let t = apply_transfers(s, rest);
        let (from, to, amount) = steps.last();
        assert(steps.last() == steps[steps.len() - 1]);
        let a = amount.value();
        if !t.paused && !to.is_null() && a != 0 && t.balances[from] >= a {
            let debited = t.balances.insert(from, (t.balances[from] - a) as nat);
            lemma_sum_over_insert(t.balances, accounts, from, (t.balances[from] - a) as nat);
            lemma_sum_over_insert(debited, accounts, to, debited[to] + a);
        }
    }
}

/// A transfer of zero changes no balance, whoever sends it to whomever.
pub proof fn zero_transfer_keeps_balances(s: TokenView, from: Address, to: Address, zero: U256)
    requires
        zero.value() == 0,
    ensures
        model::transfer(s, from, to, zero).0.balances == s.balances,
{
}

/// After `approve(o, sp, A)`, `decrease_allowance(o, sp, A)` leaves the
/// allowance at zero, while `decrease_allowance(o, sp, A + 1)` fails with
/// `InsufficientAllowance` and leaves it at `A`.
pub proof fn approve_then_decrease(s: TokenView, o: Address, sp: Address, a: U256, a_plus_one: U256)
    requires
        !sp.is_null(),
        a_plus_one.value() == a.value() + 1,
    ensures
        ({
            let approved = model::approve(s, o, sp, a).0;
            let g = Grant { owner: o, spender: sp };
            &&& model::decrease_allowance(approved, o, sp, a).1 == Ok::<bool, ERC20Error>(true)
            &&& model::decrease_allowance(approved, o, sp, a).0.allowances[g] == 0
            &&& model::decrease_allowance(approved, o, sp, a_plus_one).1 matches Err(ERC20Error::InsufficientAllowance { .. })
            &&& model::decrease_allowance(approved, o, sp, a_plus_one).0.allowances[g] == a.value()
        }),
{
}

/// With the supply cap on, a mint whose supply would pass the cap fails
/// and leaves the ledger as it was; where the caller may mint to `to`,
/// the error is `SupplyCapExceeded` with the supply and the cap. A mint
/// that reaches the cap exactly succeeds and credits `to`.
pub proof fn mint_respects_cap(s: TokenView, caller: Address, to: Address, x: U256)
    requires
        model::valid(s),
        s.supply_cap_enabled,
    ensures
        s.total_supply + x.value() > s.supply_cap ==> {
            &&& model::mint(s, caller, to, x).1 is Err
            &&& model::mint(s, caller, to, x).0 == s
            &&& model::mint_with_checks(s, caller, to, x).1 is Err
            &&& model::mint_with_checks(s, caller, to, x).0 == s
        },
        s.total_supply + x.value() > s.supply_cap && !s.paused && !to.is_null() ==> {
            &&& model::is_owner(s, caller) ==> model::mint(s, caller, to, x).1 == Err::<bool, ERC20Error>(
                ERC20Error::SupplyCapExceeded { current_supply: u256_of(s.total_supply), cap: u256_of(s.supply_cap) })
            &&& model::has_role(s, model::MINTER_ROLE, caller) ==> model::mint_with_checks(s, caller, to, x).1
                == Err::<bool, ERC20Error>(ERC20Error::SupplyCapExceeded {
                    current_supply: u256_of(s.total_supply),
                    cap: u256_of(s.supply_cap),
                })
        },
        s.total_supply + x.value() == s.supply_cap && !s.paused && !to.is_null() ==> {
            &&& model::is_owner(s, caller) ==> {
                &&& model::mint(s, caller, to, x).1 == Ok::<bool, ERC20Error>(true)
                &&& model::mint(s, caller, to, x).0.total_supply == s.supply_cap
                &&& model::mint(s, caller, to, x).0.balances == s.balances.insert(to, s.balances[to] + x.value())
            }
            &&& model::has_role(s, model::MINTER_ROLE, caller) ==> {
                &&& model::mint_with_checks(s, caller, to, x).1 == Ok::<bool, ERC20Error>(true)
                &&& model::mint_with_checks(s, caller, to, x).0.total_supply == s.supply_cap
                &&& model::mint_with_checks(s, caller, to, x).0.balances
                    == s.balances.insert(to, s.balances[to] + x.value())
            }
        },
{
    if x.value() == 0 {
        assert(s.balances.insert(to, s.balances[to] + x.value()) =~= s.balances);
    }
}

/// A transfer from an account to itself, within its balance, succeeds and
/// leaves every balance and the supply as they were.
pub proof fn self_transfer_keeps_balances(s: TokenView, a: Address, amount: U256)
    requires
        model::valid(s),
        !s.paused,
        !a.is_null(),
        amount.value() <= s.balances[a],
    ensures
        model::transfer(s, a, a, amount).1 == Ok::<bool, ERC20Error>(true),
        model::transfer(s, a, a, amount).0.balances == s.balances,
        model::transfer(s, a, a, amount).0.total_supply == s.total_supply,
{
    assert(s.balances.dom().contains(a));
    if amount.value() > 0 {
        assert(model::move_balance(s.balances, a, a, amount.value()) =~= s.balances);
    }
}

/// Granting a role twice fails the second time with `RoleAlreadyGranted`.
pub proof fn grant_twice_fails(s: TokenView, caller: Address, role: u32, account: Address)
    requires
        model::has_role(s, s.role_admins[role], caller),
        !account.is_null(),
    ensures
        model::grant_role(model::grant_role(s, caller, role, account).0, caller, role, account).1
            == Err::<bool, ERC20Error>(ERC20Error::RoleAlreadyGranted { role, account }),
{
    let t = model::grant_role(s, caller, role, account).0;
    assert(t.roles.contains(Membership { role, account }));
    assert(t.roles.contains(Membership { role: s.role_admins[role], account: caller }));
}

/// Revoking a role twice fails the second time with `RoleAlreadyRevoked`,
/// unless the first call took from the caller the very role that
/// administers it.
pub proof fn revoke_twice_fails(s: TokenView, caller: Address, role: u32, account: Address)
    requires
        model::has_role(s, s.role_admins[role], caller),
        !account.is_null(),
        !(s.role_admins[role] == role && account == caller),
    ensures
        model::revoke_role(model::revoke_role(s, caller, role, account).0, caller, role, account).1
            == Err::<bool, ERC20Error>(ERC20Error::RoleAlreadyRevoked { role, account }),
{
    let t = model::revoke_role(s, caller, role, account).0;
    assert(!t.roles.contains(Membership { role, account }));
    assert(t.roles.contains(Membership { role: s.role_admins[role], account: caller }));
}

/// The pending owner's acceptance fails before the unlock time and
/// changes nothing; at or after it, it succeeds, hands over ownership
/// and clears the pending transfer.
pub proof fn accept_respects_unlock_time(s: TokenView, now: u64)
    requires
        !s.pending_owner.is_null(),
    ensures
        (now as nat) < s.ownership_unlock_time ==> {
            &&& model::accept_ownership(s, s.pending_owner, now).1
                matches Err(ERC20Error::OwnershipTransferNotYetUnlockable { .. })
            &&& model::accept_ownership(s, s.pending_owner, now).0 == s
        },
        (now as nat) >= s.ownership_unlock_time ==> {
            &&& model::accept_ownership(s, s.pending_owner, now).1 == Ok::<bool, ERC20Error>(true)
            &&& model::accept_ownership(s, s.pending_owner, now).0.owner == s.pending_owner
            &&& model::accept_ownership(s, s.pending_owner, now).0.pending_owner.is_null()
            &&& model::accept_ownership(s, s.pending_owner, now).0.ownership_unlock_time == 0
        },
{
}

/// A batch transfer whose lists differ in length fails with
/// `BatchTransferLengthMismatch` and changes nothing.
pub proof fn batch_length_mismatch_changes_nothing(s: TokenView, caller: Address, recipients: Seq<Address>, amounts: Seq<U256>)
    requires
        recipients.len() != amounts.len(),
    ensures
        model::batch_transfer(s, caller, recipients, amounts)
            == (s, Err::<bool, ERC20Error>(ERC20Error::BatchTransferLengthMismatch)),
{
}

/// A batch transfer either applies every transfer of the batch, or fails
/// and changes nothing.
pub proof fn batch_transfer_is_atomic(s: TokenView, caller: Address, recipients: Seq<Address>, amounts: Seq<U256>)
    ensures
        model::batch_transfer(s, caller, recipients, amounts).1 is Err ==> model::batch_transfer(s, caller, recipients, amounts).0 == s,
        model::batch_transfer(s, caller, recipients, amounts).1 is Ok ==> model::batch_transfer(s, caller, recipients, amounts).0
            == model::transfer_all(s, caller, recipients, amounts, recipients.len())->Ok_0,
{
}


/// The sum of the first `n` amounts.
pub open spec fn sum_amounts(amounts: Seq<U256>, n: nat) -> nat
    decreases n,
{
    if n == 0 {
        0
    } else {
        sum_amounts(amounts, (n - 1) as nat) + amounts[n - 1].value()
    }
}

/// The balances after the first `n` transfers of a batch from `from` to
/// distinct recipients other than `from`.
proof fn lemma_transfer_all_moves(s: TokenView, from: Address, to: Seq<Address>, amounts: Seq<U256>, n: nat)
    requires
        n <= to.len(),
        to.len() == amounts.len(),
        to.no_duplicates(),
        !to.contains(from),
        model::transfer_all(s, from, to, amounts, n) is Ok,
    ensures
        ({
            let t = model::transfer_all(s, from, to, amounts, n)->Ok_0;
            &&& t.total_supply == s.total_supply
            &&& t.balances[from] + sum_amounts(amounts, n) == s.balances[from]
            &&& forall|i: int| 0 <= i < n ==> t.balances[#[trigger] to[i]] == s.balances[to[i]] + amounts[i].value()
            &&& forall|i: int| n <= i < to.len() ==> t.balances[#[trigger] to[i]] == s.balances[to[i]]
            &&& forall|a: Address| a != from && !to.contains(a) ==> t.balances[a] == s.balances[a]
        }),
    decreases n,
{
    if n > 0 {
        let m = (n - 1) as nat;
        lemma_transfer_all_moves(s, from, to, amounts, m);
        let t = model::transfer_all(s, from, to, amounts, m)->Ok_0;
        let r = to[m as int];
        assert(to.contains(r));
        assert forall|i: int| 0 <= i < to.len() && i != m implies #[trigger] to[i] != r by {
            assert(to[i] != to[m as int]);
        }
    }
}

/// A batch transfer to distinct recipients, none of them the sender, that
/// succeeds debits the sender by the sum of the amounts, credits each
/// recipient with its amount, and touches no other balance nor the supply.
pub proof fn batch_transfer_moves_each_amount(s: TokenView, from: Address, to: Seq<Address>, amounts: Seq<U256>)
    requires
        to.no_duplicates(),
        !to.contains(from),
        model::batch_transfer(s, from, to, amounts).1 is Ok,
    ensures
        ({
            let t = model::batch_transfer(s, from, to, amounts).0;
            &&& t.total_supply == s.total_supply
            &&& t.balances[from] + sum_amounts(amounts, to.len()) == s.balances[from]
            &&& forall|i: int| 0 <= i < to.len() ==> t.balances[#[trigger] to[i]] == s.balances[to[i]] + amounts[i].value()
            &&& forall|a: Address| a != from && !to.contains(a) ==> t.balances[a] == s.balances[a]
        }),
{
    lemma_transfer_all_moves(s, from, to, amounts, to.len());
}

} // verus!
