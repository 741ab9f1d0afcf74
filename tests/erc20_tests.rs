use stylus_erc20::{
    bytes32_from_u32, Address, ERC20Error, ERC20Token, ADMIN_ROLE, DEFAULT_ADMIN_ROLE, MINTER_ROLE, PAUSER_ROLE, U256,
};

fn addr(n: u8) -> Address {
    Address::from_bytes([n; 20])
}

fn u(x: u128) -> U256 {
    U256::from_u128(x)
}

const START: u64 = 1000;

/// A ledger initialized at `START` with `supply` credited to `owner`.
fn deployed(owner: Address, supply: u128) -> ERC20Token {
    let mut t = ERC20Token::new();
    t.initialize(START, String::from("Token"), String::from("TKN"), 18, u(supply), owner).unwrap();
    t
}

fn balance(t: &ERC20Token, a: Address) -> U256 {
    t.balance_of(a).unwrap()
}

// ---------------------------------------------------------------------------
// Values and identifiers

#[test]
fn test_address_type_basics() {
    let zero = Address::zero();
    assert_eq!(Address::from_bytes([0u8; 20]), zero);
    let addr1 = Address::from_bytes([1u8; 20]);
    let addr2 = Address::from_bytes([2u8; 20]);
    assert_ne!(addr1, addr2);
    assert_ne!(addr1, zero);
}

#[test]
fn address_from_bytes_reads_big_endian() {
    let mut b = [0u8; 20];
    b[0] = 0x12;
    b[3] = 0x34;
    b[4] = 0x01;
    b[19] = 0xff;
    let a = Address::from_bytes(b);
    assert_eq!(a.high, 0x1200_0034);
    assert_eq!(a.low, (1u128 << 120) | 0xff);
    assert!(!a.is_zero());
    assert!(Address::from_bytes([0u8; 20]).is_zero());
}

#[test]
fn test_u256_type_basics() {
    let a = u(100);
    let b = u(200);
    assert!(a.lt(&b));
    assert!(b.gt(&a));
    assert_eq!(a.checked_add(&a), Some(u(200)));
    assert_eq!(b.checked_sub(&a), Some(u(100)));
}

#[test]
fn test_arithmetic_overflow_protection() {
    let max_u64 = U256::from_u64(u64::MAX);
    let one = U256::from_u64(1);
    assert!(max_u64.checked_add(&one).is_some());
    assert!(U256::max().checked_add(&one).is_none());
    assert_eq!(u(100).checked_add(&u(200)), Some(u(300)));
}

#[test]
fn u256_carries_between_halves() {
    let low_max = u(u128::MAX);
    let sum = low_max.checked_add(&U256::from_u64(1)).unwrap();
    assert_eq!(sum, U256 { high: 1, low: 0 });
    assert_eq!(sum.checked_sub(&U256::from_u64(1)), Some(low_max));
    assert_eq!(U256::max().checked_sub(&U256::from_u64(1)), Some(U256 { high: u128::MAX, low: u128::MAX - 1 }));
}

#[test]
fn test_arithmetic_underflow_protection() {
    let small = u(50);
    let large = u(100);
    assert!(small.checked_sub(&large).is_none());
    assert_eq!(large.checked_sub(&small), Some(u(50)));
}

#[test]
fn test_supply_calculation() {
    const DECIMALS: u8 = 18;
    let initial_supply: u128 = 1_000_000 * 10u128.pow(DECIMALS as u32);
    assert_eq!(initial_supply, 1_000_000_000_000_000_000_000_000u128);
}

#[test]
fn test_supply_calculations_with_decimals() {
    let decimals_18: u8 = 18;
    let supply_18: u128 = 1_000_000 * 10u128.pow(decimals_18 as u32);
    assert_eq!(supply_18, 1_000_000_000_000_000_000_000_000u128);

    let decimals_6: u8 = 6;
    let supply_6: u128 = 1_000_000 * 10u128.pow(decimals_6 as u32);
    assert_eq!(supply_6, 1_000_000_000_000u128);

    let large_supply: u128 = 1_000_000_000 * 10u128.pow(18);
    assert_eq!(large_supply, 1_000_000_000_000_000_000_000_000_000u128);
}

#[test]
fn test_token_metadata_constants() {
    let t = deployed(addr(1), 0);
    assert_eq!(t.decimals(), Ok(18));
    assert_eq!(t.name().unwrap(), "Token");
    assert_eq!(t.symbol().unwrap(), "TKN");
}

#[test]
fn test_role_constants() {
    assert_ne!(MINTER_ROLE, PAUSER_ROLE);
    assert_ne!(MINTER_ROLE, ADMIN_ROLE);
    assert_ne!(PAUSER_ROLE, ADMIN_ROLE);
    assert_eq!(DEFAULT_ADMIN_ROLE, 0);
}

#[test]
fn role_as_bytes32_is_big_endian_in_the_last_word() {
    let b = bytes32_from_u32(0x1234_5678);
    assert_eq!(&b[0..28], &[0u8; 28]);
    assert_eq!(&b[28..32], &[0x12, 0x34, 0x56, 0x78]);
}

// ---------------------------------------------------------------------------
// Initialization

#[test]
fn initialization_sets_everything_up() {
    let owner = addr(1);
    let t = deployed(owner, 1_000_000);
    assert_eq!(t.owner(), Ok(owner));
    assert_eq!(t.total_supply(), Ok(u(1_000_000)));
    assert_eq!(balance(&t, owner), u(1_000_000));
    assert_eq!(t.ownership_transfer_delay(), Ok(u(172_800)));
    assert_eq!(t.supply_cap(), Ok(U256::max()));
    assert_eq!(t.minting_period_limit(), Ok(U256::max()));
    assert_eq!(t.minting_period_duration(), Ok(U256::zero()));
    assert_eq!(t.contract_version(), Ok(u(1)));
    assert_eq!(t.initialized_at(), Ok(u(START as u128)));
    assert_eq!(t.paused(), Ok(false));
    assert_eq!(t.transfer_restrictions_enabled(), Ok(false));
}

#[test]
fn initialization_happens_once() {
    let mut t = deployed(addr(1), 10);
    let again = t.initialize(START, String::from("X"), String::from("X"), 18, u(5), addr(2));
    assert_eq!(again, Err(ERC20Error::AlreadyInitialized));
    assert_eq!(t.owner(), Ok(addr(1)));
    assert_eq!(t.total_supply(), Ok(u(10)));
}

#[test]
fn initialization_refuses_bad_arguments() {
    let mut t = ERC20Token::new();
    assert_eq!(
        t.initialize(START, String::from("T"), String::from("T"), 18, u(1), Address::zero()),
        Err(ERC20Error::ZeroAddress)
    );
    assert_eq!(t.initialize(START, String::from("T"), String::from("T"), 0, u(1), addr(1)), Err(ERC20Error::InvalidAmount));
    assert_eq!(t.owner(), Ok(Address::zero()));
}

#[test]
fn test_role_initialization() {
    let admin = addr(1);
    let t = deployed(admin, 0);
    assert_eq!(t.has_role(ADMIN_ROLE, admin), Ok(true));
    assert_eq!(t.has_role(MINTER_ROLE, admin), Ok(true));
    assert_eq!(t.has_role(PAUSER_ROLE, admin), Ok(true));
}

#[test]
fn test_role_admin_hierarchy() {
    let t = deployed(addr(1), 0);
    assert_eq!(t.get_role_admin(DEFAULT_ADMIN_ROLE), Ok(ADMIN_ROLE));
    assert_eq!(t.get_role_admin(ADMIN_ROLE), Ok(ADMIN_ROLE));
    assert_eq!(t.get_role_admin(MINTER_ROLE), Ok(ADMIN_ROLE));
    assert_eq!(t.get_role_admin(PAUSER_ROLE), Ok(ADMIN_ROLE));
}

// ---------------------------------------------------------------------------
// Transfers and allowances

#[test]
fn test_multiple_transfers_sequence() {
    let (u1, u2, u3) = (addr(1), addr(2), addr(3));
    let mut t = deployed(u1, 10_000);
    t.transfer(u1, u2, u(1000)).unwrap();
    assert_eq!(balance(&t, u1), u(9_000));
    assert_eq!(balance(&t, u2), u(1_000));
    t.transfer(u1, u3, u(500)).unwrap();
    assert_eq!(balance(&t, u1), u(8_500));
    assert_eq!(balance(&t, u3), u(500));
    t.transfer(u2, u3, u(250)).unwrap();
    assert_eq!(balance(&t, u2), u(750));
    assert_eq!(balance(&t, u3), u(750));
    assert_eq!(t.total_supply(), Ok(u(10_000)));
}

#[test]
fn scenario_three_party_transfers() {
    let (a, b, c) = (addr(0xa), addr(0xb), addr(0xc));
    let mut t = deployed(a, 1_000_000);
    assert_eq!(t.transfer(a, b, u(1_000)), Ok(true));
    assert_eq!(t.transfer(b, c, u(250)), Ok(true));
    assert_eq!(balance(&t, a), u(999_000));
    assert_eq!(balance(&t, b), u(750));
    assert_eq!(balance(&t, c), u(250));
    assert_eq!(t.total_supply(), Ok(u(1_000_000)));
}

#[test]
fn test_total_supply_invariant() {
    let (a1, a2) = (addr(1), addr(2));
    let mut t = deployed(a1, 1_000_000);
    t.transfer(a1, a2, u(100_000)).unwrap();
    let total_after = balance(&t, a1).checked_add(&balance(&t, a2)).unwrap();
    assert_eq!(total_after, u(1_000_000));
    assert_eq!(t.total_supply(), Ok(total_after));
}

#[test]
fn transfer_to_self_keeps_balance() {
    let a = addr(1);
    let mut t = deployed(a, 500);
    assert_eq!(t.transfer(a, a, u(200)), Ok(true));
    assert_eq!(balance(&t, a), u(500));
    assert_eq!(t.total_supply(), Ok(u(500)));
}

#[test]
fn test_zero_amount_operations() {
    let (owner, recipient) = (addr(1), addr(2));
    let mut t = deployed(owner, 10_000);
    assert_eq!(t.transfer(owner, recipient, U256::zero()), Ok(true));
    assert_eq!(balance(&t, owner), u(10_000));
    assert_eq!(balance(&t, recipient), U256::zero());
    assert_eq!(t.allowance(owner, recipient), Ok(U256::zero()));
}

#[test]
fn zero_transfer_changes_no_balance_even_from_an_empty_account() {
    let (a, b) = (addr(1), addr(2));
    let mut t = deployed(a, 50);
    assert_eq!(t.transfer(b, a, U256::zero()), Ok(true));
    assert_eq!(balance(&t, a), u(50));
    assert_eq!(balance(&t, b), U256::zero());
}

#[test]
fn transfer_errors() {
    let (a, b) = (addr(1), addr(2));
    let mut t = deployed(a, 100);
    assert_eq!(t.transfer(a, Address::zero(), u(1)), Err(ERC20Error::ZeroAddress));
    assert_eq!(
        t.transfer(a, b, u(101)),
        Err(ERC20Error::InsufficientBalance { balance: u(100), required: u(101) })
    );
    t.pause(a).unwrap();
    assert_eq!(t.transfer(a, b, u(1)), Err(ERC20Error::ContractPaused));
    assert_eq!(balance(&t, a), u(100));
}

#[test]
fn test_approve_then_transfer_from_flow() {
    let (owner, spender, to) = (addr(1), addr(2), addr(3));
    let mut t = deployed(owner, 5_000);
    t.approve(owner, spender, u(1000)).unwrap();
    assert_eq!(t.allowance(owner, spender), Ok(u(1000)));
    t.transfer_from(spender, owner, to, u(300)).unwrap();
    assert_eq!(t.allowance(owner, spender), Ok(u(700)));
    t.transfer_from(spender, owner, to, u(700)).unwrap();
    assert_eq!(t.allowance(owner, spender), Ok(U256::zero()));
    assert_eq!(balance(&t, owner), u(4_000));
}

#[test]
fn transfer_from_errors_change_nothing() {
    let (owner, spender, to) = (addr(1), addr(2), addr(3));
    let mut t = deployed(owner, 100);
    t.approve(owner, spender, u(50)).unwrap();
    assert_eq!(
        t.transfer_from(spender, owner, to, u(60)),
        Err(ERC20Error::InsufficientAllowance { allowance: u(50), required: u(60) })
    );
    t.approve(owner, spender, u(500)).unwrap();
    assert_eq!(
        t.transfer_from(spender, owner, to, u(200)),
        Err(ERC20Error::InsufficientBalance { balance: u(100), required: u(200) })
    );
    assert_eq!(t.allowance(owner, spender), Ok(u(500)));
    assert_eq!(balance(&t, owner), u(100));
}

#[test]
fn test_maximum_allowance_scenario() {
    let (owner, spender, to) = (addr(1), addr(2), addr(3));
    let mut t = deployed(owner, 1_000_000);
    t.approve(owner, spender, U256::max()).unwrap();
    assert_eq!(t.allowance(owner, spender), Ok(U256::max()));
    t.transfer_from(spender, owner, to, u(100)).unwrap();
    assert_eq!(t.allowance(owner, spender), Ok(U256::max().checked_sub(&u(100)).unwrap()));
}

#[test]
fn test_allowance_decrease_safety() {
    let (owner, spender) = (addr(1), addr(2));
    let mut t = deployed(owner, 0);
    t.approve(owner, spender, u(500)).unwrap();
    t.decrease_allowance(owner, spender, u(200)).unwrap();
    assert_eq!(t.allowance(owner, spender), Ok(u(300)));
    assert_eq!(
        t.decrease_allowance(owner, spender, u(600)),
        Err(ERC20Error::InsufficientAllowance { allowance: u(300), required: u(600) })
    );
    assert_eq!(t.allowance(owner, spender), Ok(u(300)));
}

#[test]
fn approve_then_decrease_by_the_same_amount() {
    let (o, s) = (addr(1), addr(2));
    let mut t = deployed(o, 0);
    t.approve(o, s, u(777)).unwrap();
    assert_eq!(
        t.decrease_allowance(o, s, u(778)),
        Err(ERC20Error::InsufficientAllowance { allowance: u(777), required: u(778) })
    );
    assert_eq!(t.allowance(o, s), Ok(u(777)));
    assert_eq!(t.decrease_allowance(o, s, u(777)), Ok(true));
    assert_eq!(t.allowance(o, s), Ok(U256::zero()));
}

#[test]
fn increase_allowance_adds_and_checks_overflow() {
    let (o, s) = (addr(1), addr(2));
    let mut t = deployed(o, 0);
    t.increase_allowance(o, s, u(40)).unwrap();
    t.increase_allowance(o, s, u(2)).unwrap();
    assert_eq!(t.allowance(o, s), Ok(u(42)));
    assert_eq!(t.increase_allowance(o, s, U256::max()), Err(ERC20Error::InvalidAmount));
    assert_eq!(t.approve(o, Address::zero(), u(1)), Err(ERC20Error::ZeroAddress));
    assert_eq!(t.allowance(o, s), Ok(u(42)));
}

// ---------------------------------------------------------------------------
// Mint and burn

#[test]
fn test_mint_then_burn_flow() {
    let (owner, recipient) = (addr(1), addr(2));
    let mut t = deployed(owner, 1_000_000);
    t.mint(owner, recipient, u(100_000)).unwrap();
    assert_eq!(balance(&t, recipient), u(100_000));
    assert_eq!(t.total_supply(), Ok(u(1_100_000)));
    t.burn(recipient, u(50_000)).unwrap();
    assert_eq!(balance(&t, recipient), u(50_000));
    assert_eq!(t.total_supply(), Ok(u(1_050_000)));
}

#[test]
fn mint_and_burn_errors() {
    let (owner, other) = (addr(1), addr(2));
    let mut t = deployed(owner, 10);
    assert_eq!(t.mint(other, other, u(1)), Err(ERC20Error::NotOwner { caller: other, owner }));
    assert_eq!(t.mint(owner, Address::zero(), u(1)), Err(ERC20Error::ZeroAddress));
    assert_eq!(t.mint(owner, other, U256::max()), Err(ERC20Error::InvalidAmount));
    assert_eq!(
        t.burn(owner, u(11)),
        Err(ERC20Error::InsufficientBalance { balance: u(10), required: u(11) })
    );
    assert_eq!(t.total_supply(), Ok(u(10)));
}

#[test]
fn burn_from_consumes_allowance() {
    let (owner, spender) = (addr(1), addr(2));
    let mut t = deployed(owner, 1_000);
    t.approve(owner, spender, u(300)).unwrap();
    assert_eq!(t.burn_from(spender, owner, u(100)), Ok(true));
    assert_eq!(t.allowance(owner, spender), Ok(u(200)));
    assert_eq!(balance(&t, owner), u(900));
    assert_eq!(t.total_supply(), Ok(u(900)));
    assert_eq!(
        t.burn_from(spender, owner, u(201)),
        Err(ERC20Error::InsufficientAllowance { allowance: u(200), required: u(201) })
    );
    assert_eq!(t.burn_from(spender, Address::zero(), u(1)), Err(ERC20Error::ZeroAddress));
}

#[test]
fn test_ownership_transfer_then_mint() {
    let (first_owner, new_owner) = (addr(1), addr(2));
    let mut t = deployed(first_owner, 1_000_000);
    t.transfer_ownership(first_owner, new_owner).unwrap();
    assert_eq!(t.owner(), Ok(new_owner));
    t.mint(new_owner, new_owner, u(500_000)).unwrap();
    assert_eq!(t.total_supply(), Ok(u(1_500_000)));
    assert_eq!(t.mint(first_owner, first_owner, u(1)), Err(ERC20Error::NotOwner { caller: first_owner, owner: new_owner }));
}

#[test]
fn test_renounce_ownership() {
    let owner = addr(1);
    let mut t = deployed(owner, 0);
    t.renounce_ownership(owner).unwrap();
    assert_eq!(t.owner(), Ok(Address::zero()));
    assert!(t.pause(owner).is_err());
}

// ---------------------------------------------------------------------------
// Supply cap

#[test]
fn test_supply_cap_initialization() {
    let owner = addr(1);
    let mut t = deployed(owner, 0);
    assert_eq!(t.supply_cap_enabled(), Ok(false));
    t.set_supply_cap_enabled(owner, true).unwrap();
    let one_billion = u(1_000_000_000_000_000_000_000_000_000);
    t.set_supply_cap(owner, one_billion).unwrap();
    assert_eq!(t.supply_cap_enabled(), Ok(true));
    assert_eq!(t.supply_cap(), Ok(one_billion));
}

#[test]
fn test_supply_cap_enforcement() {
    let owner = addr(1);
    let cap = u(1_000_000_000_000_000_000_000_000_000);
    let mut t = deployed(owner, 500_000_000_000_000_000_000_000_000);
    t.set_supply_cap(owner, cap).unwrap();
    t.set_supply_cap_enabled(owner, true).unwrap();
    assert_eq!(
        t.mint(owner, owner, u(600_000_000_000_000_000_000_000_000)),
        Err(ERC20Error::SupplyCapExceeded { current_supply: u(500_000_000_000_000_000_000_000_000), cap })
    );
    assert_eq!(t.total_supply(), Ok(u(500_000_000_000_000_000_000_000_000)));
    t.mint(owner, owner, u(100_000_000_000_000_000_000_000_000)).unwrap();
    assert_eq!(t.total_supply(), Ok(u(600_000_000_000_000_000_000_000_000)));
}

#[test]
fn minting_exactly_up_to_the_cap_succeeds() {
    let owner = addr(1);
    let mut t = deployed(owner, 900);
    t.set_supply_cap(owner, u(1_000)).unwrap();
    t.set_supply_cap_enabled(owner, true).unwrap();
    assert_eq!(
        t.mint_with_checks(owner, addr(2), u(101)),
        Err(ERC20Error::SupplyCapExceeded { current_supply: u(900), cap: u(1_000) })
    );
    assert_eq!(t.total_supply(), Ok(u(900)));
    assert_eq!(t.mint_with_checks(owner, addr(2), u(100)), Ok(true));
    assert_eq!(t.total_supply(), Ok(u(1_000)));
}

#[test]
fn test_supply_cap_cannot_increase() {
    let owner = addr(1);
    let mut t = deployed(owner, 0);
    t.set_supply_cap(owner, u(2_000_000_000_000_000_000_000_000_000)).unwrap();
    assert_eq!(t.set_supply_cap(owner, u(1_000_000_000_000_000_000_000_000_000)), Ok(true));
    assert_eq!(
        t.set_supply_cap(owner, u(3_000_000_000_000_000_000_000_000_000)),
        Err(ERC20Error::CannotDecreaseSupplyCap)
    );
    assert_eq!(t.supply_cap(), Ok(u(1_000_000_000_000_000_000_000_000_000)));
}

#[test]
fn test_supply_cap_below_current_supply_fails() {
    let owner = addr(1);
    let mut t = deployed(owner, 1_000_000_000_000_000_000_000_000_000);
    assert_eq!(
        t.set_supply_cap(owner, u(500_000_000_000_000_000_000_000_000)),
        Err(ERC20Error::SupplyCapExceeded {
            current_supply: u(1_000_000_000_000_000_000_000_000_000),
            cap: u(500_000_000_000_000_000_000_000_000),
        })
    );
}

// ---------------------------------------------------------------------------
// Roles

#[test]
fn test_role_check() {
    let (minter, non_minter) = (addr(1), addr(2));
    let t = deployed(minter, 0);
    assert_eq!(t.has_role(MINTER_ROLE, minter), Ok(true));
    assert_eq!(t.has_role(MINTER_ROLE, non_minter), Ok(false));
}

#[test]
fn test_role_grant() {
    let (admin, new_minter) = (addr(1), addr(2));
    let mut t = deployed(admin, 0);
    t.grant_role(admin, MINTER_ROLE, new_minter).unwrap();
    assert_eq!(t.has_role(MINTER_ROLE, new_minter), Ok(true));
}

#[test]
fn test_role_revoke() {
    let admin = addr(9);
    let mut t = deployed(admin, 0);
    for n in 1..=3 {
        t.grant_role(admin, MINTER_ROLE, addr(n)).unwrap();
    }
    let to_revoke = addr(2);
    assert_eq!(t.has_role(MINTER_ROLE, to_revoke), Ok(true));
    t.revoke_role(admin, MINTER_ROLE, to_revoke).unwrap();
    assert_eq!(t.has_role(MINTER_ROLE, to_revoke), Ok(false));
    assert_eq!(t.has_role(MINTER_ROLE, addr(1)), Ok(true));
    assert_eq!(t.has_role(MINTER_ROLE, addr(3)), Ok(true));
}

#[test]
fn test_role_cannot_grant_to_zero_address() {
    let admin = addr(1);
    let mut t = deployed(admin, 0);
    assert_eq!(t.grant_role(admin, MINTER_ROLE, Address::zero()), Err(ERC20Error::ZeroAddress));
}

#[test]
fn granting_twice_and_revoking_twice_fail() {
    let (admin, a) = (addr(1), addr(2));
    let mut t = deployed(admin, 0);
    assert_eq!(t.grant_role(admin, PAUSER_ROLE, a), Ok(true));
    assert_eq!(
        t.grant_role(admin, PAUSER_ROLE, a),
        Err(ERC20Error::RoleAlreadyGranted { role: PAUSER_ROLE, account: a })
    );
    assert_eq!(t.revoke_role(admin, PAUSER_ROLE, a), Ok(true));
    assert_eq!(
        t.revoke_role(admin, PAUSER_ROLE, a),
        Err(ERC20Error::RoleAlreadyRevoked { role: PAUSER_ROLE, account: a })
    );
}

#[test]
fn only_role_admins_grant() {
    let (admin, outsider) = (addr(1), addr(2));
    let mut t = deployed(admin, 0);
    assert_eq!(
        t.grant_role(outsider, MINTER_ROLE, outsider),
        Err(ERC20Error::AccessDenied { account: outsider, role: ADMIN_ROLE })
    );
    assert_eq!(
        t.mint_with_checks(outsider, outsider, u(1)),
        Err(ERC20Error::AccessDenied { account: outsider, role: MINTER_ROLE })
    );
}

#[test]
fn test_role_renunciation() {
    let holder = addr(1);
    let mut t = deployed(holder, 0);
    assert_eq!(t.has_role(MINTER_ROLE, holder), Ok(true));
    assert_eq!(t.has_role(PAUSER_ROLE, holder), Ok(true));
    t.renounce_role(holder, MINTER_ROLE).unwrap();
    t.renounce_role(holder, PAUSER_ROLE).unwrap();
    assert_eq!(t.has_role(MINTER_ROLE, holder), Ok(false));
    assert_eq!(t.has_role(PAUSER_ROLE, holder), Ok(false));
    assert_eq!(t.renounce_role(holder, PAUSER_ROLE), Ok(true));
}

// ---------------------------------------------------------------------------
// Pause

#[test]
fn test_pause_unpause_workflow() {
    let owner = addr(1);
    let mut t = deployed(owner, 0);
    assert_eq!(t.paused(), Ok(false));
    t.pause(owner).unwrap();
    assert_eq!(t.paused(), Ok(true));
    t.unpause(owner).unwrap();
    assert_eq!(t.paused(), Ok(false));
}

#[test]
fn pause_errors() {
    let (owner, other) = (addr(1), addr(2));
    let mut t = deployed(owner, 0);
    assert_eq!(t.unpause(owner), Err(ERC20Error::NotContractPaused));
    assert_eq!(t.pause_with_role(other), Err(ERC20Error::AccessDenied { account: other, role: PAUSER_ROLE }));
    assert_eq!(t.pause_with_role(owner), Ok(true));
    assert_eq!(t.pause(owner), Err(ERC20Error::ContractPaused));
    assert_eq!(t.unpause_with_role(owner), Ok(true));
    assert_eq!(t.paused(), Ok(false));
}

// ---------------------------------------------------------------------------
// Blacklist

#[test]
fn test_blacklist_initialization() {
    let owner = addr(1);
    let mut t = deployed(owner, 0);
    assert_eq!(t.blacklist_enabled(), Ok(false));
    t.set_blacklist_enabled(owner, true).unwrap();
    assert_eq!(t.blacklist_enabled(), Ok(true));
}

#[test]
fn test_blacklist_enabled_toggle() {
    let owner = addr(1);
    let mut t = deployed(owner, 0);
    assert_eq!(t.blacklist_enabled(), Ok(false));
    t.set_blacklist_enabled(owner, true).unwrap();
    assert_eq!(t.blacklist_enabled(), Ok(true));
    t.set_blacklist_enabled(owner, false).unwrap();
    assert_eq!(t.blacklist_enabled(), Ok(false));
}

#[test]
fn test_blacklist_address() {
    let owner = addr(9);
    let suspicious = addr(1);
    let mut t = deployed(owner, 0);
    t.blacklist(owner, suspicious).unwrap();
    assert_eq!(t.is_blacklisted(suspicious), Ok(true));
    assert_eq!(t.blacklist(owner, suspicious), Err(ERC20Error::AddressBlacklisted { account: suspicious }));
}

#[test]
fn test_blacklist_transfer_blocked() {
    let owner = addr(9);
    let (blacklisted, recipient) = (addr(1), addr(2));
    let mut t = deployed(owner, 1_000);
    t.transfer(owner, blacklisted, u(100)).unwrap();
    t.blacklist(owner, blacklisted).unwrap();
    t.set_blacklist_enabled(owner, true).unwrap();
    assert_eq!(
        t.transfer_with_checks(blacklisted, recipient, u(10)),
        Err(ERC20Error::AddressBlacklisted { account: blacklisted })
    );
    assert_eq!(
        t.transfer_with_checks(owner, blacklisted, u(10)),
        Err(ERC20Error::AddressBlacklisted { account: blacklisted })
    );
    assert_eq!(balance(&t, blacklisted), u(100));
    t.set_blacklist_enabled(owner, false).unwrap();
    assert_eq!(t.transfer_with_checks(blacklisted, recipient, u(10)), Ok(true));
}

#[test]
fn transfer_from_with_checks_consults_the_blacklist() {
    let owner = addr(9);
    let (spender, to) = (addr(1), addr(2));
    let mut t = deployed(owner, 1_000);
    t.approve(owner, spender, u(100)).unwrap();
    t.blacklist(owner, to).unwrap();
    t.set_blacklist_enabled(owner, true).unwrap();
    assert_eq!(
        t.transfer_from_with_checks(spender, owner, to, u(10)),
        Err(ERC20Error::AddressBlacklisted { account: to })
    );
    assert_eq!(t.allowance(owner, spender), Ok(u(100)));
    assert_eq!(t.transfer_from_with_checks(spender, owner, addr(3), u(10)), Ok(true));
    assert_eq!(t.allowance(owner, spender), Ok(u(90)));
    assert_eq!(balance(&t, addr(3)), u(10));
}

#[test]
fn test_unblacklist_address() {
    let owner = addr(9);
    let address = addr(1);
    let mut t = deployed(owner, 0);
    t.blacklist(owner, address).unwrap();
    assert_eq!(t.is_blacklisted(address), Ok(true));
    t.unblacklist(owner, address).unwrap();
    assert_eq!(t.is_blacklisted(address), Ok(false));
    assert_eq!(t.unblacklist(owner, address), Err(ERC20Error::AddressNotBlacklisted { account: address }));
}

#[test]
fn test_cannot_blacklist_zero_address() {
    let owner = addr(1);
    let mut t = deployed(owner, 0);
    assert_eq!(t.blacklist(owner, Address::zero()), Err(ERC20Error::ZeroAddress));
}

#[test]
fn whitelist_is_recorded() {
    let owner = addr(1);
    let mut t = deployed(owner, 100);
    t.add_to_whitelist(owner, addr(2)).unwrap();
    assert_eq!(t.is_transfer_whitelisted(addr(2)), Ok(true));
    t.set_transfer_restrictions_enabled(owner, true).unwrap();
    assert_eq!(t.transfer_restrictions_enabled(), Ok(true));
    assert_eq!(t.transfer_with_checks(owner, addr(3), u(5)), Ok(true));
    t.remove_from_whitelist(owner, addr(2)).unwrap();
    assert_eq!(t.is_transfer_whitelisted(addr(2)), Ok(false));
}

// ---------------------------------------------------------------------------
// Snapshots

#[test]
fn test_snapshot_initialization() {
    let t = deployed(addr(1), 0);
    assert_eq!(t.current_snapshot_id(), Ok(U256::zero()));
    assert_eq!(t.next_snapshot_id(), Ok(u(1)));
}

#[test]
fn test_take_snapshot() {
    let owner = addr(1);
    let mut t = deployed(owner, 0);
    assert_eq!(t.snapshot(owner), Ok(u(1)));
    assert_eq!(t.current_snapshot_id(), Ok(u(1)));
}

#[test]
fn test_finalize_snapshot() {
    let owner = addr(1);
    let mut t = deployed(owner, 0);
    t.snapshot(owner).unwrap();
    assert_eq!(t.finalize_snapshot(owner), Ok(u(1)));
    assert_eq!(t.current_snapshot_id(), Ok(U256::zero()));
    assert_eq!(t.next_snapshot_id(), Ok(u(2)));
}

#[test]
fn test_snapshot_cannot_take_when_in_progress() {
    let owner = addr(1);
    let mut t = deployed(owner, 0);
    t.snapshot(owner).unwrap();
    assert_ne!(t.current_snapshot_id(), Ok(U256::zero()));
    assert_eq!(t.snapshot(owner), Err(ERC20Error::SnapshotInProgress));
}

#[test]
fn snapshot_errors() {
    let owner = addr(1);
    let mut t = deployed(owner, 0);
    assert_eq!(t.finalize_snapshot(owner), Err(ERC20Error::SnapshotNotFound { snapshot_id: U256::zero() }));
    t.snapshot(owner).unwrap();
    assert_eq!(t.balance_of_at(owner, u(1)), Err(ERC20Error::SnapshotNotFound { snapshot_id: u(1) }));
    assert_eq!(t.total_supply_at(U256::zero()), Err(ERC20Error::SnapshotNotFound { snapshot_id: U256::zero() }));
}

#[test]
fn test_snapshot_balance_tracking() {
    let owner = addr(9);
    let user = addr(1);
    let mut t = deployed(owner, 0);
    t.mint(owner, user, u(10_000)).unwrap();
    let id = t.snapshot(owner).unwrap();
    t.finalize_snapshot(owner).unwrap();
    t.mint(owner, user, u(5_000)).unwrap();
    assert_eq!(t.balance_of_at(user, id), Ok(u(10_000)));
    assert_eq!(balance(&t, user), u(15_000));
}

#[test]
fn test_snapshot_total_supply_tracking() {
    let owner = addr(1);
    let mut t = deployed(owner, 1_000_000);
    let id = t.snapshot(owner).unwrap();
    t.finalize_snapshot(owner).unwrap();
    t.mint(owner, owner, u(100_000)).unwrap();
    assert_eq!(t.total_supply_at(id), Ok(u(1_000_000)));
    assert_eq!(t.total_supply(), Ok(u(1_100_000)));
}

#[test]
fn test_governance_snapshot_scenario() {
    let owner = addr(9);
    let mut t = deployed(owner, 0);
    let voters = [(addr(1), 100_000u128), (addr(2), 200_000), (addr(3), 300_000)];
    for (v, b) in voters.iter() {
        t.mint(owner, *v, u(*b)).unwrap();
    }
    let id = t.snapshot(owner).unwrap();
    t.finalize_snapshot(owner).unwrap();
    assert_eq!(id, u(1));
    t.transfer(addr(3), addr(4), u(300_000)).unwrap();
    let mut total = U256::zero();
    for (v, b) in voters.iter() {
        let at = t.balance_of_at(*v, id).unwrap();
        assert_eq!(at, u(*b));
        total = total.checked_add(&at).unwrap();
    }
    assert_eq!(total, u(600_000));
    assert_eq!(t.total_supply_at(id), Ok(u(600_000)));
    assert_eq!(t.balance_of_at(addr(4), id), Ok(U256::zero()));
}

// ---------------------------------------------------------------------------
// Time-locked ownership transfer

#[test]
fn test_initiate_ownership_transfer() {
    let (owner, new_owner) = (addr(1), addr(2));
    let mut t = deployed(owner, 0);
    t.initiate_ownership_transfer(owner, 1000, new_owner).unwrap();
    assert_eq!(t.pending_owner(), Ok(new_owner));
    assert_ne!(t.ownership_unlock_time(), Ok(U256::zero()));
    assert_eq!(t.ownership_unlock_time(), Ok(u(1000 + 48 * 60 * 60)));
}

#[test]
fn time_lock_example_boundary() {
    let (owner, new_owner) = (addr(1), addr(2));
    let mut t = deployed(owner, 0);
    assert_eq!(t.ownership_transfer_delay(), Ok(u(172_800)));
    t.initiate_ownership_transfer(owner, 1000, new_owner).unwrap();
    assert_eq!(t.ownership_unlock_time(), Ok(u(173_800)));
    assert_eq!(
        t.accept_ownership(new_owner, 173_799),
        Err(ERC20Error::OwnershipTransferNotYetUnlockable { current_time: u(173_799), unlock_time: u(173_800) })
    );
    assert_eq!(t.owner(), Ok(owner));
    assert_eq!(t.accept_ownership(new_owner, 173_800), Ok(true));
    assert_eq!(t.owner(), Ok(new_owner));
    assert_eq!(t.pending_owner(), Ok(Address::zero()));
    assert_eq!(t.ownership_unlock_time(), Ok(U256::zero()));
}

#[test]
fn test_accept_ownership_before_unlock_fails() {
    let (owner, pending) = (addr(9), addr(1));
    let mut t = deployed(owner, 0);
    t.set_ownership_transfer_delay(owner, u(1000)).unwrap();
    t.initiate_ownership_transfer(owner, 1000, pending).unwrap();
    assert_eq!(t.ownership_unlock_time(), Ok(u(2000)));
    assert!(t.accept_ownership(pending, 1500).is_err());
}

#[test]
fn test_accept_ownership_after_unlock_succeeds() {
    let (owner, pending) = (addr(9), addr(1));
    let mut t = deployed(owner, 0);
    t.set_ownership_transfer_delay(owner, u(1000)).unwrap();
    t.initiate_ownership_transfer(owner, 1000, pending).unwrap();
    assert_eq!(t.accept_ownership(pending, 2500), Ok(true));
    assert_eq!(t.owner(), Ok(pending));
}

#[test]
fn accept_by_someone_else_fails() {
    let (owner, pending, other) = (addr(9), addr(1), addr(2));
    let mut t = deployed(owner, 0);
    assert_eq!(t.accept_ownership(pending, 0), Err(ERC20Error::NoPendingOwnershipTransfer));
    t.initiate_ownership_transfer(owner, 0, pending).unwrap();
    assert_eq!(t.accept_ownership(other, u64::MAX), Err(ERC20Error::NotOwner { caller: other, owner: pending }));
}

#[test]
fn test_cancel_ownership_transfer() {
    let (owner, pending) = (addr(1), addr(2));
    let mut t = deployed(owner, 0);
    t.initiate_ownership_transfer(owner, 0, pending).unwrap();
    assert_eq!(t.pending_owner(), Ok(pending));
    t.cancel_ownership_transfer(owner).unwrap();
    assert_eq!(t.pending_owner(), Ok(Address::zero()));
    assert_eq!(t.cancel_ownership_transfer(owner), Err(ERC20Error::NoPendingOwnershipTransfer));
}

#[test]
fn test_new_transfer_cancels_old() {
    let owner = addr(1);
    let (first_pending, new_pending) = (addr(2), addr(3));
    let mut t = deployed(owner, 0);
    t.initiate_ownership_transfer(owner, 0, first_pending).unwrap();
    t.initiate_ownership_transfer(owner, 10, new_pending).unwrap();
    assert_ne!(t.pending_owner(), Ok(first_pending));
    assert_eq!(t.pending_owner(), Ok(new_pending));
    assert_eq!(t.accept_ownership(first_pending, u64::MAX), Err(ERC20Error::NotOwner { caller: first_pending, owner: new_pending }));
}

#[test]
fn test_set_ownership_transfer_delay() {
    let owner = addr(1);
    let mut t = deployed(owner, 0);
    t.set_ownership_transfer_delay(owner, u(72 * 60 * 60)).unwrap();
    assert_eq!(t.ownership_transfer_delay(), Ok(u(72 * 60 * 60)));
}

#[test]
fn test_cannot_initiate_transfer_to_zero() {
    let owner = addr(1);
    let mut t = deployed(owner, 0);
    assert_eq!(t.initiate_ownership_transfer(owner, 0, Address::zero()), Err(ERC20Error::ZeroAddress));
}

#[test]
fn unlock_time_overflow_is_refused() {
    let owner = addr(1);
    let mut t = deployed(owner, 0);
    t.set_ownership_transfer_delay(owner, U256::max()).unwrap();
    assert_eq!(t.initiate_ownership_transfer(owner, 1, addr(2)), Err(ERC20Error::InvalidAmount));
    assert_eq!(t.pending_owner(), Ok(Address::zero()));
}

// ---------------------------------------------------------------------------
// Emergency roles

#[test]
fn test_emergency_admin() {
    let (owner, emergency_admin) = (addr(1), addr(2));
    let mut t = deployed(owner, 0);
    t.set_emergency_admin(owner, emergency_admin).unwrap();
    assert_eq!(t.emergency_admin(), Ok(emergency_admin));
}

#[test]
fn test_guardian_setup() {
    let (owner, guardian) = (addr(1), addr(2));
    let mut t = deployed(owner, 0);
    t.set_guardian(owner, guardian).unwrap();
    assert_eq!(t.guardian(), Ok(guardian));
    assert_eq!(t.guardian_pause(guardian), Ok(true));
}

#[test]
fn test_guardian_pause() {
    let (owner, guardian) = (addr(9), addr(1));
    let mut t = deployed(owner, 0);
    t.set_guardian(owner, guardian).unwrap();
    t.guardian_pause(guardian).unwrap();
    assert_eq!(t.paused(), Ok(true));
    assert_eq!(t.guardian_pause(guardian), Err(ERC20Error::ContractPaused));
}

#[test]
fn test_guardian_pause_by_non_guardian_fails() {
    let (owner, guardian, non_guardian) = (addr(9), addr(1), addr(2));
    let mut t = deployed(owner, 0);
    t.set_guardian(owner, guardian).unwrap();
    assert_eq!(
        t.guardian_pause(non_guardian),
        Err(ERC20Error::AccessDenied { account: non_guardian, role: PAUSER_ROLE })
    );
    assert_eq!(t.paused(), Ok(false));
}

#[test]
fn guardian_unset_cannot_pause() {
    let owner = addr(9);
    let mut t = deployed(owner, 0);
    t.set_guardian(owner, Address::zero()).unwrap();
    assert_eq!(
        t.guardian_pause(Address::zero()),
        Err(ERC20Error::AccessDenied { account: Address::zero(), role: PAUSER_ROLE })
    );
}

#[test]
fn minting_limits_are_recorded() {
    let owner = addr(1);
    let mut t = deployed(owner, 0);
    t.set_minting_limits(owner, u(1_000), u(3_600)).unwrap();
    assert_eq!(t.minting_period_limit(), Ok(u(1_000)));
    assert_eq!(t.minting_period_duration(), Ok(u(3_600)));
    assert_eq!(t.set_minting_limits(addr(2), u(1), u(1)), Err(ERC20Error::NotOwner { caller: addr(2), owner }));
}

// ---------------------------------------------------------------------------
// Batches

#[test]
fn test_batch_transfer_length_mismatch() {
    let sender = addr(9);
    let mut t = deployed(sender, 10_000);
    let recipients = vec![addr(1), addr(2), addr(3)];
    let amounts = vec![u(100), u(200)];
    assert_eq!(t.batch_transfer(sender, recipients, amounts), Err(ERC20Error::BatchTransferLengthMismatch));
    assert_eq!(balance(&t, sender), u(10_000));
    for n in 1..=3 {
        assert_eq!(balance(&t, addr(n)), U256::zero());
    }
}

#[test]
fn test_batch_transfer_success() {
    let sender = addr(1);
    let mut t = deployed(sender, 10_000);
    let recipients = vec![addr(2), addr(3), addr(4)];
    let amounts = vec![u(100), u(200), u(300)];
    assert_eq!(t.batch_transfer(sender, recipients, amounts), Ok(true));
    assert_eq!(balance(&t, sender), u(9_400));
    assert_eq!(balance(&t, addr(2)), u(100));
    assert_eq!(balance(&t, addr(3)), u(200));
    assert_eq!(balance(&t, addr(4)), u(300));
}

#[test]
fn batch_transfer_failure_rolls_everything_back() {
    let sender = addr(1);
    let mut t = deployed(sender, 1_000);
    let recipients = vec![addr(2), addr(3), addr(4)];
    let amounts = vec![u(400), u(500), u(200)];
    assert_eq!(
        t.batch_transfer(sender, recipients, amounts),
        Err(ERC20Error::InsufficientBalance { balance: u(100), required: u(200) })
    );
    assert_eq!(balance(&t, sender), u(1_000));
    assert_eq!(balance(&t, addr(2)), U256::zero());
    assert_eq!(balance(&t, addr(3)), U256::zero());
    let with_null = vec![addr(2), Address::zero()];
    assert_eq!(t.batch_transfer(sender, with_null, vec![u(1), u(1)]), Err(ERC20Error::ZeroAddress));
    assert_eq!(balance(&t, addr(2)), U256::zero());
}

#[test]
fn test_batch_approve_length_mismatch() {
    let owner = addr(9);
    let mut t = deployed(owner, 0);
    let spenders = vec![addr(1), addr(2)];
    let amounts = vec![u(100), u(200), u(300)];
    assert_eq!(t.batch_approve(owner, spenders, amounts), Err(ERC20Error::BatchApproveLengthMismatch));
}

#[test]
fn test_batch_approve_success() {
    let owner = addr(1);
    let mut t = deployed(owner, 0);
    let spenders = vec![addr(2), addr(3)];
    let amounts = vec![u(1000), u(2000)];
    assert_eq!(t.batch_approve(owner, spenders, amounts), Ok(true));
    assert_eq!(t.allowance(owner, addr(2)), Ok(u(1000)));
    assert_eq!(t.allowance(owner, addr(3)), Ok(u(2000)));
}

#[test]
fn batch_approve_with_a_null_spender_approves_nothing() {
    let owner = addr(1);
    let mut t = deployed(owner, 0);
    let spenders = vec![addr(2), Address::zero()];
    assert_eq!(t.batch_approve(owner, spenders, vec![u(5), u(6)]), Err(ERC20Error::ZeroAddress));
    assert_eq!(t.allowance(owner, addr(2)), Ok(U256::zero()));
    t.pause(owner).unwrap();
    assert_eq!(t.batch_approve(owner, vec![addr(2)], vec![u(5)]), Err(ERC20Error::ContractPaused));
}

// ---------------------------------------------------------------------------
// Scenarios

#[test]
fn test_full_production_deployment_scenario() {
    let (owner, admin_multisig, emergency_multisig, regular_minter) = (addr(1), addr(2), addr(3), addr(4));
    let mut t = deployed(owner, 1_000_000_000_000_000_000_000_000_000);
    t.grant_role(owner, ADMIN_ROLE, admin_multisig).unwrap();
    t.grant_role(admin_multisig, MINTER_ROLE, regular_minter).unwrap();
    t.set_supply_cap(owner, u(10_000_000_000_000_000_000_000_000_000)).unwrap();
    t.set_supply_cap_enabled(owner, true).unwrap();
    t.set_blacklist_enabled(owner, true).unwrap();
    t.set_guardian(owner, emergency_multisig).unwrap();

    assert_eq!(t.has_role(ADMIN_ROLE, owner), Ok(true));
    assert_eq!(t.has_role(ADMIN_ROLE, admin_multisig), Ok(true));
    assert_eq!(t.has_role(MINTER_ROLE, regular_minter), Ok(true));
    assert_eq!(t.supply_cap_enabled(), Ok(true));
    assert_eq!(t.blacklist_enabled(), Ok(true));
    assert_eq!(t.guardian(), Ok(emergency_multisig));
    assert_eq!(t.ownership_transfer_delay(), Ok(u(48 * 60 * 60)));
    assert_eq!(t.mint_with_checks(regular_minter, regular_minter, u(5)), Ok(true));
}

#[test]
fn test_security_incident_response_scenario() {
    let (owner, attacker) = (addr(1), addr(2));
    let mut t = deployed(owner, 1_000);
    t.transfer(owner, attacker, u(100)).unwrap();
    t.pause(owner).unwrap();
    t.blacklist(owner, attacker).unwrap();
    t.set_blacklist_enabled(owner, true).unwrap();
    assert_eq!(t.paused(), Ok(true));
    assert_eq!(t.transfer(attacker, owner, u(1)), Err(ERC20Error::ContractPaused));
    t.unpause(owner).unwrap();
    assert_eq!(
        t.transfer_with_checks(attacker, owner, u(1)),
        Err(ERC20Error::AddressBlacklisted { account: attacker })
    );
    t.unblacklist(owner, attacker).unwrap();
    assert_eq!(t.is_blacklisted(attacker), Ok(false));
    assert_eq!(t.transfer_with_checks(attacker, owner, u(1)), Ok(true));
}

#[test]
fn cap_is_checked_before_overflow() {
    let owner = addr(1);
    let mut t = ERC20Token::new();
    t.initialize(START, String::from("T"), String::from("T"), 18, U256::max(), owner).unwrap();
    t.set_supply_cap_enabled(owner, true).unwrap();
    let past = Err(ERC20Error::SupplyCapExceeded { current_supply: U256::max(), cap: U256::max() });
    assert_eq!(t.mint(owner, addr(2), u(1)), past);
    assert_eq!(t.mint_with_checks(owner, addr(2), u(1)), past);
    assert_eq!(t.total_supply(), Ok(U256::max()));
    t.set_supply_cap_enabled(owner, false).unwrap();
    assert_eq!(t.mint(owner, addr(2), u(1)), Err(ERC20Error::InvalidAmount));
}

#[test]
fn cap_cannot_be_switched_on_below_the_supply() {
    let owner = addr(1);
    let mut t = deployed(owner, 100);
    t.set_supply_cap(owner, u(100)).unwrap();
    t.mint(owner, owner, u(50)).unwrap();
    assert_eq!(
        t.set_supply_cap_enabled(owner, true),
        Err(ERC20Error::SupplyCapExceeded { current_supply: u(150), cap: u(100) })
    );
    assert_eq!(t.supply_cap_enabled(), Ok(false));
    t.burn(owner, u(50)).unwrap();
    assert_eq!(t.set_supply_cap_enabled(owner, true), Ok(true));
}

#[test]
fn null_caller_is_never_the_owner() {
    let zero = Address::zero();
    let mut fresh = ERC20Token::new();
    assert_eq!(fresh.pause(zero), Err(ERC20Error::NotOwner { caller: zero, owner: zero }));
    assert_eq!(fresh.mint(zero, addr(1), u(5)), Err(ERC20Error::NotOwner { caller: zero, owner: zero }));
    let owner = addr(1);
    let mut t = deployed(owner, 0);
    t.renounce_ownership(owner).unwrap();
    assert_eq!(t.set_supply_cap(zero, u(1)), Err(ERC20Error::NotOwner { caller: zero, owner: zero }));
    assert_eq!(t.snapshot(zero), Err(ERC20Error::NotOwner { caller: zero, owner: zero }));
}
