use sol_token_manager::errors::SolTokenManagerError;
use sol_token_manager::state::SolTokenManager;
use sol_token_manager::swap::fixed_venue_config;
use sol_token_manager::swap::VenueQuote;

fn addr(b: u8) -> Vec<u8> {
    vec![b; 32]
}

fn initialized_manager(admin: u8) -> SolTokenManager {
    let mut m = SolTokenManager::new(addr(7));
    m.initialize(addr(admin)).unwrap();
    m
}

#[test]
fn derivation_is_deterministic() {
    let mut m1 = SolTokenManager::new(addr(7));
    m1.initialize(addr(1)).unwrap();
    let mut m2 = SolTokenManager::new(addr(7));
    m2.initialize(addr(1)).unwrap();
    let s1 = m1.state.as_ref().unwrap();
    let s2 = m2.state.as_ref().unwrap();
    assert_eq!(s1.program_vault, s2.program_vault);
    assert_eq!(s1.program_vault_bump, s2.program_vault_bump);
    assert_eq!(m1.rederive_vault_address(), s1.program_vault);
    assert_eq!(m2.rederive_vault_address(), s1.program_vault);
}

#[test]
fn derivation_matches_the_venue_runtime() {
    let m = initialized_manager(1);
    let st = m.state.as_ref().unwrap();
    let pid = anchor_lang::prelude::Pubkey::new_from_array([7u8; 32]);
    let (expected, bump) =
        anchor_lang::prelude::Pubkey::find_program_address(&[b"program_vault"], &pid);
    assert_eq!(st.program_vault, expected.to_bytes().to_vec());
    assert_eq!(st.program_vault_bump, bump);
    assert_ne!(st.program_vault, addr(7));
    assert_ne!(st.program_vault, b"program_vault".to_vec());
}

#[test]
fn initialize_is_callable_exactly_once() {
    let mut m = initialized_manager(1);
    let admin_before = m.state.as_ref().unwrap().admin.clone();
    let vault_before = m.state.as_ref().unwrap().program_vault.clone();
    let bump_before = m.state.as_ref().unwrap().program_vault_bump;
    let r = m.initialize(addr(2));
    assert_eq!(r, Err(SolTokenManagerError::AlreadyInitialized));
    let st = m.state.as_ref().unwrap();
    assert_eq!(st.admin, admin_before);
    assert_eq!(st.program_vault, vault_before);
    assert_eq!(st.program_vault_bump, bump_before);
}

#[test]
fn deposit_moves_exactly_the_amount() {
    let mut m = initialized_manager(1);
    let mut caller: u64 = 2_500;
    assert_eq!(m.deposit_sol(&mut caller, 1_000), Ok(()));
    assert_eq!(m.vault_lamports, 1_000);
    assert_eq!(caller, 1_500);
    assert_eq!(m.deposit_sol(&mut caller, 500), Ok(()));
    assert_eq!(m.vault_lamports, 1_500);
    assert_eq!(caller, 1_000);
}

#[test]
fn deposit_of_zero_is_a_no_op() {
    let mut m = initialized_manager(1);
    let mut caller: u64 = 100;
    assert_eq!(m.deposit_sol(&mut caller, 0), Ok(()));
    assert_eq!(m.vault_lamports, 0);
    assert_eq!(caller, 100);
}

#[test]
fn deposit_without_funds_changes_nothing() {
    let mut m = initialized_manager(1);
    let mut caller: u64 = 99;
    assert_eq!(
        m.deposit_sol(&mut caller, 100),
        Err(SolTokenManagerError::InsufficientBalance)
    );
    assert_eq!(m.vault_lamports, 0);
    assert_eq!(caller, 99);
}

#[test]
fn withdraw_succeeds_only_for_the_admin_with_cover() {
    let mut m = initialized_manager(1);
    let mut depositor: u64 = 1_000;
    m.deposit_sol(&mut depositor, 1_000).unwrap();

    let mut stranger_funds: u64 = 0;
    assert_eq!(
        m.withdraw_sol(&addr(2), &mut stranger_funds, 100),
        Err(SolTokenManagerError::Unauthorized)
    );
    assert_eq!(m.vault_lamports, 1_000);
    assert_eq!(stranger_funds, 0);

    let mut admin_funds: u64 = 0;
    assert_eq!(
        m.withdraw_sol(&addr(1), &mut admin_funds, 2_000),
        Err(SolTokenManagerError::InsufficientBalance)
    );
    assert_eq!(m.vault_lamports, 1_000);
    assert_eq!(admin_funds, 0);

    assert_eq!(m.withdraw_sol(&addr(1), &mut admin_funds, 400), Ok(()));
    assert_eq!(m.vault_lamports, 600);
    assert_eq!(admin_funds, 400);
}

#[test]
fn deposit_then_withdraw_restores_the_vault_balance() {
    let mut m = initialized_manager(1);
    let mut seed_funds: u64 = 300;
    m.deposit_sol(&mut seed_funds, 300).unwrap();
    let before = m.vault_lamports;

    let mut user: u64 = 5_000;
    m.deposit_sol(&mut user, 5_000).unwrap();
    let mut admin_funds: u64 = 0;
    m.withdraw_sol(&addr(1), &mut admin_funds, 5_000).unwrap();
    assert_eq!(m.vault_lamports, before);
    assert_eq!(admin_funds, 5_000);
}

#[test]
fn swap_success_forwards_at_least_the_floor() {
    let mut m = initialized_manager(1);
    let mut user: u64 = 900;
    m.deposit_sol(&mut user, 900).unwrap();
    let wsol_before = m.wsol_balance;

    let mut user_usdc: u64 = 10;
    let venue = VenueQuote { accounts_valid: true, amount_out: 1_500 };
    let r = m.buy_tokens(&mut user_usdc, 500, 1_000, &venue);
    assert_eq!(r, Ok(1_500));
    assert!(1_500 >= 1_000);
    assert_eq!(m.vault_lamports, 400);
    assert_eq!(m.wsol_balance, wsol_before);
    assert_eq!(m.usdc_balance, 0);
    assert_eq!(user_usdc, 1_510);
}

#[test]
fn swap_below_the_floor_aborts_without_effect() {
    let mut m = initialized_manager(1);
    let mut user: u64 = 900;
    m.deposit_sol(&mut user, 900).unwrap();

    let mut user_usdc: u64 = 0;
    let venue = VenueQuote { accounts_valid: true, amount_out: 900 };
    let r = m.buy_tokens(&mut user_usdc, 500, 1_000_000, &venue);
    assert_eq!(r, Err(SolTokenManagerError::SlippageExceeded));
    assert_eq!(m.vault_lamports, 900);
    assert_eq!(m.wsol_balance, 0);
    assert_eq!(m.usdc_balance, 0);
    assert_eq!(user_usdc, 0);
}

#[test]
fn swap_against_mismatched_venue_state_aborts() {
    let mut m = initialized_manager(1);
    let mut user: u64 = 900;
    m.deposit_sol(&mut user, 900).unwrap();

    let mut user_usdc: u64 = 0;
    let venue = VenueQuote { accounts_valid: false, amount_out: 5_000 };
    let r = m.buy_tokens(&mut user_usdc, 500, 1_000, &venue);
    assert_eq!(r, Err(SolTokenManagerError::InvalidVenueState));
    assert_eq!(m.vault_lamports, 900);
    assert_eq!(m.wsol_balance, 0);
    assert_eq!(user_usdc, 0);
}

#[test]
fn swap_without_custody_cover_aborts() {
    let mut m = initialized_manager(1);
    let mut user: u64 = 100;
    m.deposit_sol(&mut user, 100).unwrap();

    let mut user_usdc: u64 = 0;
    let venue = VenueQuote { accounts_valid: true, amount_out: 5_000 };
    let r = m.buy_tokens(&mut user_usdc, 500, 100, &venue);
    assert_eq!(r, Err(SolTokenManagerError::InsufficientBalance));
    assert_eq!(m.vault_lamports, 100);
    assert_eq!(user_usdc, 0);
}

#[test]
fn full_scenario_admin_gate_and_slippage() {
    // Registry admin = A (1). Deposit by B (2), a failed withdrawal by B, a
    // successful withdrawal by A, then a swap that the venue cannot fill.
    let mut m = initialized_manager(1);

    let mut b_funds: u64 = 1_000;
    assert_eq!(m.deposit_sol(&mut b_funds, 1_000), Ok(()));
    assert_eq!(m.vault_lamports, 1_000);

    let mut b_received: u64 = 0;
    assert_eq!(
        m.withdraw_sol(&addr(2), &mut b_received, 100),
        Err(SolTokenManagerError::Unauthorized)
    );
    assert_eq!(m.vault_lamports, 1_000);

    let mut a_funds: u64 = 0;
    assert_eq!(m.withdraw_sol(&addr(1), &mut a_funds, 100), Ok(()));
    assert_eq!(m.vault_lamports, 900);
    assert_eq!(a_funds, 100);

    let mut b_usdc: u64 = 0;
    let venue = VenueQuote { accounts_valid: true, amount_out: 900 };
    assert_eq!(
        m.buy_tokens(&mut b_usdc, 500, 1_000_000, &venue),
        Err(SolTokenManagerError::SlippageExceeded)
    );
    assert_eq!(m.vault_lamports, 900);
    assert_eq!(b_usdc, 0);
}

#[test]
fn venue_config_holds_the_fixed_parameters() {
    let c = fixed_venue_config();
    assert_eq!(c.price_limit, 0);
    assert!(c.base_to_quote);
    assert!(c.exact_input);
}
