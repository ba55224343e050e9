use anchor_looping::account::{AccountKey, AccountSlot};
use anchor_looping::deposit::Deposit;
use anchor_looping::looping::Looping;
use anchor_looping::repay::Repay;
use anchor_looping::swap::SwapError;
use anchor_looping::{deposit, looping, repay, FLAG_HAS_BORROWS, FLAG_HAS_COLLATERAL};

const REFRESH_RESERVE_TAG: [u8; 8] = [2, 218, 138, 235, 79, 201, 25, 102];
const REFRESH_OBLIGATION_TAG: [u8; 8] = [33, 132, 147, 228, 151, 192, 72, 89];
const DEPOSIT_TAG: [u8; 8] = [216, 224, 191, 27, 204, 151, 102, 175];
const BORROW_TAG: [u8; 8] = [161, 128, 143, 245, 171, 199, 194, 6];
const WITHDRAW_TAG: [u8; 8] = [235, 52, 119, 152, 149, 197, 20, 7];
const REPAY_TAG: [u8; 8] = [116, 174, 213, 76, 180, 53, 210, 144];
const SHARED_ACCOUNTS_ROUTE_TAG: [u8; 8] = [193, 32, 155, 51, 65, 214, 156, 129];
const EXACT_OUT_ROUTE_TAG: [u8; 8] = [208, 51, 239, 151, 123, 43, 237, 92];
const SHARED_ACCOUNTS_EXACT_OUT_ROUTE_TAG: [u8; 8] = [176, 209, 105, 168, 154, 125, 69, 62];

fn key(n: u8) -> AccountKey {
    AccountKey { bytes: [n; 32] }
}

fn tagged(tag: [u8; 8], amount: u64) -> Vec<u8> {
    let mut d = tag.to_vec();
    d.extend_from_slice(&amount.to_le_bytes());
    d
}

fn swap_payload(tag: [u8; 8], amount: u64, slippage_bps: u16) -> Vec<u8> {
    let mut d = tag.to_vec();
    d.extend_from_slice(&amount.to_le_bytes());
    d.extend_from_slice(&[0u8; 8]);
    d.extend_from_slice(&slippage_bps.to_le_bytes());
    d.push(0);
    d
}

fn make_deposit(reserve_borrow: Option<AccountKey>) -> Deposit {
    Deposit {
        payer: key(1),
        protocol_authority: key(2),
        authority_bump: 254,
        reserve_liquidity_mint: key(3),
        user_source_liquidity: key(4),
        instruction_sysvar_account: key(5),
        token_program: key(6),
        user_metadata: key(7),
        obligation: key(8),
        lending_market: key(9),
        lending_market_authority: key(10),
        reserve_collateral: key(11),
        reserve_borrow,
        reserve_liquidity_supply: key(13),
        reserve_collateral_mint: key(14),
        reserve_destination_deposit_collateral: key(15),
        scope_oracle: key(16),
        obligation_farm_state: key(17),
        reserve_farm_state: key(18),
        kamino_lending_program: key(19),
        farms_program: key(20),
    }
}

fn make_looping() -> Looping {
    Looping {
        payer: key(1),
        protocol_authority: key(2),
        authority_bump: 253,
        input_mint: key(21),
        input_vault: key(22),
        output_mint: key(23),
        output_vault: key(24),
        instruction_sysvar_account: key(5),
        token_program: key(6),
        user_metadata: key(7),
        obligation: key(8),
        lending_market: key(9),
        lending_market_authority: key(10),
        reserve_collateral: key(11),
        reserve_liquidity_supply: key(13),
        reserve_collateral_mint: key(14),
        reserve_destination_deposit_collateral: key(15),
        reserve_borrow: key(12),
        borrow_reserve_source_liquidity: key(25),
        borrow_reserve_liquidity_fee_receiver: key(26),
        scope_oracle: key(16),
        obligation_farm_state: key(17),
        reserve_farm_state: key(18),
        kamino_lending_program: key(19),
        farms_program: key(20),
        event_authority: key(27),
        jupiter_program: key(28),
    }
}

fn make_repay() -> Repay {
    Repay {
        payer: key(1),
        protocol_authority: key(2),
        authority_bump: 252,
        input_mint: key(21),
        input_vault: key(22),
        output_mint: key(23),
        output_vault: key(24),
        instruction_sysvar_account: key(5),
        token_program: key(6),
        user_metadata: key(7),
        obligation: key(8),
        lending_market: key(9),
        lending_market_authority: key(10),
        reserve_collateral: key(11),
        reserve_liquidity_supply: key(13),
        reserve_collateral_mint: key(14),
        reserve_source_collateral: key(29),
        reserve_borrow: key(12),
        borrow_reserve_destination_liquidity: key(30),
        scope_oracle: key(16),
        obligation_farm_state: key(17),
        reserve_farm_state: key(18),
        kamino_lending_program: key(19),
        farms_program: key(20),
        event_authority: key(27),
        jupiter_program: key(28),
    }
}

fn remaining() -> Vec<AccountSlot> {
    vec![
        AccountSlot { key: key(40), is_signer: false, is_writable: false },
        AccountSlot { key: key(41), is_signer: false, is_writable: true },
        AccountSlot { key: key(42), is_signer: false, is_writable: true },
        AccountSlot { key: key(43), is_signer: true, is_writable: true },
        AccountSlot { key: key(44), is_signer: false, is_writable: false },
    ]
}

#[test]
fn deposit_with_no_flags_runs_collateral_refresh_only() {
    let a = make_deposit(Some(key(12)));
    let calls = deposit(&a, 0, 100);
    assert_eq!(calls.len(), 3);
    // collateral refresh, unprivileged, fixed six slots
    assert_eq!(calls[0].data, REFRESH_RESERVE_TAG.to_vec());
    assert_eq!(calls[0].accounts.len(), 6);
    assert_eq!(calls[0].accounts[0].key, a.reserve_collateral);
    assert_eq!(calls[0].signer_bump, None);
    // obligation refresh lists exactly market and obligation
    assert_eq!(calls[1].data, REFRESH_OBLIGATION_TAG.to_vec());
    assert_eq!(calls[1].accounts.len(), 2);
    assert_eq!(calls[1].accounts[0].key, a.lending_market);
    assert_eq!(calls[1].accounts[1].key, a.obligation);
    // the deposit itself
    assert_eq!(calls[2].data, tagged(DEPOSIT_TAG, 100));
    assert_eq!(calls[2].signer_bump, Some(254));
    assert_eq!(calls[2].accounts[0].key, a.protocol_authority);
    assert!(calls[2].accounts[0].is_signer);
}

#[test]
fn deposit_with_borrows_flag_refreshes_borrow_reserve_too() {
    let a = make_deposit(Some(key(12)));
    let calls = deposit(&a, FLAG_HAS_BORROWS, 100);
    assert_eq!(calls.len(), 4);
    assert_eq!(calls[1].data, REFRESH_RESERVE_TAG.to_vec());
    assert_eq!(calls[1].accounts[0].key, key(12));
    // the obligation refresh now lists the borrow reserve as well
    assert_eq!(calls[2].accounts.len(), 3);
    assert_eq!(calls[2].accounts[2].key, key(12));
    assert!(!calls[2].accounts[2].is_writable);
}

#[test]
fn deposit_with_collateral_flag_alone_skips_the_borrow_refresh() {
    // a borrow refresh is issued only when debt exists, not for collateral
    let a = make_deposit(Some(key(12)));
    let calls = deposit(&a, FLAG_HAS_COLLATERAL, 100);
    assert_eq!(calls.len(), 3);
    assert_eq!(calls[1].data, REFRESH_OBLIGATION_TAG.to_vec());
    assert_eq!(calls[1].accounts.len(), 3);
    assert_eq!(calls[1].accounts[2].key, a.reserve_collateral);
}

#[test]
fn deposit_with_borrows_flag_but_no_borrow_reserve_skips_that_refresh() {
    let a = make_deposit(None);
    let calls = deposit(&a, FLAG_HAS_BORROWS, 100);
    assert_eq!(calls.len(), 3);
    // bit1 with no borrow reserve appends nothing; the call still proceeds
    assert_eq!(calls[1].data, REFRESH_OBLIGATION_TAG.to_vec());
    assert_eq!(calls[1].accounts.len(), 2);
}

#[test]
fn deposit_obligation_refresh_lists_reserves_by_flags() {
    let a = make_deposit(Some(key(12)));
    for flags in 0u8..4 {
        let call = a.refresh_obligation(flags);
        let has_col = call.accounts.iter().any(|s| s.key == a.reserve_collateral);
        let has_bor = call.accounts.iter().any(|s| s.key == key(12));
        assert_eq!(has_col, flags & FLAG_HAS_COLLATERAL != 0);
        assert_eq!(has_bor, flags & FLAG_HAS_BORROWS != 0);
    }
    let b = make_deposit(None);
    for flags in 0u8..4 {
        let call = b.refresh_obligation(flags);
        assert!(!call.accounts.iter().any(|s| s.key == key(12)));
    }
}

#[test]
fn looping_happy_path_borrows_forwards_and_redeposits() {
    let a = make_looping();
    let payload = swap_payload(SHARED_ACCOUNTS_ROUTE_TAG, 500, 50);
    let rem = remaining();
    let calls = looping(&a, FLAG_HAS_BORROWS, &payload, 500, &rem, 480).unwrap();
    assert_eq!(calls.len(), 9);
    // refreshes, then the borrow of exactly the requested amount
    assert_eq!(calls[0].data, REFRESH_RESERVE_TAG.to_vec());
    assert_eq!(calls[1].accounts[0].key, a.reserve_borrow);
    assert_eq!(calls[2].data, REFRESH_OBLIGATION_TAG.to_vec());
    assert_eq!(calls[2].accounts.len(), 4);
    assert_eq!(calls[3].data, tagged(BORROW_TAG, 500));
    assert_eq!(calls[3].signer_bump, Some(253));
    // the swap payload is forwarded verbatim to the aggregator
    assert_eq!(calls[4].program_id, a.jupiter_program);
    assert_eq!(calls[4].data, payload);
    assert_eq!(calls[4].signer_bump, Some(253));
    // the redeposit uses the post-swap vault balance, not the borrowed amount
    assert_eq!(calls[8].data, tagged(DEPOSIT_TAG, 480));
    assert_eq!(calls[8].accounts[9].key, a.output_vault);
}

#[test]
fn looping_swap_account_list_binds_fixed_roles_and_passes_the_rest_through() {
    let a = make_looping();
    let payload = swap_payload(SHARED_ACCOUNTS_ROUTE_TAG, 500, 50);
    let rem = remaining();
    let calls = looping(&a, FLAG_HAS_BORROWS, &payload, 500, &rem, 480).unwrap();
    let swap = &calls[4];
    assert_eq!(swap.accounts.len(), 13 + 2);
    assert_eq!(swap.accounts[0].key, a.token_program);
    assert_eq!(swap.accounts[1].key, rem[0].key);
    assert_eq!(swap.accounts[2].key, a.protocol_authority);
    assert!(swap.accounts[2].is_signer);
    assert_eq!(swap.accounts[3].key, a.input_vault);
    assert_eq!(swap.accounts[4].key, rem[1].key);
    assert_eq!(swap.accounts[5].key, rem[2].key);
    assert_eq!(swap.accounts[6].key, a.output_vault);
    // passthrough keeps key and writability, never the signer mark
    assert_eq!(swap.accounts[13].key, rem[3].key);
    assert!(swap.accounts[13].is_writable);
    assert!(!swap.accounts[13].is_signer);
    assert_eq!(swap.accounts[14].key, rem[4].key);
    assert!(!swap.accounts[14].is_writable);
}

#[test]
fn looping_rejects_payload_whose_amount_differs_from_the_call() {
    let a = make_looping();
    let payload = swap_payload(SHARED_ACCOUNTS_ROUTE_TAG, 499, 50);
    let rem = remaining();
    assert_eq!(
        looping(&a, FLAG_HAS_BORROWS, &payload, 500, &rem, 480),
        Err(SwapError::AmountMismatch)
    );
}

#[test]
fn looping_rejects_wrong_opcode_and_wrong_slippage() {
    let a = make_looping();
    let rem = remaining();
    let wrong_op = swap_payload(EXACT_OUT_ROUTE_TAG, 500, 50);
    assert_eq!(
        looping(&a, FLAG_HAS_BORROWS, &wrong_op, 500, &rem, 480),
        Err(SwapError::UnrecognizedOpcode)
    );
    let wrong_bps = swap_payload(SHARED_ACCOUNTS_ROUTE_TAG, 500, 49);
    assert_eq!(
        looping(&a, FLAG_HAS_BORROWS, &wrong_bps, 500, &rem, 480),
        Err(SwapError::SlippageMismatch)
    );
}

#[test]
fn looping_redeposit_tracks_the_balance_argument_alone() {
    let a = make_looping();
    let payload = swap_payload(SHARED_ACCOUNTS_ROUTE_TAG, 500, 50);
    let rem = remaining();
    let with_high = looping(&a, FLAG_HAS_BORROWS, &payload, 500, &rem, 1).unwrap();
    assert_eq!(with_high[8].data, tagged(DEPOSIT_TAG, 1));
    let with_low = looping(&a, FLAG_HAS_BORROWS, &payload, 500, &rem, u64::MAX - 1).unwrap();
    assert_eq!(with_low[8].data, tagged(DEPOSIT_TAG, u64::MAX - 1));
}

#[test]
fn looping_final_obligation_refresh_forces_the_has_borrows_flag() {
    let a = make_looping();
    let payload = swap_payload(SHARED_ACCOUNTS_ROUTE_TAG, 500, 50);
    let rem = remaining();
    // even with no caller flags, the refresh after the borrow lists the
    // borrow reserve
    let calls = looping(&a, 0, &payload, 500, &rem, 480).unwrap();
    // without the has-borrows flag the first borrow-reserve refresh is skipped
    assert_eq!(calls.len(), 8);
    assert_eq!(calls[1].accounts.len(), 3);
    assert_eq!(calls[6].accounts.len(), 4);
    assert_eq!(calls[6].accounts[3].key, a.reserve_borrow);
}

#[test]
fn repay_flow_requests_full_balance_regardless_of_withdrawal() {
    let a = make_repay();
    let rem = remaining();
    let payload = swap_payload(SHARED_ACCOUNTS_EXACT_OUT_ROUTE_TAG, 700, 50);
    let calls = repay(&a, &payload, 700, &rem).unwrap();
    assert_eq!(calls.len(), 6);
    assert_eq!(calls[2].accounts.len(), 4);
    assert_eq!(calls[3].data, tagged(WITHDRAW_TAG, 700));
    assert_eq!(calls[4].data, payload);
    assert_eq!(calls[5].data, tagged(REPAY_TAG, u64::MAX));
    assert_eq!(calls[5].signer_bump, Some(252));

    let small = swap_payload(SHARED_ACCOUNTS_EXACT_OUT_ROUTE_TAG, 1, 50);
    let other = repay(&a, &small, 1, &rem).unwrap();
    assert_eq!(other[3].data, tagged(WITHDRAW_TAG, 1));
    assert_eq!(other[5].data, calls[5].data);
}

#[test]
fn repay_debt_always_encodes_the_sentinel() {
    let a = make_repay();
    let call = a.repay_debt();
    assert_eq!(call.data, tagged(REPAY_TAG, u64::MAX));
    assert_eq!(call.accounts.len(), 13);
    assert_eq!(call.accounts[6].key, a.output_vault);
}

#[test]
fn repay_swap_dispatches_on_the_payload_opcode() {
    let a = make_repay();
    let rem = remaining();
    let exact = swap_payload(EXACT_OUT_ROUTE_TAG, 700, 50);
    let call = a.swap_for_collateral(&exact, 700, &rem).unwrap();
    // plain exact-out: fixed roles, then every caller account passed through
    assert_eq!(call.accounts.len(), 11 + 5);
    assert_eq!(call.accounts[0].key, a.token_program);
    assert_eq!(call.accounts[1].key, a.protocol_authority);
    assert!(call.accounts[1].is_signer);
    assert_eq!(call.accounts[11].key, rem[0].key);
    assert!(!call.accounts[14].is_signer);

    let shared = swap_payload(SHARED_ACCOUNTS_EXACT_OUT_ROUTE_TAG, 700, 50);
    let call = a.swap_for_collateral(&shared, 700, &rem).unwrap();
    // shared route: the three leading caller accounts are bound to roles
    assert_eq!(call.accounts.len(), 13 + 2);
    assert_eq!(call.accounts[1].key, rem[0].key);
    assert_eq!(call.accounts[4].key, rem[1].key);
    assert_eq!(call.accounts[5].key, rem[2].key);
    assert_eq!(call.accounts[13].key, rem[3].key);
}

#[test]
fn repay_exact_out_route_needs_no_caller_accounts() {
    let a = make_repay();
    let none: Vec<AccountSlot> = Vec::new();
    let exact = swap_payload(EXACT_OUT_ROUTE_TAG, 700, 50);
    let calls = repay(&a, &exact, 700, &none).unwrap();
    assert_eq!(calls.len(), 6);
    assert_eq!(calls[4].accounts.len(), 11);
    assert_eq!(calls[4].data, exact);
}

#[test]
fn repay_rejects_invalid_payloads_before_building_anything() {
    let a = make_repay();
    let rem = remaining();
    let shared_route = swap_payload(SHARED_ACCOUNTS_ROUTE_TAG, 700, 50);
    assert_eq!(repay(&a, &shared_route, 700, &rem), Err(SwapError::UnrecognizedOpcode));
    let mismatch = swap_payload(EXACT_OUT_ROUTE_TAG, 699, 50);
    assert_eq!(repay(&a, &mismatch, 700, &rem), Err(SwapError::AmountMismatch));
}

#[test]
fn deposit_payload_bytes_are_exact() {
    let a = make_deposit(None);
    let call = a.deposit(1);
    assert_eq!(
        call.data,
        vec![216, 224, 191, 27, 204, 151, 102, 175, 1, 0, 0, 0, 0, 0, 0, 0]
    );
}

#[test]
fn refresh_reserve_pins_placeholder_oracle_slots_to_the_lending_program() {
    let a = make_looping();
    let call = a.refresh_reserve_collateral();
    assert_eq!(call.accounts.len(), 6);
    assert!(call.accounts[0].is_writable);
    assert_eq!(call.accounts[1].key, a.lending_market);
    assert_eq!(call.accounts[2].key, a.kamino_lending_program);
    assert_eq!(call.accounts[3].key, a.kamino_lending_program);
    assert_eq!(call.accounts[4].key, a.kamino_lending_program);
    assert_eq!(call.accounts[5].key, a.scope_oracle);
    assert_eq!(call.signer_bump, None);
}
