//! Core of a leveraged looping strategy over an external lending protocol
//! and an external swap aggregator.
//!
//! Every privileged step of the strategy is a cross-program call: an ordered
//! account list plus a byte-exact payload, signed by a program-derived
//! authority.  This crate builds those calls, validates untrusted swap
//! payloads before they are forwarded, and sequences the flows; the host
//! layer merely issues the calls it is handed.

use vstd::prelude::*;

pub mod account;
pub mod authority;
pub mod deposit;
pub mod lending;
pub mod looping;
pub mod repay;
pub mod swap;

use crate::account::{AccountSlot, CpiInstruction};
use crate::deposit::{
    deposit_flow_includes_borrow_refresh, deposit_flow_len, is_deposit_call,
    is_deposit_obligation_refresh, Deposit,
};
use crate::lending::is_refresh_reserve;
use crate::looping::{
    is_looping_borrow, is_looping_deposit, is_looping_obligation_refresh, is_looping_swap, Looping,
};
use crate::repay::{
    is_repay_call, is_repay_obligation_refresh, is_repay_swap, is_repay_withdraw, Repay,
};
use crate::swap::{opcode_of, swap_payload_check, SwapError, SwapFlow, SwapOpcode};

verus! {

/// Flag bit: the obligation currently holds collateral.
pub const FLAG_HAS_COLLATERAL: u8 = 1;

/// Flag bit: the obligation currently has outstanding borrows.
pub const FLAG_HAS_BORROWS: u8 = 2;

/// The plain deposit flow, in order: refresh the collateral reserve; refresh
/// the borrow reserve when the caller flagged existing debt and one was
/// supplied; refresh the obligation under the caller's flags; deposit
/// the given amount.  The host issues the calls in this order within one
/// atomic transaction.
pub fn deposit(accounts: &Deposit, flags: u8, amount: u64) -> (calls: Vec<CpiInstruction>)
    ensures
        calls@.len() == deposit_flow_len(*accounts, flags),
        is_refresh_reserve(
            calls@[0],
            accounts.kamino_lending_program,
            accounts.reserve_collateral,
            accounts.lending_market,
            accounts.scope_oracle,
        ),
        deposit_flow_includes_borrow_refresh(*accounts, flags) ==> is_refresh_reserve(
            calls@[1],
            accounts.kamino_lending_program,
            accounts.reserve_borrow->Some_0,
            accounts.lending_market,
            accounts.scope_oracle,
        ),
        is_deposit_obligation_refresh(*accounts, flags, calls@[calls@.len() - 2]),
        is_deposit_call(*accounts, amount, calls@[calls@.len() - 1]),
{
    let mut calls: Vec<CpiInstruction> = Vec::new();
    calls.push(accounts.refresh_reserve_collateral());
    if flags & FLAG_HAS_BORROWS != 0 {
        match accounts.refresh_reserve_borrow() {
            Some(call) => calls.push(call),
            None => (),
        }
    }
    calls.push(accounts.refresh_obligation(flags));
    calls.push(accounts.deposit(amount));
    calls
}

/// The leverage-up flow, in order: refresh the collateral reserve; refresh
/// the borrow reserve when the caller flagged existing debt; refresh the
/// obligation under the caller's flags; borrow the given amount; validate
/// and forward the caller's swap payload; refresh both reserves and the
/// obligation again, now forcing the has-borrows flag since the borrow
/// created debt; redeposit the output vault's balance.  The host issues the
/// calls in this order within one atomic transaction, reloading the output
/// vault right after the swap and supplying that fresh balance here.  Any
/// validation failure rejects the whole flow before a single call is built.
pub fn looping(
    accounts: &Looping,
    flags: u8,
    swap_data: &Vec<u8>,
    amount: u64,
    remaining_accounts: &Vec<AccountSlot>,
    output_vault_balance_after_swap: u64,
) -> (r: Result<Vec<CpiInstruction>, SwapError>)
    requires
        remaining_accounts@.len() >= 3,
    ensures
        r is Ok <==> swap_payload_check(SwapFlow::LeverageUp, swap_data@, amount) is Ok,
        (r matches Err(e) ==> swap_payload_check(SwapFlow::LeverageUp, swap_data@, amount)
            == Err::<SwapOpcode, SwapError>(e)),
        (r matches Ok(calls) ==> {
            let base: int = if flags & FLAG_HAS_BORROWS != 0 {
                1
            } else {
                0
            };
            &&& calls@.len() == 8 + base
            &&& is_refresh_reserve(
                calls@[0],
                accounts.kamino_lending_program,
                accounts.reserve_collateral,
                accounts.lending_market,
                accounts.scope_oracle,
            )
            &&& flags & FLAG_HAS_BORROWS != 0 ==> is_refresh_reserve(
                calls@[1],
                accounts.kamino_lending_program,
                accounts.reserve_borrow,
                accounts.lending_market,
                accounts.scope_oracle,
            )
            &&& is_looping_obligation_refresh(*accounts, flags, calls@[1 + base])
            &&& is_looping_borrow(*accounts, amount, calls@[2 + base])
            &&& is_looping_swap(*accounts, swap_data@, remaining_accounts@, calls@[3 + base])
            &&& is_refresh_reserve(
                calls@[4 + base],
                accounts.kamino_lending_program,
                accounts.reserve_collateral,
                accounts.lending_market,
                accounts.scope_oracle,
            )
            &&& is_refresh_reserve(
                calls@[5 + base],
                accounts.kamino_lending_program,
                accounts.reserve_borrow,
                accounts.lending_market,
                accounts.scope_oracle,
            )
            &&& is_looping_obligation_refresh(*accounts, FLAG_HAS_BORROWS, calls@[6 + base])
            &&& is_looping_deposit(*accounts, output_vault_balance_after_swap, calls@[7 + base])
        }),
{
    let swap_call = match accounts.swap_collateral(swap_data, amount, remaining_accounts) {
        Ok(call) => call,
        Err(e) => {
            return Err(e);
        },
    };
    let mut calls: Vec<CpiInstruction> = Vec::new();
    calls.push(accounts.refresh_reserve_collateral());
    if flags & FLAG_HAS_BORROWS != 0 {
        calls.push(accounts.refresh_reserve_borrow());
    }
    calls.push(accounts.refresh_obligation(flags));
    calls.push(accounts.borrow_from_collateral(amount));
    calls.push(swap_call);
    calls.push(accounts.refresh_reserve_collateral());
    calls.push(accounts.refresh_reserve_borrow());
    calls.push(accounts.refresh_obligation(FLAG_HAS_BORROWS));
    calls.push(accounts.deposit(output_vault_balance_after_swap));
    Ok(calls)
}

/// The leverage-down flow, in order: refresh both reserves and the
/// obligation; withdraw the given amount of collateral; validate and
/// forward the caller's swap payload; repay.  The repay call always
/// requests the full-balance sentinel, whatever amount was withdrawn.  The
/// host issues the calls in this order within one atomic transaction; any
/// validation failure rejects the whole flow before a single call is built.
pub fn repay(
    accounts: &Repay,
    swap_data: &Vec<u8>,
    amount: u64,
    remaining_accounts: &Vec<AccountSlot>,
) -> (r: Result<Vec<CpiInstruction>, SwapError>)
    requires
        opcode_of(swap_data@) == Some(SwapOpcode::SharedAccountsExactOutRoute)
            ==> remaining_accounts@.len() >= 3,
    ensures
        r is Ok <==> swap_payload_check(SwapFlow::LeverageDown, swap_data@, amount) is Ok,
        (r matches Err(e) ==> swap_payload_check(SwapFlow::LeverageDown, swap_data@, amount)
            == Err::<SwapOpcode, SwapError>(e)),
        (r matches Ok(calls) ==> {
            &&& calls@.len() == 6
            &&& is_refresh_reserve(
                calls@[0],
                accounts.kamino_lending_program,
                accounts.reserve_collateral,
                accounts.lending_market,
                accounts.scope_oracle,
            )
            &&& is_refresh_reserve(
                calls@[1],
                accounts.kamino_lending_program,
                accounts.reserve_borrow,
                accounts.lending_market,
                accounts.scope_oracle,
            )
            &&& is_repay_obligation_refresh(*accounts, calls@[2])
            &&& is_repay_withdraw(*accounts, amount, calls@[3])
            &&& is_repay_swap(*accounts, swap_data@, remaining_accounts@, calls@[4])
            &&& is_repay_call(*accounts, calls@[5])
        }),
{
    let swap_call = match accounts.swap_for_collateral(swap_data, amount, remaining_accounts) {
        Ok(call) => call,
        Err(e) => {
            return Err(e);
        },
    };
    let mut calls: Vec<CpiInstruction> = Vec::new();
    calls.push(accounts.refresh_reserve_collateral());
    calls.push(accounts.refresh_reserve_borrow());
    calls.push(accounts.refresh_obligation());
    calls.push(accounts.withdraw_collateral(amount));
    calls.push(swap_call);
    calls.push(accounts.repay_debt());
    Ok(calls)
}

} // verus!
