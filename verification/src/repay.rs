//! The leverage-down flow: redeem posted collateral, swap it into the debt
//! asset, and settle the debt with whatever the swap produced.

use vstd::prelude::*;

use crate::account::{clone_bytes, readonly, writable, AccountKey, AccountSlot, CpiInstruction};
use crate::lending::{
    is_refresh_reserve, refresh_obligation_data, refresh_obligation_data_vec, refresh_reserve_call,
    repay_data, repay_data_vec, withdraw_data, withdraw_data_vec,
};
use crate::swap::{
    exact_out_route_accounts, extend_passthrough, opcode_of, shared_route_accounts,
    swap_payload_check, validate_swap_payload, SwapError, SwapFlow, SwapOpcode,
};

verus! {

/// The account context of the leverage-down flow.  The input side is the
/// withdrawn collateral asset, the output side the debt asset the swap
/// produces.
#[derive(Clone, Copy, PartialEq, Eq, Debug)]
pub struct Repay {
    pub payer: AccountKey,
    pub protocol_authority: AccountKey,
    pub authority_bump: u8,
    pub input_mint: AccountKey,
    pub input_vault: AccountKey,
    pub output_mint: AccountKey,
    pub output_vault: AccountKey,
    pub instruction_sysvar_account: AccountKey,
    pub token_program: AccountKey,
    pub user_metadata: AccountKey,
    pub obligation: AccountKey,
    pub lending_market: AccountKey,
    pub lending_market_authority: AccountKey,
    pub reserve_collateral: AccountKey,
    pub reserve_liquidity_supply: AccountKey,
    pub reserve_collateral_mint: AccountKey,
    pub reserve_source_collateral: AccountKey,
    pub reserve_borrow: AccountKey,
    pub borrow_reserve_destination_liquidity: AccountKey,
    pub scope_oracle: AccountKey,
    pub obligation_farm_state: AccountKey,
    pub reserve_farm_state: AccountKey,
    pub kamino_lending_program: AccountKey,
    pub farms_program: AccountKey,
    pub event_authority: AccountKey,
    pub jupiter_program: AccountKey,
}

/// Account list of this context's refresh-obligation call: market and
/// obligation, then both reserves — unwinding always touches collateral
/// and debt.
pub open spec fn repay_obligation_refresh_accounts(a: Repay) -> Seq<AccountSlot> {
    seq![
        readonly(a.lending_market),
        writable(a.obligation),
        writable(a.reserve_collateral),
        writable(a.reserve_borrow),
    ]
}

/// A complete, unprivileged refresh-obligation call for this context.
pub open spec fn is_repay_obligation_refresh(a: Repay, c: CpiInstruction) -> bool {
    &&& c.program_id == a.kamino_lending_program
    &&& c.accounts@ == repay_obligation_refresh_accounts(a)
    &&& c.data@ == refresh_obligation_data()
    &&& c.signer_bump is None
}

/// Account list of this context's withdraw-collateral call.
pub open spec fn repay_withdraw_accounts(a: Repay) -> Seq<AccountSlot> {
    seq![
        (AccountSlot { key: a.protocol_authority, is_signer: true, is_writable: true }),
        writable(a.obligation),
        readonly(a.lending_market),
        readonly(a.lending_market_authority),
        writable(a.reserve_collateral),
        readonly(a.input_mint),
        writable(a.reserve_source_collateral),
        writable(a.reserve_collateral_mint),
        writable(a.reserve_liquidity_supply),
        writable(a.input_vault),
        readonly(a.kamino_lending_program),
        readonly(a.token_program),
        readonly(a.token_program),
        readonly(a.instruction_sysvar_account),
        writable(a.obligation_farm_state),
        writable(a.reserve_farm_state),
        readonly(a.farms_program),
    ]
}

/// A complete withdraw-collateral call for this context, signed by the
/// authority and carrying exactly the given amount.
pub open spec fn is_repay_withdraw(a: Repay, amount: u64, c: CpiInstruction) -> bool {
    &&& c.program_id == a.kamino_lending_program
    &&& c.accounts@ == repay_withdraw_accounts(a)
    &&& c.data@ == withdraw_data(amount)
    &&& c.signer_bump == Some(a.authority_bump)
}

/// The forwarded swap call for this context: addressed to the aggregator,
/// carrying the caller's payload verbatim and signed by the authority, over
/// the account list of whichever exact-out route the payload's opcode
/// selected.
pub open spec fn is_repay_swap(
    a: Repay,
    payload: Seq<u8>,
    remaining: Seq<AccountSlot>,
    c: CpiInstruction,
) -> bool {
    &&& c.program_id == a.jupiter_program
    &&& c.data@ == payload
    &&& c.signer_bump == Some(a.authority_bump)
    &&& opcode_of(payload) == Some(SwapOpcode::ExactOutRoute) ==> c.accounts@
        == exact_out_route_accounts(
        a.token_program,
        a.protocol_authority,
        a.input_vault,
        a.output_vault,
        a.input_mint,
        a.output_mint,
        a.event_authority,
        a.jupiter_program,
        remaining,
    )
    &&& opcode_of(payload) == Some(SwapOpcode::SharedAccountsExactOutRoute) ==> c.accounts@
        == shared_route_accounts(
        a.token_program,
        a.protocol_authority,
        a.input_vault,
        a.output_vault,
        a.input_mint,
        a.output_mint,
        a.event_authority,
        a.jupiter_program,
        remaining,
    )
}

/// Account list of this context's repay call.
pub open spec fn repay_accounts(a: Repay) -> Seq<AccountSlot> {
    seq![
        (AccountSlot { key: a.protocol_authority, is_signer: true, is_writable: true }),
        writable(a.obligation),
        readonly(a.lending_market),
        writable(a.reserve_borrow),
        readonly(a.output_mint),
        writable(a.borrow_reserve_destination_liquidity),
        writable(a.output_vault),
        readonly(a.token_program),
        readonly(a.instruction_sysvar_account),
        readonly(a.kamino_lending_program),
        readonly(a.kamino_lending_program),
        readonly(a.lending_market_authority),
        readonly(a.farms_program),
    ]
}

/// A complete repay call for this context, signed by the authority.  Its
/// payload always carries the full-balance sentinel: the debt is settled
/// from whatever liquidity the vault currently holds, never from a
/// caller-chosen partial amount.
pub open spec fn is_repay_call(a: Repay, c: CpiInstruction) -> bool {
    &&& c.program_id == a.kamino_lending_program
    &&& c.accounts@ == repay_accounts(a)
    &&& c.data@ == repay_data()
    &&& c.signer_bump == Some(a.authority_bump)
}

impl Repay {
    /// Build the refresh call for the collateral-side reserve.
    pub fn refresh_reserve_collateral(&self) -> (r: CpiInstruction)
        ensures
            is_refresh_reserve(
                r,
                self.kamino_lending_program,
                self.reserve_collateral,
                self.lending_market,
                self.scope_oracle,
            ),
    {
        refresh_reserve_call(
            self.kamino_lending_program,
            self.reserve_collateral,
            self.lending_market,
            self.scope_oracle,
        )
    }

    /// Build the refresh call for the borrow-side reserve.
    pub fn refresh_reserve_borrow(&self) -> (r: CpiInstruction)
        ensures
            is_refresh_reserve(
                r,
                self.kamino_lending_program,
                self.reserve_borrow,
                self.lending_market,
                self.scope_oracle,
            ),
    {
        refresh_reserve_call(
            self.kamino_lending_program,
            self.reserve_borrow,
            self.lending_market,
            self.scope_oracle,
        )
    }

    /// Build the refresh-obligation call, listing both reserves.
    pub fn refresh_obligation(&self) -> (r: CpiInstruction)
        ensures
            is_repay_obligation_refresh(*self, r),
    {
        let mut accounts: Vec<AccountSlot> = Vec::new();
        accounts.push(AccountSlot { key: self.lending_market, is_signer: false, is_writable: false });
        accounts.push(AccountSlot { key: self.obligation, is_signer: false, is_writable: true });
        accounts.push(
            AccountSlot { key: self.reserve_collateral, is_signer: false, is_writable: true },
        );
        accounts.push(AccountSlot { key: self.reserve_borrow, is_signer: false, is_writable: true });
        assert(accounts@ =~= repay_obligation_refresh_accounts(*self));
        CpiInstruction {
            program_id: self.kamino_lending_program,
            accounts,
            data: refresh_obligation_data_vec(),
            signer_bump: None,
        }
    }

    /// Build the withdraw call: redeem `amount` of posted collateral into
    /// the input vault, signed by the authority.
    pub fn withdraw_collateral(&self, amount: u64) -> (r: CpiInstruction)
        ensures
            is_repay_withdraw(*self, amount, r),
    {
        let mut accounts: Vec<AccountSlot> = Vec::new();
        accounts.push(
            AccountSlot { key: self.protocol_authority, is_signer: true, is_writable: true },
        );
        accounts.push(AccountSlot { key: self.obligation, is_signer: false, is_writable: true });
        accounts.push(AccountSlot { key: self.lending_market, is_signer: false, is_writable: false });
        accounts.push(
            AccountSlot { key: self.lending_market_authority, is_signer: false, is_writable: false },
        );
        accounts.push(
            AccountSlot { key: self.reserve_collateral, is_signer: false, is_writable: true },
        );
        accounts.push(AccountSlot { key: self.input_mint, is_signer: false, is_writable: false });
        accounts.push(
            AccountSlot { key: self.reserve_source_collateral, is_signer: false, is_writable: true },
        );
        accounts.push(
            AccountSlot { key: self.reserve_collateral_mint, is_signer: false, is_writable: true },
        );
        accounts.push(
            AccountSlot { key: self.reserve_liquidity_supply, is_signer: false, is_writable: true },
        );
        accounts.push(AccountSlot { key: self.input_vault, is_signer: false, is_writable: true });
        accounts.push(
            AccountSlot { key: self.kamino_lending_program, is_signer: false, is_writable: false },
        );
        accounts.push(AccountSlot { key: self.token_program, is_signer: false, is_writable: false });
        accounts.push(AccountSlot { key: self.token_program, is_signer: false, is_writable: false });
        accounts.push(
            AccountSlot {
                key: self.instruction_sysvar_account,
                is_signer: false,
                is_writable: false,
            },
        );
        accounts.push(
            AccountSlot { key: self.obligation_farm_state, is_signer: false, is_writable: true },
        );
        accounts.push(
            AccountSlot { key: self.reserve_farm_state, is_signer: false, is_writable: true },
        );
        accounts.push(AccountSlot { key: self.farms_program, is_signer: false, is_writable: false });
        assert(accounts@ =~= repay_withdraw_accounts(*self));
        CpiInstruction {
            program_id: self.kamino_lending_program,
            accounts,
            data: withdraw_data_vec(amount),
            signer_bump: Some(self.authority_bump),
        }
    }

    /// Validate the caller's swap payload against the amount this program
    /// computed, then build the forwarded swap call over the account list
    /// of whichever exact-out route the opcode selected.  The payload is
    /// never altered; any validation failure rejects the payload before
    /// any account list is built.
    pub fn swap_for_collateral(
        &self,
        swap_data: &Vec<u8>,
        amount: u64,
        remaining_accounts: &Vec<AccountSlot>,
    ) -> (r: Result<CpiInstruction, SwapError>)
        requires
            opcode_of(swap_data@) == Some(SwapOpcode::SharedAccountsExactOutRoute)
                ==> remaining_accounts@.len() >= 3,
        ensures
            r is Ok <==> swap_payload_check(SwapFlow::LeverageDown, swap_data@, amount) is Ok,
            (r matches Err(e) ==> swap_payload_check(SwapFlow::LeverageDown, swap_data@, amount)
                == Err::<SwapOpcode, SwapError>(e)),
            (r matches Ok(c) ==> is_repay_swap(*self, swap_data@, remaining_accounts@, c)),
    {
        let op = match validate_swap_payload(SwapFlow::LeverageDown, swap_data, amount) {
            Err(e) => {
                return Err(e);
            },
            Ok(op) => op,
        };
        let mut accounts: Vec<AccountSlot> = Vec::new();
        match op {
            SwapOpcode::ExactOutRoute => {
                accounts.push(
                    AccountSlot { key: self.token_program, is_signer: false, is_writable: false },
                );
                accounts.push(
                    AccountSlot { key: self.protocol_authority, is_signer: true, is_writable: false },
                );
                accounts.push(
                    AccountSlot { key: self.input_vault, is_signer: false, is_writable: true },
                );
                accounts.push(
                    AccountSlot { key: self.output_vault, is_signer: false, is_writable: true },
                );
                accounts.push(
                    AccountSlot { key: self.jupiter_program, is_signer: false, is_writable: false },
                );
                accounts.push(
                    AccountSlot { key: self.input_mint, is_signer: false, is_writable: false },
                );
                accounts.push(
                    AccountSlot { key: self.output_mint, is_signer: false, is_writable: false },
                );
                accounts.push(
                    AccountSlot { key: self.jupiter_program, is_signer: false, is_writable: false },
                );
                accounts.push(
                    AccountSlot { key: self.jupiter_program, is_signer: false, is_writable: false },
                );
                accounts.push(
                    AccountSlot { key: self.event_authority, is_signer: false, is_writable: false },
                );
                accounts.push(
                    AccountSlot { key: self.jupiter_program, is_signer: false, is_writable: false },
                );
                extend_passthrough(&mut accounts, remaining_accounts, 0);
                assert(remaining_accounts@.skip(0) =~= remaining_accounts@);
                assert(accounts@ =~= exact_out_route_accounts(
                    self.token_program,
                    self.protocol_authority,
                    self.input_vault,
                    self.output_vault,
                    self.input_mint,
                    self.output_mint,
                    self.event_authority,
                    self.jupiter_program,
                    remaining_accounts@,
                ));
            },
            _ => {
                accounts.push(
                    AccountSlot { key: self.token_program, is_signer: false, is_writable: false },
                );
                accounts.push(
                    AccountSlot {
                        key: remaining_accounts[0].key,
                        is_signer: false,
                        is_writable: false,
                    },
                );
                accounts.push(
                    AccountSlot { key: self.protocol_authority, is_signer: true, is_writable: false },
                );
                accounts.push(
                    AccountSlot { key: self.input_vault, is_signer: false, is_writable: true },
                );
                accounts.push(
                    AccountSlot {
                        key: remaining_accounts[1].key,
                        is_signer: false,
                        is_writable: true,
                    },
                );
                accounts.push(
                    AccountSlot {
                        key: remaining_accounts[2].key,
                        is_signer: false,
                        is_writable: true,
                    },
                );
                accounts.push(
                    AccountSlot { key: self.output_vault, is_signer: false, is_writable: true },
                );
                accounts.push(
                    AccountSlot { key: self.input_mint, is_signer: false, is_writable: false },
                );
                accounts.push(
                    AccountSlot { key: self.output_mint, is_signer: false, is_writable: false },
                );
                accounts.push(
                    AccountSlot { key: self.jupiter_program, is_signer: false, is_writable: false },
                );
                accounts.push(
                    AccountSlot { key: self.jupiter_program, is_signer: false, is_writable: false },
                );
                accounts.push(
                    AccountSlot { key: self.event_authority, is_signer: false, is_writable: false },
                );
                accounts.push(
                    AccountSlot { key: self.jupiter_program, is_signer: false, is_writable: false },
                );
                extend_passthrough(&mut accounts, remaining_accounts, 3);
                assert(accounts@ =~= shared_route_accounts(
                    self.token_program,
                    self.protocol_authority,
                    self.input_vault,
                    self.output_vault,
                    self.input_mint,
                    self.output_mint,
                    self.event_authority,
                    self.jupiter_program,
                    remaining_accounts@,
                ));
            },
        }
        Ok(
            CpiInstruction {
                program_id: self.jupiter_program,
                accounts,
                data: clone_bytes(swap_data),
                signer_bump: Some(self.authority_bump),
            },
        )
    }

    /// Build the repay call: settle the debt from the output vault's
    /// current holdings.  The payload always carries the full-balance
    /// sentinel, whatever was withdrawn or swapped before.
    pub fn repay_debt(&self) -> (r: CpiInstruction)
        ensures
            is_repay_call(*self, r),
    {
        let mut accounts: Vec<AccountSlot> = Vec::new();
        accounts.push(
            AccountSlot { key: self.protocol_authority, is_signer: true, is_writable: true },
        );
        accounts.push(AccountSlot { key: self.obligation, is_signer: false, is_writable: true });
        accounts.push(AccountSlot { key: self.lending_market, is_signer: false, is_writable: false });
        accounts.push(AccountSlot { key: self.reserve_borrow, is_signer: false, is_writable: true });
        accounts.push(AccountSlot { key: self.output_mint, is_signer: false, is_writable: false });
        accounts.push(
            AccountSlot {
                key: self.borrow_reserve_destination_liquidity,
                is_signer: false,
                is_writable: true,
            },
        );
        accounts.push(AccountSlot { key: self.output_vault, is_signer: false, is_writable: true });
        accounts.push(AccountSlot { key: self.token_program, is_signer: false, is_writable: false });
        accounts.push(
            AccountSlot {
                key: self.instruction_sysvar_account,
                is_signer: false,
                is_writable: false,
            },
        );
        accounts.push(
            AccountSlot { key: self.kamino_lending_program, is_signer: false, is_writable: false },
        );
        accounts.push(
            AccountSlot { key: self.kamino_lending_program, is_signer: false, is_writable: false },
        );
        accounts.push(
            AccountSlot { key: self.lending_market_authority, is_signer: false, is_writable: false },
        );
        accounts.push(AccountSlot { key: self.farms_program, is_signer: false, is_writable: false });
        assert(accounts@ =~= repay_accounts(*self));
        CpiInstruction {
            program_id: self.kamino_lending_program,
            accounts,
            data: repay_data_vec(),
            signer_bump: Some(self.authority_bump),
        }
    }
}

} // verus!
