//! The leverage-up flow: borrow against posted collateral, swap the
//! borrowed asset back into the collateral asset, and redeposit what the
//! swap actually produced.

use vstd::prelude::*;

use crate::account::{clone_bytes, readonly, writable, AccountKey, AccountSlot, CpiInstruction};
use crate::lending::{
    borrow_data, borrow_data_vec, deposit_data, deposit_data_vec, is_refresh_reserve,
    refresh_obligation_data, refresh_obligation_data_vec, refresh_reserve_call,
};
use crate::swap::{
    extend_passthrough, shared_route_accounts, swap_payload_check, validate_swap_payload,
    SwapError, SwapFlow,
};
use crate::FLAG_HAS_BORROWS;

verus! {

/// The account context of the leverage-up flow.  The input side is the
/// borrowed asset, the output side the collateral asset the swap produces.
#[derive(Clone, Copy, PartialEq, Eq, Debug)]
pub struct Looping {
    pub payer: AccountKey,
    pub protocol_authority: AccountKey,
    pub authority_bump: u8,
    pub input_mint: AccountKey,
    pub input_vault: AccountKey,
    pub output_mint: AccountKey,
    pub output_vault: AccountKey,
    pub instruction_sysvar_account: AccountKey,
    pub token_program: AccountKey,
    pub user_metadata: AccountKey,
    pub obligation: AccountKey,
    pub lending_market: AccountKey,
    pub lending_market_authority: AccountKey,
    pub reserve_collateral: AccountKey,
    pub reserve_liquidity_supply: AccountKey,
    pub reserve_collateral_mint: AccountKey,
    pub reserve_destination_deposit_collateral: AccountKey,
    pub reserve_borrow: AccountKey,
    pub borrow_reserve_source_liquidity: AccountKey,
    pub borrow_reserve_liquidity_fee_receiver: AccountKey,
    pub scope_oracle: AccountKey,
    pub obligation_farm_state: AccountKey,
    pub reserve_farm_state: AccountKey,
    pub kamino_lending_program: AccountKey,
    pub farms_program: AccountKey,
    pub event_authority: AccountKey,
    pub jupiter_program: AccountKey,
}

/// Account list of this context's refresh-obligation call: market and
/// obligation, the collateral reserve always, and the borrow reserve
/// exactly when bit1 of `flags` is set.
pub open spec fn looping_obligation_refresh_accounts(a: Looping, flags: u8) -> Seq<AccountSlot> {
    seq![readonly(a.lending_market), writable(a.obligation), writable(a.reserve_collateral)] + (
    if flags & FLAG_HAS_BORROWS != 0 {
        seq![writable(a.reserve_borrow)]
    } else {
        Seq::empty()
    })
}

/// A complete, unprivileged refresh-obligation call for this context.
pub open spec fn is_looping_obligation_refresh(a: Looping, flags: u8, c: CpiInstruction) -> bool {
    &&& c.program_id == a.kamino_lending_program
    &&& c.accounts@ == looping_obligation_refresh_accounts(a, flags)
    &&& c.data@ == refresh_obligation_data()
    &&& c.signer_bump is None
}

/// Account list of this context's borrow call.
pub open spec fn looping_borrow_accounts(a: Looping) -> Seq<AccountSlot> {
    seq![
        (AccountSlot { key: a.protocol_authority, is_signer: true, is_writable: true }),
        writable(a.obligation),
        readonly(a.lending_market),
        readonly(a.lending_market_authority),
        writable(a.reserve_borrow),
        readonly(a.input_mint),
        writable(a.borrow_reserve_source_liquidity),
        writable(a.borrow_reserve_liquidity_fee_receiver),
        writable(a.input_vault),
        readonly(a.kamino_lending_program),
        readonly(a.token_program),
        readonly(a.instruction_sysvar_account),
        readonly(a.kamino_lending_program),
        readonly(a.kamino_lending_program),
        readonly(a.farms_program),
    ]
}

/// A complete borrow call for this context, signed by the authority and
/// carrying exactly the given amount.
pub open spec fn is_looping_borrow(a: Looping, amount: u64, c: CpiInstruction) -> bool {
    &&& c.program_id == a.kamino_lending_program
    &&& c.accounts@ == looping_borrow_accounts(a)
    &&& c.data@ == borrow_data(amount)
    &&& c.signer_bump == Some(a.authority_bump)
}

/// The forwarded swap call for this context: addressed to the aggregator,
/// carrying the caller's payload verbatim, over the shared-accounts route
/// account list, signed by the authority.
pub open spec fn is_looping_swap(
    a: Looping,
    payload: Seq<u8>,
    remaining: Seq<AccountSlot>,
    c: CpiInstruction,
) -> bool {
    &&& c.program_id == a.jupiter_program
    &&& c.accounts@ == shared_route_accounts(
        a.token_program,
        a.protocol_authority,
        a.input_vault,
        a.output_vault,
        a.input_mint,
        a.output_mint,
        a.event_authority,
        a.jupiter_program,
        remaining,
    )
    &&& c.data@ == payload
    &&& c.signer_bump == Some(a.authority_bump)
}

/// Account list of this context's redeposit call.  Unlike the plain deposit
/// flow, the farm slots are writable here.
pub open spec fn looping_deposit_accounts(a: Looping) -> Seq<AccountSlot> {
    seq![
        (AccountSlot { key: a.protocol_authority, is_signer: true, is_writable: true }),
        writable(a.obligation),
        readonly(a.lending_market),
        readonly(a.lending_market_authority),
        writable(a.reserve_collateral),
        readonly(a.output_mint),
        writable(a.reserve_liquidity_supply),
        writable(a.reserve_collateral_mint),
        writable(a.reserve_destination_deposit_collateral),
        writable(a.output_vault),
        readonly(a.kamino_lending_program),
        readonly(a.token_program),
        readonly(a.token_program),
        readonly(a.instruction_sysvar_account),
        writable(a.obligation_farm_state),
        writable(a.reserve_farm_state),
        readonly(a.farms_program),
    ]
}

/// A complete redeposit call for this context, signed by the authority and
/// carrying exactly the given vault balance.
pub open spec fn is_looping_deposit(a: Looping, vault_balance: u64, c: CpiInstruction) -> bool {
    &&& c.program_id == a.kamino_lending_program
    &&& c.accounts@ == looping_deposit_accounts(a)
    &&& c.data@ == deposit_data(vault_balance)
    &&& c.signer_bump == Some(a.authority_bump)
}

impl Looping {
    /// Build the refresh call for the collateral-side reserve.
    pub fn refresh_reserve_collateral(&self) -> (r: CpiInstruction)
        ensures
            is_refresh_reserve(
                r,
                self.kamino_lending_program,
                self.reserve_collateral,
                self.lending_market,
                self.scope_oracle,
            ),
    {
        refresh_reserve_call(
            self.kamino_lending_program,
            self.reserve_collateral,
            self.lending_market,
            self.scope_oracle,
        )
    }

    /// Build the refresh call for the borrow-side reserve.
    pub fn refresh_reserve_borrow(&self) -> (r: CpiInstruction)
        ensures
            is_refresh_reserve(
                r,
                self.kamino_lending_program,
                self.reserve_borrow,
                self.lending_market,
                self.scope_oracle,
            ),
    {
        refresh_reserve_call(
            self.kamino_lending_program,
            self.reserve_borrow,
            self.lending_market,
            self.scope_oracle,
        )
    }

    /// Build the refresh-obligation call.  The collateral reserve is always
    /// appended; the borrow reserve when bit1 of `flags` is set.
    pub fn refresh_obligation(&self, flags: u8) -> (r: CpiInstruction)
        ensures
            is_looping_obligation_refresh(*self, flags, r),
    {
        let mut accounts: Vec<AccountSlot> = Vec::new();
        accounts.push(AccountSlot { key: self.lending_market, is_signer: false, is_writable: false });
        accounts.push(AccountSlot { key: self.obligation, is_signer: false, is_writable: true });
        accounts.push(
            AccountSlot { key: self.reserve_collateral, is_signer: false, is_writable: true },
        );
        if flags & FLAG_HAS_BORROWS != 0 {
            accounts.push(
                AccountSlot { key: self.reserve_borrow, is_signer: false, is_writable: true },
            );
        }
        assert(accounts@ =~= looping_obligation_refresh_accounts(*self, flags));
        CpiInstruction {
            program_id: self.kamino_lending_program,
            accounts,
            data: refresh_obligation_data_vec(),
            signer_bump: None,
        }
    }

    /// Build the borrow call: withdraw `amount` of the borrowed asset into
    /// the input vault against the posted collateral, signed by the
    /// authority.  Whether the position stays healthy is the lending
    /// protocol's own check.
    pub fn borrow_from_collateral(&self, amount: u64) -> (r: CpiInstruction)
        ensures
            is_looping_borrow(*self, amount, r),
    {
        let mut accounts: Vec<AccountSlot> = Vec::new();
        accounts.push(
            AccountSlot { key: self.protocol_authority, is_signer: true, is_writable: true },
        );
        accounts.push(AccountSlot { key: self.obligation, is_signer: false, is_writable: true });
        accounts.push(AccountSlot { key: self.lending_market, is_signer: false, is_writable: false });
        accounts.push(
            AccountSlot { key: self.lending_market_authority, is_signer: false, is_writable: false },
        );
        accounts.push(AccountSlot { key: self.reserve_borrow, is_signer: false, is_writable: true });
        accounts.push(AccountSlot { key: self.input_mint, is_signer: false, is_writable: false });
        accounts.push(
            AccountSlot {
                key: self.borrow_reserve_source_liquidity,
                is_signer: false,
                is_writable: true,
            },
        );
        accounts.push(
            AccountSlot {
                key: self.borrow_reserve_liquidity_fee_receiver,
                is_signer: false,
                is_writable: true,
            },
        );
        accounts.push(AccountSlot { key: self.input_vault, is_signer: false, is_writable: true });
        accounts.push(
            AccountSlot { key: self.kamino_lending_program, is_signer: false, is_writable: false },
        );
        accounts.push(AccountSlot { key: self.token_program, is_signer: false, is_writable: false });
        accounts.push(
            AccountSlot {
                key: self.instruction_sysvar_account,
                is_signer: false,
                is_writable: false,
            },
        );
        accounts.push(
            AccountSlot { key: self.kamino_lending_program, is_signer: false, is_writable: false },
        );
        accounts.push(
            AccountSlot { key: self.kamino_lending_program, is_signer: false, is_writable: false },
        );
        accounts.push(AccountSlot { key: self.farms_program, is_signer: false, is_writable: false });
        assert(accounts@ =~= looping_borrow_accounts(*self));
        CpiInstruction {
            program_id: self.kamino_lending_program,
            accounts,
            data: borrow_data_vec(amount),
            signer_bump: Some(self.authority_bump),
        }
    }

    /// Validate the caller's swap payload against the amount this program
    /// computed, and build the forwarded swap call.  The payload is never
    /// altered; any validation failure rejects the payload before any
    /// account list is built.
    pub fn swap_collateral(
        &self,
        swap_data: &Vec<u8>,
        amount: u64,
        remaining_accounts: &Vec<AccountSlot>,
    ) -> (r: Result<CpiInstruction, SwapError>)
        requires
            remaining_accounts@.len() >= 3,
        ensures
            r is Ok <==> swap_payload_check(SwapFlow::LeverageUp, swap_data@, amount) is Ok,
            (r matches Err(e) ==> swap_payload_check(SwapFlow::LeverageUp, swap_data@, amount)
                == Err::<crate::swap::SwapOpcode, SwapError>(e)),
            (r matches Ok(c) ==> is_looping_swap(*self, swap_data@, remaining_accounts@, c)),
    {
        match validate_swap_payload(SwapFlow::LeverageUp, swap_data, amount) {
            Err(e) => Err(e),
            Ok(_op) => {
                let mut accounts: Vec<AccountSlot> = Vec::new();
                accounts.push(
                    AccountSlot { key: self.token_program, is_signer: false, is_writable: false },
                );
                accounts.push(
                    AccountSlot {
                        key: remaining_accounts[0].key,
                        is_signer: false,
                        is_writable: false,
                    },
                );
                accounts.push(
                    AccountSlot { key: self.protocol_authority, is_signer: true, is_writable: false },
                );
                accounts.push(
                    AccountSlot { key: self.input_vault, is_signer: false, is_writable: true },
                );
                accounts.push(
                    AccountSlot {
                        key: remaining_accounts[1].key,
                        is_signer: false,
                        is_writable: true,
                    },
                );
                accounts.push(
                    AccountSlot {
                        key: remaining_accounts[2].key,
                        is_signer: false,
                        is_writable: true,
                    },
                );
                accounts.push(
                    AccountSlot { key: self.output_vault, is_signer: false, is_writable: true },
                );
                accounts.push(
                    AccountSlot { key: self.input_mint, is_signer: false, is_writable: false },
                );
                accounts.push(
                    AccountSlot { key: self.output_mint, is_signer: false, is_writable: false },
                );
                accounts.push(
                    AccountSlot { key: self.jupiter_program, is_signer: false, is_writable: false },
                );
                accounts.push(
                    AccountSlot { key: self.jupiter_program, is_signer: false, is_writable: false },
                );
                accounts.push(
                    AccountSlot { key: self.event_authority, is_signer: false, is_writable: false },
                );
                accounts.push(
                    AccountSlot { key: self.jupiter_program, is_signer: false, is_writable: false },
                );
                extend_passthrough(&mut accounts, remaining_accounts, 3);
                assert(accounts@ =~= shared_route_accounts(
                    self.token_program,
                    self.protocol_authority,
                    self.input_vault,
                    self.output_vault,
                    self.input_mint,
                    self.output_mint,
                    self.event_authority,
                    self.jupiter_program,
                    remaining_accounts@,
                ));
                Ok(
                    CpiInstruction {
                        program_id: self.jupiter_program,
                        accounts,
                        data: clone_bytes(swap_data),
                        signer_bump: Some(self.authority_bump),
                    },
                )
            },
        }
    }

    /// Build the redeposit call from the output vault's balance as reloaded
    /// by the host immediately after the swap — never from the pre-swap
    /// borrowed amount.
    pub fn deposit(&self, output_vault_balance: u64) -> (r: CpiInstruction)
        ensures
            is_looping_deposit(*self, output_vault_balance, r),
    {
        let mut accounts: Vec<AccountSlot> = Vec::new();
        accounts.push(
            AccountSlot { key: self.protocol_authority, is_signer: true, is_writable: true },
        );
        accounts.push(AccountSlot { key: self.obligation, is_signer: false, is_writable: true });
        accounts.push(AccountSlot { key: self.lending_market, is_signer: false, is_writable: false });
        accounts.push(
            AccountSlot { key: self.lending_market_authority, is_signer: false, is_writable: false },
        );
        accounts.push(
            AccountSlot { key: self.reserve_collateral, is_signer: false, is_writable: true },
        );
        accounts.push(AccountSlot { key: self.output_mint, is_signer: false, is_writable: false });
        accounts.push(
            AccountSlot { key: self.reserve_liquidity_supply, is_signer: false, is_writable: true },
        );
        accounts.push(
            AccountSlot { key: self.reserve_collateral_mint, is_signer: false, is_writable: true },
        );
        accounts.push(
            AccountSlot {
                key: self.reserve_destination_deposit_collateral,
                is_signer: false,
                is_writable: true,
            },
        );
        accounts.push(AccountSlot { key: self.output_vault, is_signer: false, is_writable: true });
        accounts.push(
            AccountSlot { key: self.kamino_lending_program, is_signer: false, is_writable: false },
        );
        accounts.push(AccountSlot { key: self.token_program, is_signer: false, is_writable: false });
        accounts.push(AccountSlot { key: self.token_program, is_signer: false, is_writable: false });
        accounts.push(
            AccountSlot {
                key: self.instruction_sysvar_account,
                is_signer: false,
                is_writable: false,
            },
        );
        accounts.push(
            AccountSlot { key: self.obligation_farm_state, is_signer: false, is_writable: true },
        );
        accounts.push(
            AccountSlot { key: self.reserve_farm_state, is_signer: false, is_writable: true },
        );
        accounts.push(AccountSlot { key: self.farms_program, is_signer: false, is_writable: false });
        assert(accounts@ =~= looping_deposit_accounts(*self));
        CpiInstruction {
            program_id: self.kamino_lending_program,
            accounts,
            data: deposit_data_vec(output_vault_balance),
            signer_bump: Some(self.authority_bump),
        }
    }
}

} // verus!
