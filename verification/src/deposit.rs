//! The plain deposit flow: refresh what the obligation currently holds,
//! then supply liquidity and mint collateral into the obligation.

use vstd::prelude::*;

use crate::account::{contains_key, readonly, writable, AccountKey, AccountSlot, CpiInstruction};
use crate::lending::{
    deposit_data, deposit_data_vec, is_refresh_reserve, refresh_obligation_data,
    refresh_obligation_data_vec, refresh_reserve_call,
};
use crate::{FLAG_HAS_BORROWS, FLAG_HAS_COLLATERAL};

verus! {

/// The account context of the plain deposit flow.  Every field is a key the
/// caller supplied; the borrow-side reserve is present only when the
/// obligation has one.
#[derive(Clone, Copy, PartialEq, Eq, Debug)]
pub struct Deposit {
    pub payer: AccountKey,
    pub protocol_authority: AccountKey,
    pub authority_bump: u8,
    pub reserve_liquidity_mint: AccountKey,
    pub user_source_liquidity: AccountKey,
    pub instruction_sysvar_account: AccountKey,
    pub token_program: AccountKey,
    pub user_metadata: AccountKey,
    pub obligation: AccountKey,
    pub lending_market: AccountKey,
    pub lending_market_authority: AccountKey,
    pub reserve_collateral: AccountKey,
    pub reserve_borrow: Option<AccountKey>,
    pub reserve_liquidity_supply: AccountKey,
    pub reserve_collateral_mint: AccountKey,
    pub reserve_destination_deposit_collateral: AccountKey,
    pub scope_oracle: AccountKey,
    pub obligation_farm_state: AccountKey,
    pub reserve_farm_state: AccountKey,
    pub kamino_lending_program: AccountKey,
    pub farms_program: AccountKey,
}

/// Account list of this context's refresh-obligation call: market and
/// obligation, then the collateral reserve exactly when bit0 of `flags` is
/// set, then the borrow reserve exactly when bit1 is set and a borrow
/// reserve was supplied.
pub open spec fn deposit_obligation_refresh_accounts(a: Deposit, flags: u8) -> Seq<AccountSlot> {
    seq![readonly(a.lending_market), writable(a.obligation)] + (if flags & FLAG_HAS_COLLATERAL
        != 0 {
        seq![readonly(a.reserve_collateral)]
    } else {
        Seq::empty()
    }) + (if flags & FLAG_HAS_BORROWS != 0 && a.reserve_borrow is Some {
        seq![readonly(a.reserve_borrow->Some_0)]
    } else {
        Seq::empty()
    })
}

/// A complete, unprivileged refresh-obligation call for this context.
pub open spec fn is_deposit_obligation_refresh(a: Deposit, flags: u8, c: CpiInstruction) -> bool {
    &&& c.program_id == a.kamino_lending_program
    &&& c.accounts@ == deposit_obligation_refresh_accounts(a, flags)
    &&& c.data@ == refresh_obligation_data()
    &&& c.signer_bump is None
}

/// Account list of this context's deposit call.
pub open spec fn deposit_accounts(a: Deposit) -> Seq<AccountSlot> {
    seq![
        (AccountSlot { key: a.protocol_authority, is_signer: true, is_writable: true }),
        writable(a.obligation),
        readonly(a.lending_market),
        readonly(a.lending_market_authority),
        writable(a.reserve_collateral),
        readonly(a.reserve_liquidity_mint),
        writable(a.reserve_liquidity_supply),
        writable(a.reserve_collateral_mint),
        writable(a.reserve_destination_deposit_collateral),
        writable(a.user_source_liquidity),
        readonly(a.kamino_lending_program),
        readonly(a.token_program),
        readonly(a.token_program),
        readonly(a.instruction_sysvar_account),
        readonly(a.obligation_farm_state),
        readonly(a.reserve_farm_state),
        readonly(a.farms_program),
    ]
}

/// A complete deposit call for this context, signed by the authority and
/// carrying exactly the given amount.
pub open spec fn is_deposit_call(a: Deposit, amount: u64, c: CpiInstruction) -> bool {
    &&& c.program_id == a.kamino_lending_program
    &&& c.accounts@ == deposit_accounts(a)
    &&& c.data@ == deposit_data(amount)
    &&& c.signer_bump == Some(a.authority_bump)
}

impl Deposit {
    /// Build the refresh call for the collateral-side reserve; always
    /// required before a collateral-affecting call.
    pub fn refresh_reserve_collateral(&self) -> (r: CpiInstruction)
        ensures
            is_refresh_reserve(
                r,
                self.kamino_lending_program,
                self.reserve_collateral,
                self.lending_market,
                self.scope_oracle,
            ),
    {
        refresh_reserve_call(
            self.kamino_lending_program,
            self.reserve_collateral,
            self.lending_market,
            self.scope_oracle,
        )
    }

    /// Build the refresh call for the borrow-side reserve, when one was
    /// supplied; with no borrow reserve there is nothing to refresh.
    pub fn refresh_reserve_borrow(&self) -> (r: Option<CpiInstruction>)
        ensures
            r is Some <==> self.reserve_borrow is Some,
            (r matches Some(c) ==> is_refresh_reserve(
                c,
                self.kamino_lending_program,
                self.reserve_borrow->Some_0,
                self.lending_market,
                self.scope_oracle,
            )),
    {
        match self.reserve_borrow {
            Some(reserve_borrow) => Some(
                refresh_reserve_call(
                    self.kamino_lending_program,
                    reserve_borrow,
                    self.lending_market,
                    self.scope_oracle,
                ),
            ),
            None => None,
        }
    }

    /// Build the refresh-obligation call.  Every reserve the obligation
    /// references must appear in its account list, so the flags select
    /// which reserves are appended.
    pub fn refresh_obligation(&self, flags: u8) -> (r: CpiInstruction)
        ensures
            is_deposit_obligation_refresh(*self, flags, r),
    {
        let mut accounts: Vec<AccountSlot> = Vec::new();
        accounts.push(AccountSlot { key: self.lending_market, is_signer: false, is_writable: false });
        accounts.push(AccountSlot { key: self.obligation, is_signer: false, is_writable: true });
        if flags & FLAG_HAS_COLLATERAL != 0 {
            accounts.push(
                AccountSlot { key: self.reserve_collateral, is_signer: false, is_writable: false },
            );
        }
        if flags & FLAG_HAS_BORROWS != 0 {
            match self.reserve_borrow {
                Some(reserve_borrow) => {
                    accounts.push(
                        AccountSlot { key: reserve_borrow, is_signer: false, is_writable: false },
                    );
                },
                None => (),
            }
        }
        assert(accounts@ =~= deposit_obligation_refresh_accounts(*self, flags));
        CpiInstruction {
            program_id: self.kamino_lending_program,
            accounts,
            data: refresh_obligation_data_vec(),
            signer_bump: None,
        }
    }

    /// Build the deposit call: supply `amount` of liquidity and mint the
    /// matching collateral into the obligation, signed by the authority.
    pub fn deposit(&self, amount: u64) -> (r: CpiInstruction)
        ensures
            is_deposit_call(*self, amount, r),
    {
        let mut accounts: Vec<AccountSlot> = Vec::new();
        accounts.push(
            AccountSlot { key: self.protocol_authority, is_signer: true, is_writable: true },
        );
        accounts.push(AccountSlot { key: self.obligation, is_signer: false, is_writable: true });
        accounts.push(AccountSlot { key: self.lending_market, is_signer: false, is_writable: false });
        accounts.push(
            AccountSlot { key: self.lending_market_authority, is_signer: false, is_writable: false },
        );
        accounts.push(
            AccountSlot { key: self.reserve_collateral, is_signer: false, is_writable: true },
        );
        accounts.push(
            AccountSlot { key: self.reserve_liquidity_mint, is_signer: false, is_writable: false },
        );
        accounts.push(
            AccountSlot { key: self.reserve_liquidity_supply, is_signer: false, is_writable: true },
        );
        accounts.push(
            AccountSlot { key: self.reserve_collateral_mint, is_signer: false, is_writable: true },
        );
        accounts.push(
            AccountSlot {
                key: self.reserve_destination_deposit_collateral,
                is_signer: false,
                is_writable: true,
            },
        );
        accounts.push(
            AccountSlot { key: self.user_source_liquidity, is_signer: false, is_writable: true },
        );
        accounts.push(
            AccountSlot { key: self.kamino_lending_program, is_signer: false, is_writable: false },
        );
        accounts.push(AccountSlot { key: self.token_program, is_signer: false, is_writable: false });
        accounts.push(AccountSlot { key: self.token_program, is_signer: false, is_writable: false });
        accounts.push(
            AccountSlot {
                key: self.instruction_sysvar_account,
                is_signer: false,
                is_writable: false,
            },
        );
        accounts.push(
            AccountSlot { key: self.obligation_farm_state, is_signer: false, is_writable: false },
        );
        accounts.push(
            AccountSlot { key: self.reserve_farm_state, is_signer: false, is_writable: false },
        );
        accounts.push(AccountSlot { key: self.farms_program, is_signer: false, is_writable: false });
        assert(accounts@ =~= deposit_accounts(*self));
        CpiInstruction {
            program_id: self.kamino_lending_program,
            accounts,
            data: deposit_data_vec(amount),
            signer_bump: Some(self.authority_bump),
        }
    }
}

/// For every flag byte, the refresh-obligation account list contains the
/// collateral reserve exactly when bit0 is set, and the borrow reserve
/// exactly when bit1 is set and a borrow reserve was supplied.  The keys
/// must be pairwise distinct for membership to speak of the reserves
/// themselves.
pub proof fn lemma_obligation_refresh_membership(a: Deposit, flags: u8)
    requires
        a.reserve_collateral != a.lending_market,
        a.reserve_collateral != a.obligation,
        (a.reserve_borrow matches Some(rb) ==> {
            &&& rb != a.lending_market
            &&& rb != a.obligation
            &&& rb != a.reserve_collateral
        }),
    ensures
        contains_key(deposit_obligation_refresh_accounts(a, flags), a.reserve_collateral) <==> flags
            & FLAG_HAS_COLLATERAL != 0,
        (a.reserve_borrow matches Some(rb) ==> (contains_key(
            deposit_obligation_refresh_accounts(a, flags),
            rb,
        ) <==> flags & FLAG_HAS_BORROWS != 0)),
{
    let s = deposit_obligation_refresh_accounts(a, flags);
    let has_col = flags & FLAG_HAS_COLLATERAL != 0;
    let has_bor = flags & FLAG_HAS_BORROWS != 0 && a.reserve_borrow is Some;
    if has_col {
        assert(s[2].key == a.reserve_collateral);
    } else {
        assert forall|i: int| 0 <= i < s.len() implies s[i].key != a.reserve_collateral by {
            if i == 0 {
                assert(s[i] == readonly(a.lending_market));
            } else if i == 1 {
                assert(s[i] == writable(a.obligation));
            } else {
                assert(s[i] == readonly(a.reserve_borrow->Some_0));
            }
        }
    }
    if a.reserve_borrow is Some {
        let rb = a.reserve_borrow->Some_0;
        if has_bor {
            assert(s[s.len() - 1].key == rb);
        } else {
            assert forall|i: int| 0 <= i < s.len() implies s[i].key != rb by {
                if i == 0 {
                    assert(s[i] == readonly(a.lending_market));
                } else if i == 1 {
                    assert(s[i] == writable(a.obligation));
                } else {
                    assert(s[i] == readonly(a.reserve_collateral));
                }
            }
        }
    }
}

/// Whether the plain deposit flow refreshes the borrow-side reserve: a
/// borrow refresh is issued only when debt exists, so the caller must have
/// flagged existing borrows and supplied a borrow reserve.
pub open spec fn deposit_flow_includes_borrow_refresh(a: Deposit, flags: u8) -> bool {
    flags & FLAG_HAS_BORROWS != 0 && a.reserve_borrow is Some
}

/// Number of calls the plain deposit flow issues.
pub open spec fn deposit_flow_len(a: Deposit, flags: u8) -> int {
    if deposit_flow_includes_borrow_refresh(a, flags) {
        4
    } else {
        3
    }
}

} // verus!
