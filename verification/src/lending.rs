//! Call shapes of the external lending protocol.
//!
//! Each opcode of the lending program is an 8-byte tag, optionally followed
//! by a little-endian 8-byte amount.  Refresh calls are unprivileged; the
//! balance-changing calls are signed by the protocol authority.  A reserve
//! refresh pins three placeholder oracle slots to the lending program's own
//! identifier, since only the one real price oracle is used.

use vstd::bytes::{spec_u64_to_le_bytes, u64_to_le_bytes};
use vstd::prelude::*;

use crate::account::{readonly, writable, AccountKey, AccountSlot, CpiInstruction};

verus! {

/// Tag of the refresh-reserve opcode.
pub open spec fn refresh_reserve_tag() -> Seq<u8> {
    seq![2u8, 218, 138, 235, 79, 201, 25, 102]
}

/// Tag of the refresh-obligation opcode.
pub open spec fn refresh_obligation_tag() -> Seq<u8> {
    seq![33u8, 132, 147, 228, 151, 192, 72, 89]
}

/// Tag of the deposit-liquidity-and-mint-obligation-collateral opcode.
pub open spec fn deposit_collateral_tag() -> Seq<u8> {
    seq![216u8, 224, 191, 27, 204, 151, 102, 175]
}

/// Tag of the borrow-obligation-liquidity opcode.
pub open spec fn borrow_liquidity_tag() -> Seq<u8> {
    seq![161u8, 128, 143, 245, 171, 199, 194, 6]
}

/// Tag of the withdraw-obligation-collateral-and-redeem opcode.
pub open spec fn withdraw_collateral_tag() -> Seq<u8> {
    seq![235u8, 52, 119, 152, 149, 197, 20, 7]
}

/// Tag of the repay-obligation-liquidity opcode.
pub open spec fn repay_liquidity_tag() -> Seq<u8> {
    seq![116u8, 174, 213, 76, 180, 53, 210, 144]
}

/// Payload of a refresh-reserve call: the tag alone.
pub open spec fn refresh_reserve_data() -> Seq<u8> {
    refresh_reserve_tag()
}

/// Payload of a refresh-obligation call: the tag alone.
pub open spec fn refresh_obligation_data() -> Seq<u8> {
    refresh_obligation_tag()
}

/// Payload of a deposit call: tag, then the amount little-endian.
pub open spec fn deposit_data(amount: u64) -> Seq<u8> {
    deposit_collateral_tag() + spec_u64_to_le_bytes(amount)
}

/// Payload of a borrow call: tag, then the amount little-endian.
pub open spec fn borrow_data(amount: u64) -> Seq<u8> {
    borrow_liquidity_tag() + spec_u64_to_le_bytes(amount)
}

/// Payload of a withdraw-collateral call: tag, then the amount little-endian.
pub open spec fn withdraw_data(amount: u64) -> Seq<u8> {
    withdraw_collateral_tag() + spec_u64_to_le_bytes(amount)
}

/// Payload of a repay call: tag, then the full-balance sentinel (the
/// maximum representable amount) little-endian — never a partial amount.
pub open spec fn repay_data() -> Seq<u8> {
    repay_liquidity_tag() + spec_u64_to_le_bytes(u64::MAX)
}

/// The repay payload always carries the full-balance sentinel — the largest
/// representable amount — in its amount field, never a partial amount.
pub proof fn lemma_repay_requests_full_balance()
    ensures
        repay_data().len() == 16,
        repay_data().subrange(8, 16) == spec_u64_to_le_bytes(u64::MAX),
{
    vstd::bytes::lemma_auto_spec_u64_to_from_le_bytes();
    assert(repay_data().subrange(8, 16) =~= spec_u64_to_le_bytes(u64::MAX));
}

/// Account list of a refresh-reserve call: the reserve, its market, three
/// placeholder oracle slots pinned to the lending program, and the real
/// price oracle.
pub open spec fn refresh_reserve_accounts(
    reserve: AccountKey,
    market: AccountKey,
    lending_program: AccountKey,
    oracle: AccountKey,
) -> Seq<AccountSlot> {
    seq![
        writable(reserve),
        readonly(market),
        readonly(lending_program),
        readonly(lending_program),
        readonly(lending_program),
        readonly(oracle),
    ]
}

/// A complete, unprivileged refresh-reserve call for the given reserve.
pub open spec fn is_refresh_reserve(
    c: CpiInstruction,
    lending_program: AccountKey,
    reserve: AccountKey,
    market: AccountKey,
    oracle: AccountKey,
) -> bool {
    &&& c.program_id == lending_program
    &&& c.accounts@ == refresh_reserve_accounts(reserve, market, lending_program, oracle)
    &&& c.data@ == refresh_reserve_data()
    &&& c.signer_bump is None
}

fn tag_vec(t0: u8, t1: u8, t2: u8, t3: u8, t4: u8, t5: u8, t6: u8, t7: u8) -> (r: Vec<u8>)
    ensures
        r@ == seq![t0, t1, t2, t3, t4, t5, t6, t7],
{
    let mut v: Vec<u8> = Vec::new();
    v.push(t0);
    v.push(t1);
    v.push(t2);
    v.push(t3);
    v.push(t4);
    v.push(t5);
    v.push(t6);
    v.push(t7);
    assert(v@ =~= seq![t0, t1, t2, t3, t4, t5, t6, t7]);
    v
}

pub(crate) fn refresh_reserve_data_vec() -> (r: Vec<u8>)
    ensures
        r@ == refresh_reserve_data(),
{
    tag_vec(2, 218, 138, 235, 79, 201, 25, 102)
}

pub(crate) fn refresh_obligation_data_vec() -> (r: Vec<u8>)
    ensures
        r@ == refresh_obligation_data(),
{
    tag_vec(33, 132, 147, 228, 151, 192, 72, 89)
}

fn with_amount(mut tag: Vec<u8>, amount: u64) -> (r: Vec<u8>)
    ensures
        r@ == tag@ + spec_u64_to_le_bytes(amount),
{
    let mut amt = u64_to_le_bytes(amount);
    tag.append(&mut amt);
    tag
}

pub(crate) fn deposit_data_vec(amount: u64) -> (r: Vec<u8>)
    ensures
        r@ == deposit_data(amount),
{
    with_amount(tag_vec(216, 224, 191, 27, 204, 151, 102, 175), amount)
}

pub(crate) fn borrow_data_vec(amount: u64) -> (r: Vec<u8>)
    ensures
        r@ == borrow_data(amount),
{
    with_amount(tag_vec(161, 128, 143, 245, 171, 199, 194, 6), amount)
}

pub(crate) fn withdraw_data_vec(amount: u64) -> (r: Vec<u8>)
    ensures
        r@ == withdraw_data(amount),
{
    with_amount(tag_vec(235, 52, 119, 152, 149, 197, 20, 7), amount)
}

pub(crate) fn repay_data_vec() -> (r: Vec<u8>)
    ensures
        r@ == repay_data(),
{
    with_amount(tag_vec(116, 174, 213, 76, 180, 53, 210, 144), u64::MAX)
}

/// Build the unprivileged refresh-reserve call for one reserve.
pub(crate) fn refresh_reserve_call(
    lending_program: AccountKey,
    reserve: AccountKey,
    market: AccountKey,
    oracle: AccountKey,
) -> (r: CpiInstruction)
    ensures
        is_refresh_reserve(r, lending_program, reserve, market, oracle),
{
    let mut accounts: Vec<AccountSlot> = Vec::new();
    accounts.push(AccountSlot { key: reserve, is_signer: false, is_writable: true });
    accounts.push(AccountSlot { key: market, is_signer: false, is_writable: false });
    accounts.push(AccountSlot { key: lending_program, is_signer: false, is_writable: false });
    accounts.push(AccountSlot { key: lending_program, is_signer: false, is_writable: false });
    accounts.push(AccountSlot { key: lending_program, is_signer: false, is_writable: false });
    accounts.push(AccountSlot { key: oracle, is_signer: false, is_writable: false });
    assert(accounts@ =~= refresh_reserve_accounts(reserve, market, lending_program, oracle));
    CpiInstruction {
        program_id: lending_program,
        accounts,
        data: refresh_reserve_data_vec(),
        signer_bump: None,
    }
}

} // verus!
