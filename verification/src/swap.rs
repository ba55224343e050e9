//! Validation of untrusted swap payloads.
//!
//! A swap payload arrives from an off-chain quoting service and is forwarded
//! to the aggregator verbatim, so it is checked structurally first: the
//! leading 8 bytes must be a recognized route opcode tag, the tail-anchored
//! amount field must equal the amount this program computed itself, and the
//! tail slippage field must equal the one accepted tolerance.  Route
//! internals between head and tail are never decoded.

use vstd::bytes::{spec_u16_from_le_bytes, spec_u64_from_le_bytes, u16_from_le_bytes, u64_from_le_bytes};
use vstd::prelude::*;
use vstd::slice::slice_subrange;

use crate::account::{passthrough, readonly, signer_readonly, writable, AccountKey, AccountSlot};

verus! {

/// The shortest payload that still has a full tail:
/// 8 opcode bytes, then at the tail an 8-byte amount, 8 further bytes,
/// a 2-byte slippage field and one flag byte.
pub const MIN_SWAP_PAYLOAD_LEN: usize = 27;

/// The only slippage tolerance, in basis points, that is accepted.
pub const ACCEPTED_SLIPPAGE_BPS: u16 = 50;

/// The route opcodes this program recognizes.
#[derive(Clone, Copy, PartialEq, Eq, Structural, Debug)]
pub enum SwapOpcode {
    /// Swap through the aggregator's shared token accounts.
    SharedAccountsRoute,
    /// Swap for an exact output amount through caller-supplied accounts.
    ExactOutRoute,
    /// Swap for an exact output amount through shared token accounts.
    SharedAccountsExactOutRoute,
}

/// The direction of the flow a payload is validated for.
#[derive(Clone, Copy, PartialEq, Eq, Structural, Debug)]
pub enum SwapFlow {
    /// Leverage up: swap the borrowed asset back into the collateral asset.
    LeverageUp,
    /// Leverage down: swap withdrawn collateral into the debt asset.
    LeverageDown,
}

/// Why a payload was rejected.
#[derive(Clone, Copy, PartialEq, Eq, Structural, Debug)]
pub enum SwapError {
    /// The payload is shorter than the minimum tail size.
    PayloadTooShort,
    /// The leading 8 bytes are not an opcode tag accepted for this flow.
    UnrecognizedOpcode,
    /// The tail amount field differs from the expected amount.
    AmountMismatch,
    /// The tail slippage field differs from the accepted tolerance.
    SlippageMismatch,
}

/// The 8-byte tag of each recognized opcode.
pub open spec fn opcode_tag(op: SwapOpcode) -> Seq<u8> {
    match op {
        SwapOpcode::SharedAccountsRoute => seq![193u8, 32, 155, 51, 65, 214, 156, 129],
        SwapOpcode::ExactOutRoute => seq![208u8, 51, 239, 151, 123, 43, 237, 92],
        SwapOpcode::SharedAccountsExactOutRoute => seq![176u8, 209, 105, 168, 154, 125, 69, 62],
    }
}

/// The opcode whose tag the payload starts with, if any.
pub open spec fn opcode_of(d: Seq<u8>) -> Option<SwapOpcode> {
    if d.len() >= 8 {
        if d.subrange(0, 8) == opcode_tag(SwapOpcode::SharedAccountsRoute) {
            Some(SwapOpcode::SharedAccountsRoute)
        } else if d.subrange(0, 8) == opcode_tag(SwapOpcode::ExactOutRoute) {
            Some(SwapOpcode::ExactOutRoute)
        } else if d.subrange(0, 8) == opcode_tag(SwapOpcode::SharedAccountsExactOutRoute) {
            Some(SwapOpcode::SharedAccountsExactOutRoute)
        } else {
            None
        }
    } else {
        None
    }
}

/// Which opcodes each flow accepts.
pub open spec fn flow_allows(flow: SwapFlow, op: SwapOpcode) -> bool {
    match flow {
        SwapFlow::LeverageUp => op is SharedAccountsRoute,
        SwapFlow::LeverageDown => op is ExactOutRoute || op is SharedAccountsExactOutRoute,
    }
}

/// The little-endian amount held in the payload's tail.
pub open spec fn tail_amount(d: Seq<u8>) -> u64
    recommends
        d.len() >= MIN_SWAP_PAYLOAD_LEN,
{
    spec_u64_from_le_bytes(d.subrange(d.len() - 19, d.len() - 11))
}

/// The little-endian slippage field, in basis points, held in the
/// payload's tail.
pub open spec fn tail_slippage_bps(d: Seq<u8>) -> u16
    recommends
        d.len() >= MIN_SWAP_PAYLOAD_LEN,
{
    spec_u16_from_le_bytes(d.subrange(d.len() - 3, d.len() - 1))
}

/// A payload passes every structural check for the flow.
pub open spec fn valid_swap_payload(flow: SwapFlow, d: Seq<u8>, expected_amount: u64) -> bool {
    &&& d.len() >= MIN_SWAP_PAYLOAD_LEN
    &&& opcode_of(d) matches Some(op) && flow_allows(flow, op)
    &&& tail_amount(d) == expected_amount
    &&& tail_slippage_bps(d) == ACCEPTED_SLIPPAGE_BPS
}

/// The full outcome of validating a payload: checks run in a fixed order
/// (length, opcode, amount, slippage) and the first failure decides the
/// error.
pub open spec fn swap_payload_check(flow: SwapFlow, d: Seq<u8>, expected_amount: u64) -> Result<
    SwapOpcode,
    SwapError,
> {
    if d.len() < MIN_SWAP_PAYLOAD_LEN {
        Err(SwapError::PayloadTooShort)
    } else if !(opcode_of(d) matches Some(op) && flow_allows(flow, op)) {
        Err(SwapError::UnrecognizedOpcode)
    } else if tail_amount(d) != expected_amount {
        Err(SwapError::AmountMismatch)
    } else if tail_slippage_bps(d) != ACCEPTED_SLIPPAGE_BPS {
        Err(SwapError::SlippageMismatch)
    } else {
        Ok(opcode_of(d)->Some_0)
    }
}

fn prefix_is(data: &Vec<u8>, t0: u8, t1: u8, t2: u8, t3: u8, t4: u8, t5: u8, t6: u8, t7: u8) -> (r:
    bool)
    requires
        data@.len() >= 8,
    ensures
        r <==> data@.subrange(0, 8) == seq![t0, t1, t2, t3, t4, t5, t6, t7],
{
    proof {
        assert forall|i: int| 0 <= i < 8 implies data@.subrange(0, 8)[i] == data@[i] by {}
    }
    let r = data[0] == t0 && data[1] == t1 && data[2] == t2 && data[3] == t3 && data[4] == t4
        && data[5] == t5 && data[6] == t6 && data[7] == t7;
    proof {
        if r {
            assert(data@.subrange(0, 8) =~= seq![t0, t1, t2, t3, t4, t5, t6, t7]);
        }
    }
    r
}

/// Decode the payload's leading opcode tag.
pub fn read_opcode(data: &Vec<u8>) -> (r: Option<SwapOpcode>)
    ensures
        r == opcode_of(data@),
{
    if data.len() < 8 {
        return None;
    }
    if prefix_is(data, 193, 32, 155, 51, 65, 214, 156, 129) {
        Some(SwapOpcode::SharedAccountsRoute)
    } else if prefix_is(data, 208, 51, 239, 151, 123, 43, 237, 92) {
        Some(SwapOpcode::ExactOutRoute)
    } else if prefix_is(data, 176, 209, 105, 168, 154, 125, 69, 62) {
        Some(SwapOpcode::SharedAccountsExactOutRoute)
    } else {
        None
    }
}

/// Read the tail amount field.
pub fn read_tail_amount(data: &Vec<u8>) -> (r: u64)
    requires
        data@.len() >= MIN_SWAP_PAYLOAD_LEN,
    ensures
        r == tail_amount(data@),
{
    let len = data.len();
    let bytes = slice_subrange(data.as_slice(), len - 19, len - 11);
    u64_from_le_bytes(bytes)
}

/// Read the tail slippage field.
pub fn read_tail_slippage_bps(data: &Vec<u8>) -> (r: u16)
    requires
        data@.len() >= MIN_SWAP_PAYLOAD_LEN,
    ensures
        r == tail_slippage_bps(data@),
{
    let len = data.len();
    let bytes = slice_subrange(data.as_slice(), len - 3, len - 1);
    u16_from_le_bytes(bytes)
}

/// Validate an untrusted payload for the given flow and expected amount,
/// strictly before any account list is built or any sub-call issued.
pub fn validate_swap_payload(flow: SwapFlow, data: &Vec<u8>, expected_amount: u64) -> (r: Result<
    SwapOpcode,
    SwapError,
>)
    ensures
        r == swap_payload_check(flow, data@, expected_amount),
{
    if data.len() < MIN_SWAP_PAYLOAD_LEN {
        return Err(SwapError::PayloadTooShort);
    }
    let op = match read_opcode(data) {
        Some(op) => op,
        None => {
            return Err(SwapError::UnrecognizedOpcode);
        },
    };
    let allowed = match flow {
        SwapFlow::LeverageUp => matches!(op, SwapOpcode::SharedAccountsRoute),
        SwapFlow::LeverageDown => !matches!(op, SwapOpcode::SharedAccountsRoute),
    };
    if !allowed {
        return Err(SwapError::UnrecognizedOpcode);
    }
    if read_tail_amount(data) != expected_amount {
        return Err(SwapError::AmountMismatch);
    }
    if read_tail_slippage_bps(data) != ACCEPTED_SLIPPAGE_BPS {
        return Err(SwapError::SlippageMismatch);
    }
    Ok(op)
}

/// Validation passes exactly when the payload is structurally valid, and a
/// pass names the payload's own opcode.
pub proof fn lemma_check_passes_iff_valid(flow: SwapFlow, d: Seq<u8>, expected_amount: u64)
    ensures
        swap_payload_check(flow, d, expected_amount) is Ok <==> valid_swap_payload(
            flow,
            d,
            expected_amount,
        ),
        swap_payload_check(flow, d, expected_amount) matches Ok(op) ==> opcode_of(d) == Some(op),
{
}

/// A payload whose leading 8 bytes are not a recognized opcode tag is always
/// rejected.
pub proof fn lemma_unrecognized_opcode_rejected(flow: SwapFlow, d: Seq<u8>, expected_amount: u64)
    requires
        opcode_of(d) is None,
    ensures
        swap_payload_check(flow, d, expected_amount) is Err,
{
}

/// A payload whose tail amount differs from the independently computed
/// expected amount is always rejected, for any payload of at least the
/// minimum tail size.
pub proof fn lemma_amount_mismatch_rejected(flow: SwapFlow, d: Seq<u8>, expected_amount: u64)
    requires
        d.len() >= MIN_SWAP_PAYLOAD_LEN,
        tail_amount(d) != expected_amount,
    ensures
        swap_payload_check(flow, d, expected_amount) is Err,
{
}

/// A payload whose slippage field differs from the accepted tolerance is
/// always rejected.
pub proof fn lemma_slippage_mismatch_rejected(flow: SwapFlow, d: Seq<u8>, expected_amount: u64)
    requires
        tail_slippage_bps(d) != ACCEPTED_SLIPPAGE_BPS,
    ensures
        swap_payload_check(flow, d, expected_amount) is Err,
{
}

/// Account list of a shared-accounts route: fixed roles first, binding the
/// three leading caller-supplied accounts to the aggregator's authority and
/// shared token accounts, then the rest of the caller's accounts passed
/// through untouched.  Aggregator slots stand in for the optional platform
/// fee and alternative token program.
pub open spec fn shared_route_accounts(
    token_program: AccountKey,
    user_authority: AccountKey,
    input_vault: AccountKey,
    output_vault: AccountKey,
    input_mint: AccountKey,
    output_mint: AccountKey,
    event_authority: AccountKey,
    aggregator: AccountKey,
    remaining: Seq<AccountSlot>,
) -> Seq<AccountSlot>
    recommends
        remaining.len() >= 3,
{
    seq![
        readonly(token_program),
        readonly(remaining[0].key),
        signer_readonly(user_authority),
        writable(input_vault),
        writable(remaining[1].key),
        writable(remaining[2].key),
        writable(output_vault),
        readonly(input_mint),
        readonly(output_mint),
        readonly(aggregator),
        readonly(aggregator),
        readonly(event_authority),
        readonly(aggregator),
    ] + remaining.skip(3).map_values(|s: AccountSlot| passthrough(s))
}

/// Account list of a plain exact-out route: fixed roles only, then every
/// caller-supplied account passed through untouched.
pub open spec fn exact_out_route_accounts(
    token_program: AccountKey,
    user_authority: AccountKey,
    input_vault: AccountKey,
    output_vault: AccountKey,
    input_mint: AccountKey,
    output_mint: AccountKey,
    event_authority: AccountKey,
    aggregator: AccountKey,
    remaining: Seq<AccountSlot>,
) -> Seq<AccountSlot> {
    seq![
        readonly(token_program),
        signer_readonly(user_authority),
        writable(input_vault),
        writable(output_vault),
        readonly(aggregator),
        readonly(input_mint),
        readonly(output_mint),
        readonly(aggregator),
        readonly(aggregator),
        readonly(event_authority),
        readonly(aggregator),
    ] + remaining.map_values(|s: AccountSlot| passthrough(s))
}

/// Append the caller-supplied accounts from `start` on, each stripped of
/// any signer mark but keeping its writability.
pub(crate) fn extend_passthrough(
    accounts: &mut Vec<AccountSlot>,
    remaining: &Vec<AccountSlot>,
    start: usize,
)
    requires
        start <= remaining@.len(),
    ensures
        final(accounts)@ == old(accounts)@ + remaining@.skip(start as int).map_values(
            |s: AccountSlot| passthrough(s),
        ),
{
    let ghost orig = accounts@;
    let mut i: usize = start;
    while i < remaining.len()
        invariant
            start <= i <= remaining@.len(),
            accounts@ == orig + remaining@.subrange(start as int, i as int).map_values(
                |s: AccountSlot| passthrough(s),
            ),
        decreases remaining@.len() - i,
    {
        let slot = remaining[i];
        accounts.push(AccountSlot { key: slot.key, is_signer: false, is_writable: slot.is_writable });
        proof {
            assert(remaining@.subrange(start as int, i + 1) =~= remaining@.subrange(
                start as int,
                i as int,
            ) + seq![remaining@[i as int]]);
            assert(accounts@ =~= orig + remaining@.subrange(start as int, i + 1).map_values(
                |s: AccountSlot| passthrough(s),
            ));
        }
        i = i + 1;
    }
    proof {
        assert(remaining@.subrange(start as int, remaining@.len() as int) =~= remaining@.skip(
            start as int,
        ));
    }
}

} // verus!
