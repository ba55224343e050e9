//! Plain data model for cross-program calls.
//!
//! A call into another program is an ordered list of account slots plus a
//! binary payload, addressed to a program identifier.  Keys are opaque
//! 32-byte identifiers; nothing here interprets their contents.

use vstd::prelude::*;

verus! {

/// A 32-byte account or program identifier.
#[derive(Clone, Copy, PartialEq, Eq, Debug)]
pub struct AccountKey {
    pub bytes: [u8; 32],
}

impl View for AccountKey {
    type V = Seq<u8>;

    open spec fn view(&self) -> Seq<u8> {
        self.bytes@
    }
}

/// One slot of a call's account list: a key plus its access flags.
#[derive(Clone, Copy, PartialEq, Eq, Debug)]
pub struct AccountSlot {
    pub key: AccountKey,
    pub is_signer: bool,
    pub is_writable: bool,
}

/// A writable, non-signing slot.
pub open spec fn writable(key: AccountKey) -> AccountSlot {
    AccountSlot { key, is_signer: false, is_writable: true }
}

/// A read-only, non-signing slot.
pub open spec fn readonly(key: AccountKey) -> AccountSlot {
    AccountSlot { key, is_signer: false, is_writable: false }
}

/// A writable slot that must sign.
pub open spec fn signer_writable(key: AccountKey) -> AccountSlot {
    AccountSlot { key, is_signer: true, is_writable: true }
}

/// A read-only slot that must sign.
pub open spec fn signer_readonly(key: AccountKey) -> AccountSlot {
    AccountSlot { key, is_signer: true, is_writable: false }
}

/// A caller-supplied slot passed through to the callee: its key and
/// writability are kept, but it is never marked as a signer.
pub open spec fn passthrough(slot: AccountSlot) -> AccountSlot {
    AccountSlot { key: slot.key, is_signer: false, is_writable: slot.is_writable }
}

/// Whether some slot of the list carries the given key.
pub open spec fn contains_key(slots: Seq<AccountSlot>, key: AccountKey) -> bool {
    exists|i: int| 0 <= i < slots.len() && slots[i].key == key
}

/// Copy a byte payload, element for element.
pub(crate) fn clone_bytes(v: &Vec<u8>) -> (r: Vec<u8>)
    ensures
        r@ == v@,
{
    let r = v.clone();
    proof {
        assert(r@ =~= v@);
    }
    r
}

/// One fully built cross-program call, ready for the host to issue.
///
/// `signer_bump` is `Some(bump)` when the call must be signed by the
/// program-derived authority: the host then proves the signature by
/// supplying the fixed authority seed together with this bump.
#[derive(Clone, PartialEq, Eq, Debug)]
pub struct CpiInstruction {
    pub program_id: AccountKey,
    pub accounts: Vec<AccountSlot>,
    pub data: Vec<u8>,
    pub signer_bump: Option<u8>,
}

} // verus!
