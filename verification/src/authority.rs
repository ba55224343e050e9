//! Derivation of the program's keyless signing authority.
//!
//! The authority is the first address, searching bump values downward from
//! 255, whose candidate digest does not land on the ed25519 curve.  The
//! candidate for a bump is the SHA-256 digest of
//! `seed ++ [bump] ++ program_id ++ marker`, where the marker is the fixed
//! ASCII string "ProgramDerivedAddress".  Only the digest itself and the
//! curve-membership test come from outside; the search is implemented and
//! verified here.

use vstd::prelude::*;

use crate::account::AccountKey;

verus! {

/// The SHA-256 digest of a byte sequence, as computed by
/// `const_crypto::sha2::Sha256`.
pub uninterp spec fn sha256_of(bytes: Seq<u8>) -> Seq<u8>;

/// Whether 32 bytes decompress to a point on the ed25519 curve, as decided
/// by `const_crypto::ed25519::crypto_unsafe_is_on_curve`.
pub uninterp spec fn on_curve(key: Seq<u8>) -> bool;

/// Relies on `const_crypto::sha2::Sha256` (`new`/`update`/`finalize`):
/// the digest is a function of the input bytes alone.
#[verifier::external_body]
fn sha256(bytes: &Vec<u8>) -> (r: [u8; 32])
    ensures
        r@ == sha256_of(bytes@),
{
    const_crypto::sha2::Sha256::new().update(bytes.as_slice()).finalize()
}

/// Relies on `const_crypto::ed25519::crypto_unsafe_is_on_curve`: whether the
/// 32 bytes are a valid compressed curve point, a function of the bytes alone.
#[verifier::external_body]
fn is_on_curve(key: &[u8; 32]) -> (r: bool)
    ensures
        r == on_curve(key@),
{
    const_crypto::ed25519::crypto_unsafe_is_on_curve(key)
}

/// The fixed ASCII marker "ProgramDerivedAddress" that ends every candidate
/// preimage.
pub open spec fn pda_marker() -> Seq<u8> {
    seq![
        80u8, 114, 111, 103, 114, 97, 109, 68, 101, 114, 105, 118, 101, 100, 65, 100, 100, 114,
        101, 115, 115,
    ]
}

/// The candidate preimage for one bump value.
pub open spec fn pda_preimage(seed: Seq<u8>, bump: u8, program_id: Seq<u8>) -> Seq<u8> {
    seed + seq![bump] + program_id + pda_marker()
}

/// The candidate address for one bump value.
pub open spec fn pda_candidate(seed: Seq<u8>, bump: u8, program_id: Seq<u8>) -> Seq<u8> {
    sha256_of(pda_preimage(seed, bump, program_id))
}

fn pda_marker_vec() -> (r: Vec<u8>)
    ensures
        r@ == pda_marker(),
{
    let mut v: Vec<u8> = Vec::new();
    v.push(80);
    v.push(114);
    v.push(111);
    v.push(103);
    v.push(114);
    v.push(97);
    v.push(109);
    v.push(68);
    v.push(101);
    v.push(114);
    v.push(105);
    v.push(118);
    v.push(101);
    v.push(100);
    v.push(65);
    v.push(100);
    v.push(100);
    v.push(114);
    v.push(101);
    v.push(115);
    v.push(115);
    assert(v@ =~= pda_marker());
    v
}

fn pda_preimage_vec(seed: &Vec<u8>, bump: u8, program_id: &AccountKey) -> (r: Vec<u8>)
    requires
        seed@.len() + 54 <= usize::MAX,
    ensures
        r@ == pda_preimage(seed@, bump, program_id@),
{
    let mut v: Vec<u8> = Vec::new();
    v.extend_from_slice(seed.as_slice());
    v.push(bump);
    v.extend_from_slice(program_id.bytes.as_slice());
    let mut marker = pda_marker_vec();
    v.append(&mut marker);
    assert(v@ =~= pda_preimage(seed@, bump, program_id@));
    v
}

/// Find the keyless address for the given seed: the candidate for the
/// largest bump value that lies off the curve.  Returns `None` only when
/// every bump's candidate is a curve point, in which case no keyless
/// address exists for this seed.
pub fn derive_program_address(seed: &Vec<u8>, program_id: &AccountKey) -> (r: Option<(
    AccountKey,
    u8,
)>)
    requires
        seed@.len() + 54 <= usize::MAX,
    ensures
        (r matches Some(p) ==> {
            &&& p.0@ == pda_candidate(seed@, p.1, program_id@)
            &&& !on_curve(p.0@)
            &&& forall|b: u8| b > p.1 ==> on_curve(pda_candidate(seed@, b, program_id@))
        }),
        r is None ==> forall|b: u8| on_curve(pda_candidate(seed@, b, program_id@)),
{
    let mut bump: u8 = 255;
    loop
        invariant
            seed@.len() + 54 <= usize::MAX,
            forall|b: u8| b > bump ==> on_curve(pda_candidate(seed@, b, program_id@)),
        decreases bump,
    {
        let preimage = pda_preimage_vec(seed, bump, program_id);
        let digest = sha256(&preimage);
        if !is_on_curve(&digest) {
            return Some((AccountKey { bytes: digest }, bump));
        }
        if bump == 0 {
            return None;
        }
        bump = bump - 1;
    }
}

/// The fixed ASCII seed "auth" of the protocol authority.
pub open spec fn auth_seed() -> Seq<u8> {
    seq![97u8, 117, 116, 104]
}

/// The fixed seed of the protocol authority, as a byte vector.
pub fn auth_seed_vec() -> (r: Vec<u8>)
    ensures
        r@ == auth_seed(),
{
    let mut v: Vec<u8> = Vec::new();
    v.push(97);
    v.push(117);
    v.push(116);
    v.push(104);
    assert(v@ =~= auth_seed());
    v
}

/// The deterministic keyless identity that signs every privileged sub-call.
#[derive(Clone, Copy, PartialEq, Eq, Debug)]
pub struct ProtocolAuthority {
    pub key: AccountKey,
    pub bump: u8,
}

impl ProtocolAuthority {
    /// The authority is exactly the keyless address derived from the fixed
    /// seed under the given program identifier.
    pub open spec fn derived_from(self, program_id: AccountKey) -> bool {
        &&& self.key@ == pda_candidate(auth_seed(), self.bump, program_id@)
        &&& !on_curve(self.key@)
        &&& forall|b: u8| b > self.bump ==> on_curve(pda_candidate(auth_seed(), b, program_id@))
    }

    /// Compute the authority for this deployment from the program's own
    /// identifier.  `None` only when no keyless address exists for the seed.
    pub fn derive(program_id: &AccountKey) -> (r: Option<ProtocolAuthority>)
        ensures
            (r matches Some(a) ==> a.derived_from(*program_id)),
            r is None ==> forall|b: u8| on_curve(pda_candidate(auth_seed(), b, program_id@)),
    {
        let seed = auth_seed_vec();
        match derive_program_address(&seed, program_id) {
            Some((key, bump)) => Some(ProtocolAuthority { key, bump }),
            None => None,
        }
    }
}

} // verus!
