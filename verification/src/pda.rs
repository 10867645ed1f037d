//! Deterministic address derivation.
//!
//! An account identity is derived by hashing ordered seed material, a trial
//! "bump" byte, the owning program's identity and a fixed marker, searching
//! bump values from the top of the byte range downward until the digest is
//! not a valid curve point.  Such an address can never be controlled by an
//! externally held private key: presenting the seeds is the only way to
//! authorize actions on its behalf.
//!
//! Every derivation this program performs takes exactly two 32-byte seeds:
//! (base mint, quote mint) for the pool, and (pool, mint) for each vault.

use vstd::prelude::*;

use crate::push_key;

verus! {

/// SHA-256 digest of a byte string, a function of those bytes alone.
pub uninterp spec fn sha256_of(bytes: Seq<u8>) -> Seq<u8>;

/// Whether 32 bytes decompress to a valid ed25519 curve point, a function of
/// those bytes alone.
pub uninterp spec fn on_curve(key: Seq<u8>) -> bool;

/// Relies on `const_crypto::sha2::Sha256` (`new`, `update`, `finalize`): the
/// SHA-256 digest of the input bytes.
#[verifier::external_body]
fn sha256(bytes: &Vec<u8>) -> (r: [u8; 32])
    ensures
        r@ == sha256_of(bytes@),
{
    const_crypto::sha2::Sha256::new().update(bytes.as_slice()).finalize()
}

/// Relies on `const_crypto::ed25519::crypto_unsafe_is_on_curve`: whether the
/// 32 bytes are a valid compressed ed25519 point.
#[verifier::external_body]
fn is_on_curve(key: &[u8; 32]) -> (r: bool)
    ensures
        r == on_curve(key@),
{
    const_crypto::ed25519::crypto_unsafe_is_on_curve(key)
}

/// The fixed marker closing every derivation preimage, the bytes of the
/// string `ProgramDerivedAddress`.
pub open spec fn pda_marker() -> Seq<u8> {
    seq![
        80u8, 114u8, 111u8, 103u8, 114u8, 97u8, 109u8, 68u8, 101u8, 114u8, 105u8, 118u8, 101u8,
        100u8, 65u8, 100u8, 100u8, 114u8, 101u8, 115u8, 115u8,
    ]
}

/// Hash preimage for one bump candidate: both seeds, the bump byte, the
/// owning program's identity, and the marker.
pub open spec fn pda_preimage(seed_a: Seq<u8>, seed_b: Seq<u8>, bump: u8, program_id: Seq<u8>) -> Seq<u8> {
    seed_a + seed_b + seq![bump] + program_id + pda_marker()
}

/// The candidate address one bump value yields.
pub open spec fn pda_candidate(seed_a: Seq<u8>, seed_b: Seq<u8>, bump: u8, program_id: Seq<u8>) -> Seq<u8> {
    sha256_of(pda_preimage(seed_a, seed_b, bump, program_id))
}

/// Result of the bump search from `bump` downward: the first candidate, in
/// descending bump order, that is not a curve point; `None` if every
/// remaining candidate is one.
pub open spec fn derive_from(
    seed_a: Seq<u8>,
    seed_b: Seq<u8>,
    program_id: Seq<u8>,
    bump: u8,
) -> Option<(Seq<u8>, u8)>
    decreases bump,
{
    if !on_curve(pda_candidate(seed_a, seed_b, bump, program_id)) {
        Some((pda_candidate(seed_a, seed_b, bump, program_id), bump))
    } else if bump == 0 {
        None
    } else {
        derive_from(seed_a, seed_b, program_id, (bump - 1) as u8)
    }
}

/// The derived address and bump for a seed pair under a program identity.
pub open spec fn derive_spec(seed_a: Seq<u8>, seed_b: Seq<u8>, program_id: Seq<u8>) -> Option<
    (Seq<u8>, u8),
> {
    derive_from(seed_a, seed_b, program_id, 255)
}

/// Builds the hash preimage for one bump candidate.
fn build_preimage(seed_a: &[u8; 32], seed_b: &[u8; 32], bump: u8, program_id: &[u8; 32]) -> (out:
    Vec<u8>)
    ensures
        out@ == pda_preimage(seed_a@, seed_b@, bump, program_id@),
{
    let mut out: Vec<u8> = Vec::new();
    push_key(&mut out, seed_a);
    push_key(&mut out, seed_b);
    out.push(bump);
    push_key(&mut out, program_id);
    let ghost before_marker = out@;
    out.push(80);
    out.push(114);
    out.push(111);
    out.push(103);
    out.push(114);
    out.push(97);
    out.push(109);
    out.push(68);
    out.push(101);
    out.push(114);
    out.push(105);
    out.push(118);
    out.push(101);
    out.push(100);
    out.push(65);
    out.push(100);
    out.push(100);
    out.push(114);
    out.push(101);
    out.push(115);
    out.push(115);
    proof {
        assert(out@ =~= before_marker + pda_marker());
        assert(before_marker =~= seed_a@ + seed_b@ + seq![bump] + program_id@);
        assert(out@ =~= pda_preimage(seed_a@, seed_b@, bump, program_id@));
    }
    out
}

/// Derives the address bound to a pair of 32-byte seeds under a program
/// identity, together with the bump that produced it.
///
/// The result is a function of the arguments alone: every invocation on the
/// same inputs returns the same address and bump.  `None` is returned in the
/// (cryptographically unreachable) case that every bump candidate is a valid
/// curve point.
pub fn find_program_address(seed_a: &[u8; 32], seed_b: &[u8; 32], program_id: &[u8; 32]) -> (r:
    Option<([u8; 32], u8)>)
    ensures
        match r {
            Some(found) => derive_spec(seed_a@, seed_b@, program_id@) == Some(
                (found.0@, found.1),
            ),
            None => derive_spec(seed_a@, seed_b@, program_id@) is None,
        },
{
    let mut bump: u8 = 255;
    loop
        invariant
            derive_spec(seed_a@, seed_b@, program_id@) == derive_from(
                seed_a@,
                seed_b@,
                program_id@,
                bump,
            ),
        decreases bump,
    {
        let preimage = build_preimage(seed_a, seed_b, bump, program_id);
        let candidate = sha256(&preimage);
        if !is_on_curve(&candidate) {
            return Some((candidate, bump));
        }
        if bump == 0 {
            return None;
        }
        bump = bump - 1;
    }
}

} // verus!
