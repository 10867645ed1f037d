//! Persistent pool record.
//!
//! The record is a fixed 145-byte layout: 16 bytes of little-endian rate
//! (low word first), the two vault identities, then the authority seed
//! material — base mint, quote mint and the derivation bump — from which the
//! pool's own signing capability is reconstructed on demand.  Once written it
//! is never mutated: there is no update instruction.

use vstd::bytes::{spec_u128_from_le_bytes, spec_u128_to_le_bytes, u128_from_le_bytes, u128_to_le_bytes, lemma_auto_spec_u128_to_from_le_bytes};
use vstd::prelude::*;
use vstd::slice::slice_subrange;

use crate::error::PoolError;
use crate::{push_key, read_key};

verus! {

/// Mathematical model of a pool record.
pub struct PoolView {
    /// Quote-asset atoms per `10^9` base-asset atoms.
    pub rate: u128,
    /// Identity of the base-asset custody vault.
    pub vault_a: Seq<u8>,
    /// Identity of the quote-asset custody vault.
    pub vault_b: Seq<u8>,
    /// Base-mint identity, first authority seed.
    pub mint_a: Seq<u8>,
    /// Quote-mint identity, second authority seed.
    pub mint_b: Seq<u8>,
    /// Derivation bump of the pool identity.
    pub bump: u8,
}

impl PoolView {
    /// Every identity field carries exactly 32 bytes.
    pub open spec fn wf(self) -> bool {
        self.vault_a.len() == 32 && self.vault_b.len() == 32 && self.mint_a.len() == 32
            && self.mint_b.len() == 32
    }
}

/// One pool's persistent state.
#[derive(Debug)]
pub struct Pool {
    /// Quote-asset atoms per `10^9` base-asset atoms; set once, immutable.
    pub rate: u128,
    /// Identity of the base-asset custody vault.
    pub vault_a: [u8; 32],
    /// Identity of the quote-asset custody vault.
    pub vault_b: [u8; 32],
    /// Base-mint identity, first authority seed.
    pub mint_a: [u8; 32],
    /// Quote-mint identity, second authority seed.
    pub mint_b: [u8; 32],
    /// Derivation bump of the pool identity, last authority seed.
    pub bump: u8,
}

impl View for Pool {
    type V = PoolView;

    open spec fn view(&self) -> PoolView {
        PoolView {
            rate: self.rate,
            vault_a: self.vault_a@,
            vault_b: self.vault_b@,
            mint_a: self.mint_a@,
            mint_b: self.mint_b@,
            bump: self.bump,
        }
    }
}

/// Exact byte size of the persisted record: 16 + 32 + 32 + 65.
pub const POOL_LEN: usize = 145;

/// The 145-byte encoding of a pool record.
pub open spec fn encode_spec(p: PoolView) -> Seq<u8> {
    spec_u128_to_le_bytes(p.rate) + p.vault_a + p.vault_b + p.mint_a + p.mint_b + seq![p.bump]
}

/// The pool record stored in the first 145 bytes of an account.
pub open spec fn decode_spec(d: Seq<u8>) -> PoolView
    recommends
        d.len() >= POOL_LEN,
{
    PoolView {
        rate: spec_u128_from_le_bytes(d.subrange(0, 16)),
        vault_a: d.subrange(16, 48),
        vault_b: d.subrange(48, 80),
        mint_a: d.subrange(80, 112),
        mint_b: d.subrange(112, 144),
        bump: d[144],
    }
}

impl Pool {
    /// Reads the record stored in an account's raw bytes; an account shorter
    /// than the fixed record size is malformed.
    pub fn from_account(data: &[u8]) -> (r: Result<Pool, PoolError>)
        ensures
            data@.len() >= POOL_LEN ==> (r matches Ok(p) && p@ == decode_spec(data@)),
            data@.len() < POOL_LEN ==> r == Err::<Pool, PoolError>(PoolError::InvalidAccountData),
    {
        if data.len() < POOL_LEN {
            return Err(PoolError::InvalidAccountData);
        }
        let rate = u128_from_le_bytes(slice_subrange(data, 0, 16));
        let vault_a = read_key(data, 16);
        let vault_b = read_key(data, 48);
        let mint_a = read_key(data, 80);
        let mint_b = read_key(data, 112);
        let bump = *vstd::slice::slice_index_get(data, 144);
        Ok(Pool { rate, vault_a, vault_b, mint_a, mint_b, bump })
    }

    /// Writes the record as its exact 145-byte encoding.
    pub fn to_account(&self) -> (out: Vec<u8>)
        ensures
            out@ == encode_spec(self@),
            out@.len() == POOL_LEN,
    {
        proof {
            lemma_auto_spec_u128_to_from_le_bytes();
        }
        let mut out = u128_to_le_bytes(self.rate);
        push_key(&mut out, &self.vault_a);
        push_key(&mut out, &self.vault_b);
        push_key(&mut out, &self.mint_a);
        push_key(&mut out, &self.mint_b);
        out.push(self.bump);
        proof {
            assert(out@ =~= encode_spec(self@));
        }
        out
    }
}

/// A well-formed record decodes from its own encoding unchanged: the layout
/// loses nothing and the offsets do not overlap.
pub proof fn lemma_pool_record_round_trip(p: PoolView)
    requires
        p.wf(),
    ensures
        decode_spec(encode_spec(p)) == p,
{
    lemma_auto_spec_u128_to_from_le_bytes();
    let e = encode_spec(p);
    assert(e.subrange(0, 16) =~= spec_u128_to_le_bytes(p.rate));
    assert(e.subrange(16, 48) =~= p.vault_a);
    assert(e.subrange(48, 80) =~= p.vault_b);
    assert(e.subrange(80, 112) =~= p.mint_a);
    assert(e.subrange(112, 144) =~= p.mint_b);
    assert(decode_spec(encode_spec(p)) == p);
}

} // verus!
