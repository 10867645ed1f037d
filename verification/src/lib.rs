//! Transaction-processing core of a two-asset fixed-rate swap facility.
//!
//! The library derives deterministic pool and vault identities, validates a
//! swap against the enclosing transaction's instruction list, converts the
//! deposited amount at a fixed rate, and decides which outbound transfer to
//! authorize.  The surrounding runtime (account creation, token transfers,
//! instruction introspection) hands plain values in and carries the decided
//! actions out.

use vstd::prelude::*;

pub mod chain;
pub mod convert;
pub mod error;
pub mod pda;
pub mod process;
pub mod state;

verus! {

/// This program's own identity.
pub const ID: [u8; 32] = [
    5, 5, 5, 5, 5, 5, 5, 5, 5, 5, 5, 5, 5, 5, 5, 5, 5, 5, 5, 5, 5, 5, 5, 5, 5, 5, 5, 5, 5, 5, 5,
    5,
];

/// Identity of the fungible-token service, the 32-byte decoding of
/// `TokenkegQfeZyiNwAJbNbGKPFXCWuBvf9Ss623VQ5DA`.
pub const TOKEN_PROGRAM: [u8; 32] = [
    6, 221, 246, 225, 215, 101, 161, 147, 217, 203, 225, 70, 206, 235, 121, 172, 28, 180, 133,
    237, 95, 91, 55, 145, 58, 140, 245, 133, 126, 255, 0, 169,
];

/// Compares two 32-byte account identities.
pub fn pubkey_eq(a: &[u8; 32], b: &[u8; 32]) -> (r: bool)
    ensures
        r <==> a@ == b@,
{
    let mut i: usize = 0;
    while i < 32
        invariant
            i <= 32,
            forall|j: int| 0 <= j < i ==> a@[j] == b@[j],
        decreases 32 - i,
    {
        if a[i] != b[i] {
            return false;
        }
        i += 1;
    }
    assert(a@ =~= b@);
    true
}

/// Appends a 32-byte identity to a byte buffer.
pub fn push_key(out: &mut Vec<u8>, key: &[u8; 32])
    ensures
        final(out)@ == old(out)@ + key@,
{
    let mut i: usize = 0;
    while i < 32
        invariant
            i <= 32,
            out@ == old(out)@ + key@.subrange(0, i as int),
        decreases 32 - i,
    {
        out.push(key[i]);
        assert(out@ =~= old(out)@ + key@.subrange(0, i + 1 as int));
        i += 1;
    }
    assert(out@ =~= old(out)@ + key@);
}

/// Copies the 32 bytes of `data` that start at `off` into a fresh identity.
pub fn read_key(data: &[u8], off: usize) -> (out: [u8; 32])
    requires
        off + 32 <= data@.len(),
    ensures
        out@ == data@.subrange(off as int, off as int + 32),
{
    let n: usize = data.len();
    let mut out: [u8; 32] = [0; 32];
    let mut i: usize = 0;
    while i < 32
        invariant
            i <= 32,
            off + 32 <= n == data@.len(),
            out@.len() == 32,
            forall|j: int| 0 <= j < i ==> out@[j] == data@[off + j],
        decreases 32 - i,
    {
        out[i] = *vstd::slice::slice_index_get(data, off + i);
        i += 1;
    }
    assert(out@ =~= data@.subrange(off as int, off as int + 32));
    out
}

} // verus!
