//! Ledger addresses as plain 32-byte values, the well-known program ids the
//! router depends on, and the fixed seed prefixes of the metadata protocol's
//! derived addresses.

use vstd::prelude::*;

verus! {

/// A ledger account address: the 32 bytes of a public key.
pub type Key = [u8; 32];

/// Program id of the external metadata protocol
/// (base58 `metaqbxxUerdq28cj1RbAWkYQm3ybzjb6a8bt518x1s`).
pub const METADATA_PROGRAM_ID: Key = [
    11, 112, 101, 177, 227, 209, 124, 69, 56, 157, 82, 127, 107, 4, 195, 205, 88, 184, 108, 115,
    26, 160, 253, 181, 73, 182, 209, 188, 3, 248, 41, 70,
];

/// Program id of the authorization-rules protocol
/// (base58 `auth9SigNpDKz4sJJ1DfCTuZrZNSAgh9sFD3rboVmgg`).
pub const AUTH_RULES_PROGRAM_ID: Key = [
    8, 175, 248, 148, 195, 250, 103, 192, 22, 58, 48, 242, 52, 163, 61, 52, 103, 240, 58, 161,
    100, 23, 49, 94, 180, 184, 20, 39, 189, 155, 166, 237,
];

/// Address of the instructions sysvar account
/// (base58 `Sysvar1nstructions1111111111111111111111111`).
pub const SYSVAR_INSTRUCTIONS_ID: Key = [
    6, 167, 213, 23, 24, 123, 209, 102, 53, 218, 212, 4, 85, 253, 194, 192, 193, 36, 198, 143,
    33, 86, 117, 165, 219, 186, 203, 95, 8, 0, 0, 0,
];

/// Program id of the associated-token-account protocol
/// (base58 `ATokenGPvbdGVxr1b2hvZbsiqW5xWH25efTNsLJA8knL`).
pub const ASSOCIATED_TOKEN_PROGRAM_ID: Key = [
    140, 151, 37, 143, 78, 36, 137, 241, 187, 61, 16, 41, 20, 142, 13, 131, 11, 90, 19, 153,
    218, 255, 16, 132, 4, 142, 123, 216, 219, 233, 248, 89,
];

/// Program id of the classic token program
/// (base58 `TokenkegQfeZyiNwAJbNbGKPFXCWuBvf9Ss623VQ5DA`).
pub const TOKEN_PROGRAM_ID: Key = [
    6, 221, 246, 225, 215, 101, 161, 147, 217, 203, 225, 70, 206, 235, 121, 172, 28, 180, 133,
    237, 95, 91, 55, 145, 58, 140, 245, 133, 126, 255, 0, 169,
];

/// Program id of the extensions token program
/// (base58 `TokenzQdBNbLqP5VEhdkAS6EPFLC1PHnBqCXEpPxuEb`).
pub const TOKEN_2022_PROGRAM_ID: Key = [
    6, 221, 246, 225, 238, 117, 143, 222, 24, 66, 93, 188, 228, 108, 205, 218, 182, 26, 252, 77,
    131, 185, 13, 39, 254, 189, 249, 40, 216, 161, 139, 252,
];

/// Seed prefix of every derived metadata-protocol address: ASCII `metadata`.
pub const METADATA_SEED: [u8; 8] = [109, 101, 116, 97, 100, 97, 116, 97];

/// Trailing seed of an edition address: ASCII `edition`.
pub const EDITION_SEED: [u8; 7] = [101, 100, 105, 116, 105, 111, 110];

/// Trailing seed of a token-record address: ASCII `token_record`.
pub const TOKEN_RECORD_SEED: [u8; 12] = [116, 111, 107, 101, 110, 95, 114, 101, 99, 111, 114, 100];

/// Byte-wise equality of two addresses.
pub fn key_eq(a: &Key, b: &Key) -> (r: bool)
    ensures
        r <==> a@ == b@,
{
    let mut i: usize = 0;
    while i < 32
        invariant
            i <= 32,
            forall|j: int| 0 <= j < i ==> a@[j] == b@[j],
        decreases 32 - i,
    {
        if a[i] != b[i] {
            return false;
        }
        i = i + 1;
    }
    proof {
        assert(a@ =~= b@);
    }
    true
}

/// Copies a fixed-size byte array into a growable buffer.
pub fn bytes_to_vec<const N: usize>(a: &[u8; N]) -> (v: Vec<u8>)
    ensures
        v@ == a@,
{
    let mut v: Vec<u8> = Vec::new();
    let mut i: usize = 0;
    while i < N
        invariant
            i <= N,
            v@.len() == i,
            forall|j: int| 0 <= j < i ==> v@[j] == a@[j],
        decreases N - i,
    {
        v.push(a[i]);
        i = i + 1;
    }
    proof {
        assert(v@ =~= a@);
    }
    v
}

} // verus!
