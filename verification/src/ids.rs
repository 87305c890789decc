//! Identities of the ledger programs this engine recognizes, as 32-byte
//! addresses, together with the fixed shapes of the asset-program accounts.

use vstd::prelude::*;
use vstd::slice::slice_to_vec;

verus! {

/// Byte length of every address.
pub const ADDRESS_LEN: usize = 32;

/// Byte length of a legacy fixed-size mint record.
pub const MINT_LEN: usize = 82;

/// Byte length of a fixed-size asset-holding (token) account record.
pub const TOKEN_ACCOUNT_LEN: usize = 165;

/// Offset of the account-type discriminator byte in an extensible-format
/// asset account: one past the fixed-size record.
pub const ACCOUNT_TYPE_OFFSET: usize = 165;

/// Discriminator value marking an extensible-format mint record.
pub const MINT_DISCRIMINATOR: u8 = 1;

/// Discriminator value marking an extensible-format holding-account record.
pub const TOKEN_ACCOUNT_DISCRIMINATOR: u8 = 2;

/// Offset of the little-endian balance field inside a holding-account record.
pub const TOKEN_AMOUNT_OFFSET: usize = 64;

/// The ledger's built-in value-transfer program.
pub open spec fn system_program_id() -> Seq<u8> {
    Seq::new(32, |i: int| 0u8)
}

pub fn system_program_id_bytes() -> (r: Vec<u8>)
    ensures
        r@ == system_program_id(),
{
    let a: [u8; 32] = [0u8; 32];
    let v = slice_to_vec(a.as_slice());
    proof {
        assert(v@ =~= system_program_id());
    }
    v
}

/// The legacy fixed-size asset program.
pub open spec fn token_program_id() -> Seq<u8> {
    seq![
        6u8, 221, 246, 225, 215, 101, 161, 147, 217, 203, 225, 70, 206, 235, 121, 172, 28, 180,
        133, 237, 95, 91, 55, 145, 58, 140, 245, 133, 126, 255, 0, 169,
    ]
}

pub fn token_program_id_bytes() -> (r: Vec<u8>)
    ensures
        r@ == token_program_id(),
{
    let a: [u8; 32] = [
        6u8, 221, 246, 225, 215, 101, 161, 147, 217, 203, 225, 70, 206, 235, 121, 172, 28, 180,
        133, 237, 95, 91, 55, 145, 58, 140, 245, 133, 126, 255, 0, 169,
    ];
    let v = slice_to_vec(a.as_slice());
    proof {
        assert(v@ =~= token_program_id());
    }
    v
}

/// The extensible-format asset program.
pub open spec fn token_2022_program_id() -> Seq<u8> {
    seq![
        6u8, 221, 246, 225, 238, 117, 143, 222, 24, 66, 93, 188, 228, 108, 205, 218, 182, 26, 252,
        77, 131, 185, 13, 39, 254, 189, 249, 40, 216, 161, 139, 252,
    ]
}

pub fn token_2022_program_id_bytes() -> (r: Vec<u8>)
    ensures
        r@ == token_2022_program_id(),
{
    let a: [u8; 32] = [
        6u8, 221, 246, 225, 238, 117, 143, 222, 24, 66, 93, 188, 228, 108, 205, 218, 182, 26, 252,
        77, 131, 185, 13, 39, 254, 189, 249, 40, 216, 161, 139, 252,
    ];
    let v = slice_to_vec(a.as_slice());
    proof {
        assert(v@ =~= token_2022_program_id());
    }
    v
}

/// The associated-holding-account program, under whose identity every
/// associated holding account's address is derived.
pub open spec fn associated_token_program_id() -> Seq<u8> {
    seq![
        140u8, 151, 37, 143, 78, 36, 137, 241, 187, 61, 16, 41, 20, 142, 13, 131, 11, 90, 19, 153,
        218, 255, 16, 132, 4, 142, 123, 216, 219, 233, 248, 89,
    ]
}

pub fn associated_token_program_id_bytes() -> (r: Vec<u8>)
    ensures
        r@ == associated_token_program_id(),
{
    let a: [u8; 32] = [
        140u8, 151, 37, 143, 78, 36, 137, 241, 187, 61, 16, 41, 20, 142, 13, 131, 11, 90, 19, 153,
        218, 255, 16, 132, 4, 142, 123, 216, 219, 233, 248, 89,
    ];
    let v = slice_to_vec(a.as_slice());
    proof {
        assert(v@ =~= associated_token_program_id());
    }
    v
}

/// This escrow program's own identity, under which escrow records are owned
/// and their addresses derived.
pub open spec fn program_id() -> Seq<u8> {
    seq![
        15u8, 30, 107, 20, 33, 192, 74, 7, 4, 49, 38, 92, 25, 197, 187, 238, 25, 146, 186, 232,
        175, 209, 205, 7, 142, 248, 175, 112, 71, 220, 17, 247,
    ]
}

pub fn program_id_bytes() -> (r: Vec<u8>)
    ensures
        r@ == program_id(),
{
    let a: [u8; 32] = [
        15u8, 30, 107, 20, 33, 192, 74, 7, 4, 49, 38, 92, 25, 197, 187, 238, 25, 146, 186, 232,
        175, 209, 205, 7, 142, 248, 175, 112, 71, 220, 17, 247,
    ];
    let v = slice_to_vec(a.as_slice());
    proof {
        assert(v@ =~= program_id());
    }
    v
}

/// The literal tag that starts every escrow-record derivation: the bytes of
/// "escrow".
pub open spec fn escrow_tag() -> Seq<u8> {
    seq![101u8, 115, 99, 114, 111, 119]
}

pub fn escrow_tag_bytes() -> (r: Vec<u8>)
    ensures
        r@ == escrow_tag(),
{
    let a: [u8; 6] = [101u8, 115, 99, 114, 111, 119];
    let v = slice_to_vec(a.as_slice());
    proof {
        assert(v@ =~= escrow_tag());
    }
    v
}

} // verus!
