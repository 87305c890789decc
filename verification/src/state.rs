//! The escrow record: the fixed-layout persistent structure describing one
//! open escrow. Its 113 bytes are, in order: the maker-chosen nonce (8,
//! little-endian), the maker's address (32), the deposited asset's mint (32),
//! the desired asset's mint (32), the desired amount (8, little-endian), and
//! the cached derivation bump (1). No padding, no version tag.

use vstd::prelude::*;
use vstd::bytes::spec_u64_to_le_bytes;
use vstd::bytes::spec_u64_from_le_bytes;
use vstd::bytes::u64_to_le_bytes;
use vstd::bytes::u64_from_le_bytes;
use vstd::bytes::lemma_auto_spec_u64_to_from_le_bytes;
use vstd::slice::slice_to_vec;
use vstd::slice::slice_subrange;
use crate::errors::ProgramError;

verus! {

/// Fixed byte size of an encoded escrow record.
pub const ESCROW_LEN: usize = 113;

/// One open escrow, as plain values.
pub struct Escrow {
    /// Maker-chosen nonce disambiguating several escrows of one maker.
    pub seed: u64,
    /// The maker: entitled to cancel, recipient of asset B.
    pub maker: Vec<u8>,
    /// Identity (mint address) of the deposited asset.
    pub mint_a: Vec<u8>,
    /// Identity (mint address) of the desired asset.
    pub mint_b: Vec<u8>,
    /// Amount of asset B required to fulfill the escrow.
    pub receive: u64,
    /// The derivation bump cached at creation to avoid the search.
    pub bump: u8,
}

/// The mathematical value of an `Escrow`.
#[verifier::ext_equal]
pub struct EscrowV {
    pub seed: u64,
    pub maker: Seq<u8>,
    pub mint_a: Seq<u8>,
    pub mint_b: Seq<u8>,
    pub receive: u64,
    pub bump: u8,
}

impl View for Escrow {
    type V = EscrowV;

    open spec fn view(&self) -> EscrowV {
        EscrowV {
            seed: self.seed,
            maker: self.maker@,
            mint_a: self.mint_a@,
            mint_b: self.mint_b@,
            receive: self.receive,
            bump: self.bump,
        }
    }
}

impl EscrowV {
    /// A record value is well formed when its three addresses have address
    /// length.
    pub open spec fn wf(self) -> bool {
        &&& self.maker.len() == 32
        &&& self.mint_a.len() == 32
        &&& self.mint_b.len() == 32
    }

    /// The record's fixed binary layout.
    pub open spec fn enc(self) -> Seq<u8> {
        spec_u64_to_le_bytes(self.seed) + self.maker + self.mint_a + self.mint_b
            + spec_u64_to_le_bytes(self.receive) + seq![self.bump]
    }

    /// The record value stored in a buffer of the fixed size.
    pub open spec fn dec(bytes: Seq<u8>) -> EscrowV
        recommends
            bytes.len() == ESCROW_LEN,
    {
        EscrowV {
            seed: spec_u64_from_le_bytes(bytes.subrange(0, 8)),
            maker: bytes.subrange(8, 40),
            mint_a: bytes.subrange(40, 72),
            mint_b: bytes.subrange(72, 104),
            receive: spec_u64_from_le_bytes(bytes.subrange(104, 112)),
            bump: bytes[112],
        }
    }
}

/// Law: decoding inverts encoding — every well-formed record value written
/// to its binary layout reads back unchanged.
pub proof fn lemma_escrow_round_trip(e: EscrowV)
    requires
        e.wf(),
    ensures
        EscrowV::dec(e.enc()) == e,
{
    lemma_auto_spec_u64_to_from_le_bytes();
    let b = e.enc();
    assert(b.subrange(0, 8) =~= spec_u64_to_le_bytes(e.seed));
    assert(b.subrange(8, 40) =~= e.maker);
    assert(b.subrange(40, 72) =~= e.mint_a);
    assert(b.subrange(72, 104) =~= e.mint_b);
    assert(b.subrange(104, 112) =~= spec_u64_to_le_bytes(e.receive));
    assert(EscrowV::dec(e.enc()) =~~= e);
}

impl Escrow {
    pub open spec fn wf(self) -> bool {
        self@.wf()
    }

    /// Decode a stored record. Exactly the inputs of the fixed size are
    /// accepted, and decoding inverts encoding.
    pub fn load(bytes: &Vec<u8>) -> (r: Result<Escrow, ProgramError>)
        ensures
            bytes@.len() != ESCROW_LEN ==> r == Err::<Escrow, ProgramError>(
                ProgramError::InvalidAccountData,
            ),
            bytes@.len() == ESCROW_LEN ==> (match r {
                Ok(e) => e.wf() && e@.enc() == bytes@ && e@ == EscrowV::dec(bytes@),
                Err(_) => false,
            }),
    {
        if bytes.len() != ESCROW_LEN {
            return Err(ProgramError::InvalidAccountData);
        }
        let seed = u64_from_le_bytes(slice_subrange(bytes.as_slice(), 0, 8));
        let maker = slice_to_vec(slice_subrange(bytes.as_slice(), 8, 40));
        let mint_a = slice_to_vec(slice_subrange(bytes.as_slice(), 40, 72));
        let mint_b = slice_to_vec(slice_subrange(bytes.as_slice(), 72, 104));
        let receive = u64_from_le_bytes(slice_subrange(bytes.as_slice(), 104, 112));
        let bump = bytes[112];
        let e = Escrow { seed, maker, mint_a, mint_b, receive, bump };
        proof {
            lemma_auto_spec_u64_to_from_le_bytes();
            assert(e@.enc() =~= bytes@);
            assert(e@ =~~= EscrowV::dec(bytes@));
        }
        Ok(e)
    }

    /// Set the nonce field.
    pub fn set_seed(&mut self, seed: u64)
        ensures
            *final(self) == (Escrow { seed, ..*old(self) }),
    {
        self.seed = seed;
    }

    /// Set the maker field.
    pub fn set_maker(&mut self, maker: Vec<u8>)
        ensures
            *final(self) == (Escrow { maker, ..*old(self) }),
    {
        self.maker = maker;
    }

    /// Set the deposited asset's mint field.
    pub fn set_mint_a(&mut self, mint_a: Vec<u8>)
        ensures
            *final(self) == (Escrow { mint_a, ..*old(self) }),
    {
        self.mint_a = mint_a;
    }

    /// Set the desired asset's mint field.
    pub fn set_mint_b(&mut self, mint_b: Vec<u8>)
        ensures
            *final(self) == (Escrow { mint_b, ..*old(self) }),
    {
        self.mint_b = mint_b;
    }

    /// Set the desired-amount field.
    pub fn set_receive(&mut self, receive: u64)
        ensures
            *final(self) == (Escrow { receive, ..*old(self) }),
    {
        self.receive = receive;
    }

    /// Set the cached bump field.
    pub fn set_bump(&mut self, bump: u8)
        ensures
            *final(self) == (Escrow { bump, ..*old(self) }),
    {
        self.bump = bump;
    }

    /// Set every field at once.
    pub fn set_inner(
        &mut self,
        seed: u64,
        maker: Vec<u8>,
        mint_a: Vec<u8>,
        mint_b: Vec<u8>,
        receive: u64,
        bump: u8,
    )
        ensures
            *final(self) == (Escrow { seed, maker, mint_a, mint_b, receive, bump }),
    {
        self.seed = seed;
        self.maker = maker;
        self.mint_a = mint_a;
        self.mint_b = mint_b;
        self.receive = receive;
        self.bump = bump;
    }

    /// Encode the record into its fixed binary layout.
    pub fn store(&self) -> (r: Vec<u8>)
        requires
            self.wf(),
        ensures
            r@ == self@.enc(),
            r@.len() == ESCROW_LEN,
    {
        let mut out: Vec<u8> = u64_to_le_bytes(self.seed);
        append_bytes(&mut out, &self.maker);
        append_bytes(&mut out, &self.mint_a);
        append_bytes(&mut out, &self.mint_b);
        let tail: Vec<u8> = u64_to_le_bytes(self.receive);
        append_bytes(&mut out, &tail);
        out.push(self.bump);
        proof {
            lemma_auto_spec_u64_to_from_le_bytes();
            assert(out@ =~= self@.enc());
        }
        out
    }
}

/// Copy the slice's bytes onto the end of the vector.
fn append_bytes(out: &mut Vec<u8>, src: &Vec<u8>)
    ensures
        final(out)@ == old(out)@ + src@,
{
    let n = src.len();
    let mut i: usize = 0;
    while i < n
        invariant
            n == src@.len(),
            i <= n,
            out@ == old(out)@ + src@.subrange(0, i as int),
        decreases n - i,
    {
        out.push(src[i]);
        proof {
            assert(out@ =~= old(out)@ + src@.subrange(0, i + 1 as int));
        }
        i += 1;
    }
    proof {
        assert(out@ =~= old(out)@ + src@);
    }
}

} // verus!
