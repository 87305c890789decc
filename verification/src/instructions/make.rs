//! Make: open an escrow.
//!
//! Positional accounts: maker (signer), the empty escrow-record slot, the
//! deposited asset's mint, the desired asset's mint, the maker's holding
//! account for asset A, the empty vault slot, the system program, the asset
//! program, and one trailing account — nine in all. The payload is the nonce,
//! the desired amount of asset B, and the deposit amount of asset A, each
//! 8 bytes little-endian; a zero deposit is rejected.
//!
//! On success the plan creates the record at its derived address, creates the
//! vault as the derived holding account owned by the record's address, writes
//! the record's fields, and transfers the deposit from the maker's holding
//! account into the vault under the maker's own signature.

use vstd::prelude::*;
use vstd::bytes::spec_u64_from_le_bytes;
use vstd::bytes::u64_from_le_bytes;
use vstd::slice::slice_subrange;
use vstd::slice::slice_to_vec;
use crate::account::Account;
use crate::account::AccountV;
use crate::account::bytes_eq;
use crate::errors::EscrowError;
use crate::errors::ProgramError;
use crate::helpers::AssociatedTokenAccount;
use crate::helpers::MintInterface;
use crate::helpers::SignerAccount;
use crate::ids::associated_token_program_id;
use crate::ids::program_id;
use crate::pda::ata_seeds;
use crate::pda::derive_ata_address;
use crate::pda::derive_escrow_address;
use crate::pda::escrow_seeds;
use crate::pda::escrow_signer_seed_vecs;
use crate::pda::pda_find;
use crate::plan::CreateAta;
use crate::plan::CreateAtaV;
use crate::plan::CreateRecord;
use crate::plan::CreateRecordV;
use crate::plan::Transfer;
use crate::plan::TransferV;
use crate::state::ESCROW_LEN;
use crate::state::Escrow;
use crate::state::EscrowV;

verus! {

/// Byte length of the make payload: three 8-byte fields.
pub const MAKE_PAYLOAD_LEN: usize = 24;

/// The make payload, decoded.
#[derive(Clone, Copy, Debug, PartialEq, Eq, Structural)]
pub struct MakeInstructionData {
    /// Maker-chosen nonce disambiguating several escrows of one maker.
    pub seed: u64,
    /// Amount of asset B required to fulfill the escrow.
    pub receive: u64,
    /// Amount of asset A the maker deposits.
    pub amount: u64,
}

impl MakeInstructionData {
    /// The decoded payload: exactly 24 bytes, a zero deposit rejected.
    pub open spec fn parse_spec(data: Seq<u8>) -> Result<MakeInstructionData, ProgramError> {
        if data.len() != MAKE_PAYLOAD_LEN {
            Err(ProgramError::InvalidInstructionData)
        } else {
            let d = MakeInstructionData {
                seed: spec_u64_from_le_bytes(data.subrange(0, 8)),
                receive: spec_u64_from_le_bytes(data.subrange(8, 16)),
                amount: spec_u64_from_le_bytes(data.subrange(16, 24)),
            };
            if d.amount == 0 {
                Err(ProgramError::InvalidInstructionData)
            } else {
                Ok(d)
            }
        }
    }

    /// Decode the make payload.
    pub fn try_from(data: &Vec<u8>) -> (r: Result<MakeInstructionData, ProgramError>)
        ensures
            r == Self::parse_spec(data@),
    {
        if data.len() != MAKE_PAYLOAD_LEN {
            return Err(ProgramError::InvalidInstructionData);
        }
        let seed = u64_from_le_bytes(slice_subrange(data.as_slice(), 0, 8));
        let receive = u64_from_le_bytes(slice_subrange(data.as_slice(), 8, 16));
        let amount = u64_from_le_bytes(slice_subrange(data.as_slice(), 16, 24));
        if amount == 0 {
            return Err(ProgramError::InvalidInstructionData);
        }
        Ok(MakeInstructionData { seed, receive, amount })
    }
}

/// Everything a successful make lays down, in execution order: create the
/// record, create the vault, write the record's bytes, move the deposit.
#[verifier::ext_equal]
pub struct MakePlanV {
    pub create_record: CreateRecordV,
    pub create_vault: CreateAtaV,
    pub record_data: Seq<u8>,
    pub deposit: TransferV,
}

/// Exec form of [`MakePlanV`].
pub struct MakePlan {
    pub create_record: CreateRecord,
    pub create_vault: CreateAta,
    pub record_data: Vec<u8>,
    pub deposit: Transfer,
}

impl View for MakePlan {
    type V = MakePlanV;

    open spec fn view(&self) -> MakePlanV {
        MakePlanV {
            create_record: self.create_record@,
            create_vault: self.create_vault@,
            record_data: self.record_data@,
            deposit: self.deposit@,
        }
    }
}

/// The account checks of make, in order: the maker signs, both mints are
/// valid mint records, and the maker's asset-A account is the derived holding
/// account of (maker, asset program, mint A).
pub open spec fn make_checks_spec(accts: Seq<AccountV>) -> Result<(), ProgramError>
    recommends
        accts.len() == 9,
{
    match SignerAccount::check_spec(accts[0]) {
        Err(e) => Err(e),
        Ok(_) => match MintInterface::check_spec(accts[2]) {
            Err(e) => Err(e),
            Ok(_) => match MintInterface::check_spec(accts[3]) {
                Err(e) => Err(e),
                Ok(_) => AssociatedTokenAccount::check_spec(accts[4], accts[0], accts[2], accts[7]),
            },
        },
    }
}

/// The plan of a make whose checks all passed.
pub open spec fn make_plan_spec(accts: Seq<AccountV>, d: MakeInstructionData, bump: u8) -> MakePlanV
    recommends
        accts.len() == 9,
{
    MakePlanV {
        create_record: CreateRecordV {
            payer: accts[0].address,
            address: accts[1].address,
            space: ESCROW_LEN as u64,
            seeds: escrow_seeds(accts[0].address, d.seed).push(seq![bump]),
        },
        create_vault: CreateAtaV {
            payer: accts[0].address,
            account: accts[5].address,
            wallet: accts[1].address,
            mint: accts[2].address,
        },
        record_data: (EscrowV {
            seed: d.seed,
            maker: accts[0].address,
            mint_a: accts[2].address,
            mint_b: accts[3].address,
            receive: d.receive,
            bump,
        }).enc(),
        deposit: TransferV {
            from: accts[4].address,
            to: accts[5].address,
            authority: accts[0].address,
            amount: d.amount,
            signer_seeds: None,
        },
    }
}

/// What make decides, for every account list and payload: the exact error,
/// or the exact plan.
pub open spec fn make_spec(accts: Seq<AccountV>, data: Seq<u8>) -> Result<MakePlanV, ProgramError> {
    if accts.len() != 9 {
        Err(ProgramError::NotEnoughAccountKeys)
    } else {
        match make_checks_spec(accts) {
            Err(e) => Err(e),
            Ok(_) => match MakeInstructionData::parse_spec(data) {
                Err(e) => Err(e),
                Ok(d) => match pda_find(escrow_seeds(accts[0].address, d.seed), program_id()) {
                    None => Err(ProgramError::Custom(EscrowError::InvalidAddress)),
                    Some(p) => if p.0 != accts[1].address {
                        Err(ProgramError::Custom(EscrowError::InvalidAddress))
                    } else {
                        match pda_find(
                            ata_seeds(accts[1].address, accts[7].address, accts[2].address),
                            associated_token_program_id(),
                        ) {
                            None => Err(ProgramError::Custom(EscrowError::InvalidAddress)),
                            Some(v) => if v.0 != accts[5].address {
                                Err(ProgramError::Custom(EscrowError::InvalidAddress))
                            } else {
                                Ok(make_plan_spec(accts, d, p.1))
                            },
                        }
                    },
                },
            },
        }
    }
}

/// The make transition.
pub struct Make;

impl Make {
    /// Open an escrow: validate accounts and payload, derive the record and
    /// vault addresses, and lay down the creations, the record's contents,
    /// and the maker's deposit.
    pub fn process(accounts: &Vec<Account>, data: &Vec<u8>) -> (r: Result<MakePlan, ProgramError>)
        requires
            forall|i: int| 0 <= i < accounts@.len() ==> (#[trigger] accounts@[i]).wf(),
        ensures
            (match r {
                Ok(p) => make_spec(accounts.deep_view(), data@) == Ok::<_, ProgramError>(p@),
                Err(e) => make_spec(accounts.deep_view(), data@) == Err::<MakePlanV, _>(e),
            }),
    {
        let ghost av = accounts.deep_view();
        if accounts.len() != 9 {
            return Err(ProgramError::NotEnoughAccountKeys);
        }
        let maker = &accounts[0];
        let escrow = &accounts[1];
        let mint_a = &accounts[2];
        let mint_b = &accounts[3];
        let maker_ata_a = &accounts[4];
        let vault = &accounts[5];
        let token_program = &accounts[7];
        if let Err(e) = SignerAccount::check(maker) {
            return Err(e);
        }
        if let Err(e) = MintInterface::check(mint_a) {
            return Err(e);
        }
        if let Err(e) = MintInterface::check(mint_b) {
            return Err(e);
        }
        if let Err(e) = AssociatedTokenAccount::check(maker_ata_a, maker, mint_a, token_program) {
            return Err(e);
        }
        let d = match MakeInstructionData::try_from(data) {
            Ok(d) => d,
            Err(e) => return Err(e),
        };
        let (record_address, bump) = match derive_escrow_address(&maker.address, d.seed) {
            Some(p) => p,
            None => return Err(ProgramError::Custom(EscrowError::InvalidAddress)),
        };
        if !bytes_eq(&record_address, &escrow.address) {
            return Err(ProgramError::Custom(EscrowError::InvalidAddress));
        }
        let vault_derived = match derive_ata_address(
            &escrow.address,
            &token_program.address,
            &mint_a.address,
        ) {
            Some(p) => p.0,
            None => return Err(ProgramError::Custom(EscrowError::InvalidAddress)),
        };
        if !bytes_eq(&vault_derived, &vault.address) {
            return Err(ProgramError::Custom(EscrowError::InvalidAddress));
        }
        let record = Escrow {
            seed: d.seed,
            maker: slice_to_vec(maker.address.as_slice()),
            mint_a: slice_to_vec(mint_a.address.as_slice()),
            mint_b: slice_to_vec(mint_b.address.as_slice()),
            receive: d.receive,
            bump,
        };
        let record_data = record.store();
        let plan = MakePlan {
            create_record: CreateRecord {
                payer: slice_to_vec(maker.address.as_slice()),
                address: slice_to_vec(escrow.address.as_slice()),
                space: 113,
                seeds: escrow_signer_seed_vecs(&maker.address, d.seed, bump),
            },
            create_vault: CreateAta {
                payer: slice_to_vec(maker.address.as_slice()),
                account: slice_to_vec(vault.address.as_slice()),
                wallet: slice_to_vec(escrow.address.as_slice()),
                mint: slice_to_vec(mint_a.address.as_slice()),
            },
            record_data,
            deposit: Transfer {
                from: slice_to_vec(maker_ata_a.address.as_slice()),
                to: slice_to_vec(vault.address.as_slice()),
                authority: slice_to_vec(maker.address.as_slice()),
                amount: d.amount,
                signer_seeds: None,
            },
        };
        proof {
            assert(plan@ =~~= make_plan_spec(av, d, bump));
        }
        Ok(plan)
    }
}

/// Law: a make whose deposit amount is zero always fails with the payload
/// error, whatever else the payload holds, and so creates nothing.
pub proof fn lemma_make_zero_amount_rejected(accts: Seq<AccountV>, data: Seq<u8>)
    requires
        accts.len() == 9,
        make_checks_spec(accts) is Ok,
        data.len() == MAKE_PAYLOAD_LEN,
        spec_u64_from_le_bytes(data.subrange(16, 24)) == 0,
    ensures
        make_spec(accts, data) == Err::<MakePlanV, ProgramError>(
            ProgramError::InvalidInstructionData,
        ),
{
}

/// Law: a make that succeeds creates exactly one record of the fixed size at
/// the derived record address, creates exactly one vault owned by that
/// record, and moves exactly the deposit amount — which is never zero — from
/// the maker's holding account into that vault; and the record's bytes read
/// back as exactly the fields written.
pub proof fn lemma_make_success_shape(accts: Seq<AccountV>, data: Seq<u8>, p: MakePlanV)
    requires
        forall|i: int| 0 <= i < accts.len() ==> (#[trigger] accts[i]).address.len() == 32,
        make_spec(accts, data) == Ok::<MakePlanV, ProgramError>(p),
    ensures
        p.record_data.len() == ESCROW_LEN,
        p.create_record.space == ESCROW_LEN as u64,
        p.create_record.address == accts[1].address,
        p.create_vault.account == accts[5].address,
        p.create_vault.wallet == accts[1].address,
        p.deposit.amount == spec_u64_from_le_bytes(data.subrange(16, 24)),
        p.deposit.amount != 0,
        p.deposit.from == accts[4].address,
        p.deposit.to == p.create_vault.account,
        EscrowV::dec(p.record_data) == (EscrowV {
            seed: spec_u64_from_le_bytes(data.subrange(0, 8)),
            maker: accts[0].address,
            mint_a: accts[2].address,
            mint_b: accts[3].address,
            receive: spec_u64_from_le_bytes(data.subrange(8, 16)),
            bump: EscrowV::dec(p.record_data).bump,
        }),
{
    let d = MakeInstructionData::parse_spec(data)->Ok_0;
    let bump = pda_find(escrow_seeds(accts[0].address, d.seed), program_id())->Some_0.1;
    let e = EscrowV {
        seed: d.seed,
        maker: accts[0].address,
        mint_a: accts[2].address,
        mint_b: accts[3].address,
        receive: d.receive,
        bump,
    };
    vstd::bytes::lemma_auto_spec_u64_to_from_le_bytes();
    assert(p == make_plan_spec(accts, d, bump));
    assert(p.record_data == e.enc());
    assert(e.wf());
    crate::state::lemma_escrow_round_trip(e);
    assert(EscrowV::dec(p.record_data) == e);
}

} // verus!
