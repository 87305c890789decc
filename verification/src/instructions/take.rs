//! Take: fulfill an escrow.
//!
//! Positional accounts: maker, taker (signer), the escrow record, the
//! deposited asset's mint, the desired asset's mint, the maker's asset-B
//! holding account and the taker's asset-B holding account, the taker's
//! asset-A holding account, the vault, the asset program, the system program,
//! and one trailing account — twelve in all. Take carries no payload.
//!
//! The authority proof: the record address supplied must equal the derivation
//! from the supplied maker's address and the nonce and bump stored in the
//! record; a mismatch is rejected with an ownership error before any value
//! movement. On success the plan creates the taker's asset-A and the maker's
//! asset-B holding accounts where they are missing, pays the full vault
//! balance to the taker under the record's derived-address signature, closes
//! the vault to the maker, pays the desired amount of asset B from taker to
//! maker under the taker's own signature, and closes the record to the taker.

use vstd::prelude::*;
use crate::account::Account;
use crate::account::AccountV;
use crate::errors::ProgramError;
use crate::helpers::AssociatedTokenAccount;
use crate::helpers::MintInterface;
use crate::helpers::ProgramAccount;
use crate::helpers::SignerAccount;
use crate::helpers::read_token_balance;
use crate::helpers::token_balance;
use crate::ids::program_id;
use crate::pda::escrow_address_matches;
use crate::pda::escrow_seeds;
use crate::pda::escrow_signer_seed_vecs;
use crate::pda::pda_create;
use crate::plan::CloseRecord;
use crate::plan::CloseRecordV;
use crate::plan::CloseToken;
use crate::plan::CloseTokenV;
use crate::plan::CreateAta;
use crate::plan::CreateAtaV;
use crate::plan::Transfer;
use crate::plan::TransferV;
use crate::state::Escrow;
use crate::state::EscrowV;
use vstd::slice::slice_to_vec;

verus! {

/// Everything a successful take lays down, in execution order: the two
/// just-in-time account creations, the payout of the vault to the taker, the
/// closing of the vault, the taker's payment to the maker, and the closing of
/// the record.
#[verifier::ext_equal]
pub struct TakePlanV {
    pub create_taker_ata_a: Option<CreateAtaV>,
    pub create_maker_ata_b: Option<CreateAtaV>,
    pub pay_a: TransferV,
    pub close_vault: CloseTokenV,
    pub pay_b: TransferV,
    pub close_record: CloseRecordV,
}

/// Exec form of [`TakePlanV`].
pub struct TakePlan {
    pub create_taker_ata_a: Option<CreateAta>,
    pub create_maker_ata_b: Option<CreateAta>,
    pub pay_a: Transfer,
    pub close_vault: CloseToken,
    pub pay_b: Transfer,
    pub close_record: CloseRecord,
}

impl View for TakePlan {
    type V = TakePlanV;

    open spec fn view(&self) -> TakePlanV {
        TakePlanV {
            create_taker_ata_a: match self.create_taker_ata_a {
                Some(a) => Some(a@),
                None => None,
            },
            create_maker_ata_b: match self.create_maker_ata_b {
                Some(a) => Some(a@),
                None => None,
            },
            pay_a: self.pay_a@,
            close_vault: self.close_vault@,
            pay_b: self.pay_b@,
            close_record: self.close_record@,
        }
    }
}

/// The account checks of take, in order: the taker signs, both mints are
/// valid mint records, the escrow record is this program's own record of the
/// right size, the taker's asset-B account is the derived holding account of
/// (taker, asset program, mint B), and the vault is the derived holding
/// account of (escrow record, asset program, mint A).
pub open spec fn take_checks_spec(accts: Seq<AccountV>) -> Result<(), ProgramError>
    recommends
        accts.len() == 12,
{
    match SignerAccount::check_spec(accts[1]) {
        Err(e) => Err(e),
        Ok(_) => match MintInterface::check_spec(accts[3]) {
            Err(e) => Err(e),
            Ok(_) => match MintInterface::check_spec(accts[4]) {
                Err(e) => Err(e),
                Ok(_) => match ProgramAccount::check_spec(accts[2]) {
                    Err(e) => Err(e),
                    Ok(_) => match AssociatedTokenAccount::check_spec(
                        accts[6],
                        accts[1],
                        accts[4],
                        accts[9],
                    ) {
                        Err(e) => Err(e),
                        Ok(_) => AssociatedTokenAccount::check_spec(
                            accts[8],
                            accts[2],
                            accts[3],
                            accts[9],
                        ),
                    },
                },
            },
        },
    }
}

/// The plan of a take whose checks all passed, for the record value `e`.
pub open spec fn take_plan_spec(accts: Seq<AccountV>, e: EscrowV) -> TakePlanV
    recommends
        accts.len() == 12,
{
    let signer_seeds = escrow_seeds(accts[0].address, e.seed).push(seq![e.bump]);
    TakePlanV {
        create_taker_ata_a: if AssociatedTokenAccount::check_spec(
            accts[7],
            accts[1],
            accts[3],
            accts[9],
        ) is Err {
            Some(
                CreateAtaV {
                    payer: accts[1].address,
                    account: accts[7].address,
                    wallet: accts[1].address,
                    mint: accts[3].address,
                },
            )
        } else {
            None
        },
        create_maker_ata_b: if AssociatedTokenAccount::check_spec(
            accts[5],
            accts[0],
            accts[4],
            accts[9],
        ) is Err {
            Some(
                CreateAtaV {
                    payer: accts[1].address,
                    account: accts[5].address,
                    wallet: accts[0].address,
                    mint: accts[4].address,
                },
            )
        } else {
            None
        },
        pay_a: TransferV {
            from: accts[8].address,
            to: accts[7].address,
            authority: accts[2].address,
            amount: token_balance(accts[8].data),
            signer_seeds: Some(signer_seeds),
        },
        close_vault: CloseTokenV {
            account: accts[8].address,
            destination: accts[0].address,
            authority: accts[2].address,
            signer_seeds: signer_seeds,
        },
        pay_b: TransferV {
            from: accts[6].address,
            to: accts[5].address,
            authority: accts[1].address,
            amount: e.receive,
            signer_seeds: None,
        },
        close_record: CloseRecordV { account: accts[2].address, destination: accts[1].address },
    }
}

/// What take decides, for every account list: the exact error, or the exact
/// plan. The record is decoded from the escrow account's bytes; the supplied
/// record address must re-derive from the supplied maker and the stored nonce
/// and bump, or the invocation fails with an ownership error and no value
/// moves.
pub open spec fn take_spec(accts: Seq<AccountV>) -> Result<TakePlanV, ProgramError> {
    if accts.len() != 12 {
        Err(ProgramError::NotEnoughAccountKeys)
    } else {
        match take_checks_spec(accts) {
            Err(e) => Err(e),
            Ok(_) => {
                let e = EscrowV::dec(accts[2].data);
                if pda_create(escrow_seeds(accts[0].address, e.seed).push(seq![e.bump]), program_id())
                    != Some(accts[2].address) {
                    Err(ProgramError::InvalidAccountOwner)
                } else {
                    Ok(take_plan_spec(accts, e))
                }
            },
        }
    }
}

/// The take transition.
pub struct Take;

impl Take {
    /// Fulfill an escrow: validate accounts, prove the record's derivation,
    /// and lay down the just-in-time creations, both transfers, and both
    /// closings.
    pub fn process(accounts: &Vec<Account>) -> (r: Result<TakePlan, ProgramError>)
        requires
            forall|i: int| 0 <= i < accounts@.len() ==> (#[trigger] accounts@[i]).wf(),
        ensures
            (match r {
                Ok(p) => take_spec(accounts.deep_view()) == Ok::<_, ProgramError>(p@),
                Err(e) => take_spec(accounts.deep_view()) == Err::<TakePlanV, _>(e),
            }),
    {
        let ghost av = accounts.deep_view();
        if accounts.len() != 12 {
            return Err(ProgramError::NotEnoughAccountKeys);
        }
        let maker = &accounts[0];
        let taker = &accounts[1];
        let escrow = &accounts[2];
        let mint_a = &accounts[3];
        let mint_b = &accounts[4];
        let maker_ata_b = &accounts[5];
        let taker_ata_b = &accounts[6];
        let taker_ata_a = &accounts[7];
        let vault = &accounts[8];
        let token_program = &accounts[9];
        if let Err(e) = SignerAccount::check(taker) {
            return Err(e);
        }
        if let Err(e) = MintInterface::check(mint_a) {
            return Err(e);
        }
        if let Err(e) = MintInterface::check(mint_b) {
            return Err(e);
        }
        if let Err(e) = ProgramAccount::check(escrow) {
            return Err(e);
        }
        if let Err(e) = AssociatedTokenAccount::check(taker_ata_b, taker, mint_b, token_program) {
            return Err(e);
        }
        if let Err(e) = AssociatedTokenAccount::check(vault, escrow, mint_a, token_program) {
            return Err(e);
        }
        let record = match Escrow::load(&escrow.data) {
            Ok(record) => record,
            Err(_) => {
                proof {
                    assert(false);
                }
                return Err(ProgramError::InvalidAccountOwner);
            },
        };
        if !escrow_address_matches(&maker.address, record.seed, record.bump, &escrow.address) {
            return Err(ProgramError::InvalidAccountOwner);
        }
        let needs_taker_ata_a = AssociatedTokenAccount::check(
            taker_ata_a,
            taker,
            mint_a,
            token_program,
        ).is_err();
        let needs_maker_ata_b = AssociatedTokenAccount::check(
            maker_ata_b,
            maker,
            mint_b,
            token_program,
        ).is_err();
        proof {
            assert(vault@.data.len() >= 72);
        }
        let vault_amount = read_token_balance(&vault.data);
        let plan = TakePlan {
            create_taker_ata_a: if needs_taker_ata_a {
                Some(
                    CreateAta {
                        payer: slice_to_vec(taker.address.as_slice()),
                        account: slice_to_vec(taker_ata_a.address.as_slice()),
                        wallet: slice_to_vec(taker.address.as_slice()),
                        mint: slice_to_vec(mint_a.address.as_slice()),
                    },
                )
            } else {
                None
            },
            create_maker_ata_b: if needs_maker_ata_b {
                Some(
                    CreateAta {
                        payer: slice_to_vec(taker.address.as_slice()),
                        account: slice_to_vec(maker_ata_b.address.as_slice()),
                        wallet: slice_to_vec(maker.address.as_slice()),
                        mint: slice_to_vec(mint_b.address.as_slice()),
                    },
                )
            } else {
                None
            },
            pay_a: Transfer {
                from: slice_to_vec(vault.address.as_slice()),
                to: slice_to_vec(taker_ata_a.address.as_slice()),
                authority: slice_to_vec(escrow.address.as_slice()),
                amount: vault_amount,
                signer_seeds: Some(
                    escrow_signer_seed_vecs(&maker.address, record.seed, record.bump),
                ),
            },
            close_vault: CloseToken {
                account: slice_to_vec(vault.address.as_slice()),
                destination: slice_to_vec(maker.address.as_slice()),
                authority: slice_to_vec(escrow.address.as_slice()),
                signer_seeds: escrow_signer_seed_vecs(&maker.address, record.seed, record.bump),
            },
            pay_b: Transfer {
                from: slice_to_vec(taker_ata_b.address.as_slice()),
                to: slice_to_vec(maker_ata_b.address.as_slice()),
                authority: slice_to_vec(taker.address.as_slice()),
                amount: record.receive,
                signer_seeds: None,
            },
            close_record: CloseRecord {
                account: slice_to_vec(escrow.address.as_slice()),
                destination: slice_to_vec(taker.address.as_slice()),
            },
        };
        proof {
            assert(record@ == EscrowV::dec(av[2].data));
            assert(plan@ =~~= take_plan_spec(av, record@));
        }
        Ok(plan)
    }
}

/// Law: for every take invocation whose account checks pass, if the supplied
/// record address is not the derivation from the supplied maker and the
/// nonce and bump stored in the record, the invocation fails with the
/// ownership error — no plan, hence no transfer.
pub proof fn lemma_take_rejects_substitution(accts: Seq<AccountV>)
    requires
        accts.len() == 12,
        take_checks_spec(accts) is Ok,
        pda_create(
            escrow_seeds(accts[0].address, EscrowV::dec(accts[2].data).seed).push(
                seq![EscrowV::dec(accts[2].data).bump],
            ),
            program_id(),
        ) != Some(accts[2].address),
    ensures
        take_spec(accts) == Err::<TakePlanV, ProgramError>(ProgramError::InvalidAccountOwner),
{
}

/// Law: a take that succeeds settles both sides at once — the taker is paid
/// the full prior vault balance from the vault, the maker is paid exactly
/// the record's desired amount from the taker, the vault is closed to the
/// maker, and the record is closed to the taker.
pub proof fn lemma_take_settles_both_sides(accts: Seq<AccountV>, p: TakePlanV)
    requires
        accts.len() == 12,
        take_spec(accts) == Ok::<TakePlanV, ProgramError>(p),
    ensures
        p.pay_a.from == accts[8].address,
        p.pay_a.to == accts[7].address,
        p.pay_a.amount == token_balance(accts[8].data),
        p.pay_b.from == accts[6].address,
        p.pay_b.to == accts[5].address,
        p.pay_b.amount == EscrowV::dec(accts[2].data).receive,
        p.close_vault.account == accts[8].address,
        p.close_vault.destination == accts[0].address,
        p.close_record.account == accts[2].address,
        p.close_record.destination == accts[1].address,
{
}

/// Law: once an escrow is settled its record address no longer holds a
/// program-owned record of the right shape, so a second take on it fails
/// with the owner error (wrong owning program) or the account-data error
/// (wrong size) before anything else is decided.
pub proof fn lemma_take_rejects_closed_record(accts: Seq<AccountV>)
    requires
        accts.len() == 12,
        SignerAccount::check_spec(accts[1]) is Ok,
        MintInterface::check_spec(accts[3]) is Ok,
        MintInterface::check_spec(accts[4]) is Ok,
        accts[2].owner != program_id() || accts[2].data.len() != crate::state::ESCROW_LEN,
    ensures
        take_spec(accts) == Err::<TakePlanV, ProgramError>(
            if accts[2].owner != program_id() {
                ProgramError::Custom(crate::errors::EscrowError::InvalidOwner)
            } else {
                ProgramError::Custom(crate::errors::EscrowError::InvalidAccountData)
            },
        ),
{
}

} // verus!
