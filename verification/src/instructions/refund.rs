//! Refund: cancel an escrow.
//!
//! Positional accounts: maker (signer), the escrow record, the deposited
//! asset's mint, the vault, the maker's asset-A holding account, the system
//! program, the asset program, and one trailing account — eight in all.
//! Refund carries no payload.
//!
//! The same authority proof as take: the supplied record address must equal
//! the derivation from the supplied maker and the stored nonce and bump. The
//! refund amount is read from the vault's raw encoding at its fixed balance
//! offset — the current vault balance, not the record's desired amount. On
//! success the plan creates the maker's asset-A holding account where it is
//! missing, pays the full vault balance back to the maker under the record's
//! derived-address signature, closes the vault to the maker, and closes the
//! record to the maker.

use vstd::prelude::*;
use crate::account::Account;
use crate::account::AccountV;
use crate::errors::ProgramError;
use crate::helpers::AssociatedTokenAccount;
use crate::helpers::MintInterface;
use crate::helpers::ProgramAccount;
use crate::helpers::SignerAccount;
use crate::helpers::read_token_balance;
use crate::helpers::token_balance;
use crate::ids::program_id;
use crate::pda::escrow_address_matches;
use crate::pda::escrow_seeds;
use crate::pda::escrow_signer_seed_vecs;
use crate::pda::pda_create;
use crate::plan::CloseRecord;
use crate::plan::CloseRecordV;
use crate::plan::CloseToken;
use crate::plan::CloseTokenV;
use crate::plan::CreateAta;
use crate::plan::CreateAtaV;
use crate::plan::Transfer;
use crate::plan::TransferV;
use crate::state::Escrow;
use crate::state::EscrowV;
use vstd::slice::slice_to_vec;

verus! {

/// Everything a successful refund lays down, in execution order: the
/// just-in-time account creation, the repayment of the vault to the maker,
/// the closing of the vault, and the closing of the record.
#[verifier::ext_equal]
pub struct RefundPlanV {
    pub create_maker_ata_a: Option<CreateAtaV>,
    pub repay: TransferV,
    pub close_vault: CloseTokenV,
    pub close_record: CloseRecordV,
}

/// Exec form of [`RefundPlanV`].
pub struct RefundPlan {
    pub create_maker_ata_a: Option<CreateAta>,
    pub repay: Transfer,
    pub close_vault: CloseToken,
    pub close_record: CloseRecord,
}

impl View for RefundPlan {
    type V = RefundPlanV;

    open spec fn view(&self) -> RefundPlanV {
        RefundPlanV {
            create_maker_ata_a: match self.create_maker_ata_a {
                Some(a) => Some(a@),
                None => None,
            },
            repay: self.repay@,
            close_vault: self.close_vault@,
            close_record: self.close_record@,
        }
    }
}

/// The account checks of refund, in order: the maker signs, the escrow
/// record is this program's own record of the right size, the mint is a
/// valid mint record, and the vault is the derived holding account of
/// (escrow record, asset program, mint A).
pub open spec fn refund_checks_spec(accts: Seq<AccountV>) -> Result<(), ProgramError>
    recommends
        accts.len() == 8,
{
    match SignerAccount::check_spec(accts[0]) {
        Err(e) => Err(e),
        Ok(_) => match ProgramAccount::check_spec(accts[1]) {
            Err(e) => Err(e),
            Ok(_) => match MintInterface::check_spec(accts[2]) {
                Err(e) => Err(e),
                Ok(_) => AssociatedTokenAccount::check_spec(accts[3], accts[1], accts[2], accts[6]),
            },
        },
    }
}

/// The plan of a refund whose checks all passed, for the record value `e`.
pub open spec fn refund_plan_spec(accts: Seq<AccountV>, e: EscrowV) -> RefundPlanV
    recommends
        accts.len() == 8,
{
    let signer_seeds = escrow_seeds(accts[0].address, e.seed).push(seq![e.bump]);
    RefundPlanV {
        create_maker_ata_a: if AssociatedTokenAccount::check_spec(
            accts[4],
            accts[0],
            accts[2],
            accts[6],
        ) is Err {
            Some(
                CreateAtaV {
                    payer: accts[0].address,
                    account: accts[4].address,
                    wallet: accts[0].address,
                    mint: accts[2].address,
                },
            )
        } else {
            None
        },
        repay: TransferV {
            from: accts[3].address,
            to: accts[4].address,
            authority: accts[1].address,
            amount: token_balance(accts[3].data),
            signer_seeds: Some(signer_seeds),
        },
        close_vault: CloseTokenV {
            account: accts[3].address,
            destination: accts[0].address,
            authority: accts[1].address,
            signer_seeds: signer_seeds,
        },
        close_record: CloseRecordV { account: accts[1].address, destination: accts[0].address },
    }
}

/// What refund decides, for every account list: the exact error, or the
/// exact plan. The record is decoded from the escrow account's bytes; the
/// supplied record address must re-derive from the supplied maker and the
/// stored nonce and bump, or the invocation fails with an ownership error
/// and no value moves.
pub open spec fn refund_spec(accts: Seq<AccountV>) -> Result<RefundPlanV, ProgramError> {
    if accts.len() != 8 {
        Err(ProgramError::NotEnoughAccountKeys)
    } else {
        match refund_checks_spec(accts) {
            Err(e) => Err(e),
            Ok(_) => {
                let e = EscrowV::dec(accts[1].data);
                if pda_create(escrow_seeds(accts[0].address, e.seed).push(seq![e.bump]), program_id())
                    != Some(accts[1].address) {
                    Err(ProgramError::InvalidAccountOwner)
                } else {
                    Ok(refund_plan_spec(accts, e))
                }
            },
        }
    }
}

/// The refund transition.
pub struct Refund;

impl Refund {
    /// Cancel an escrow: validate accounts, prove the record's derivation,
    /// and lay down the just-in-time creation, the repayment, and both
    /// closings.
    pub fn process(accounts: &Vec<Account>) -> (r: Result<RefundPlan, ProgramError>)
        requires
            forall|i: int| 0 <= i < accounts@.len() ==> (#[trigger] accounts@[i]).wf(),
        ensures
            (match r {
                Ok(p) => refund_spec(accounts.deep_view()) == Ok::<_, ProgramError>(p@),
                Err(e) => refund_spec(accounts.deep_view()) == Err::<RefundPlanV, _>(e),
            }),
    {
        let ghost av = accounts.deep_view();
        if accounts.len() != 8 {
            return Err(ProgramError::NotEnoughAccountKeys);
        }
        let maker = &accounts[0];
        let escrow = &accounts[1];
        let mint_a = &accounts[2];
        let vault = &accounts[3];
        let maker_ata_a = &accounts[4];
        let token_program = &accounts[6];
        if let Err(e) = SignerAccount::check(maker) {
            return Err(e);
        }
        if let Err(e) = ProgramAccount::check(escrow) {
            return Err(e);
        }
        if let Err(e) = MintInterface::check(mint_a) {
            return Err(e);
        }
        if let Err(e) = AssociatedTokenAccount::check(vault, escrow, mint_a, token_program) {
            return Err(e);
        }
        let record = match Escrow::load(&escrow.data) {
            Ok(record) => record,
            Err(_) => {
                proof {
                    assert(false);
                }
                return Err(ProgramError::InvalidAccountOwner);
            },
        };
        if !escrow_address_matches(&maker.address, record.seed, record.bump, &escrow.address) {
            return Err(ProgramError::InvalidAccountOwner);
        }
        let needs_maker_ata_a = AssociatedTokenAccount::check(
            maker_ata_a,
            maker,
            mint_a,
            token_program,
        ).is_err();
        proof {
            assert(vault@.data.len() >= 72);
        }
        let vault_amount = read_token_balance(&vault.data);
        let plan = RefundPlan {
            create_maker_ata_a: if needs_maker_ata_a {
                Some(
                    CreateAta {
                        payer: slice_to_vec(maker.address.as_slice()),
                        account: slice_to_vec(maker_ata_a.address.as_slice()),
                        wallet: slice_to_vec(maker.address.as_slice()),
                        mint: slice_to_vec(mint_a.address.as_slice()),
                    },
                )
            } else {
                None
            },
            repay: Transfer {
                from: slice_to_vec(vault.address.as_slice()),
                to: slice_to_vec(maker_ata_a.address.as_slice()),
                authority: slice_to_vec(escrow.address.as_slice()),
                amount: vault_amount,
                signer_seeds: Some(
                    escrow_signer_seed_vecs(&maker.address, record.seed, record.bump),
                ),
            },
            close_vault: CloseToken {
                account: slice_to_vec(vault.address.as_slice()),
                destination: slice_to_vec(maker.address.as_slice()),
                authority: slice_to_vec(escrow.address.as_slice()),
                signer_seeds: escrow_signer_seed_vecs(&maker.address, record.seed, record.bump),
            },
            close_record: CloseRecord {
                account: slice_to_vec(escrow.address.as_slice()),
                destination: slice_to_vec(maker.address.as_slice()),
            },
        };
        proof {
            assert(record@ == EscrowV::dec(av[1].data));
            assert(plan@ =~~= refund_plan_spec(av, record@));
        }
        Ok(plan)
    }
}

/// Law: for every refund invocation whose account checks pass, if the
/// supplied record address is not the derivation from the supplied maker and
/// the nonce and bump stored in the record, the invocation fails with the
/// ownership error — no plan, hence no transfer.
pub proof fn lemma_refund_rejects_substitution(accts: Seq<AccountV>)
    requires
        accts.len() == 8,
        refund_checks_spec(accts) is Ok,
        pda_create(
            escrow_seeds(accts[0].address, EscrowV::dec(accts[1].data).seed).push(
                seq![EscrowV::dec(accts[1].data).bump],
            ),
            program_id(),
        ) != Some(accts[1].address),
    ensures
        refund_spec(accts) == Err::<RefundPlanV, ProgramError>(ProgramError::InvalidAccountOwner),
{
}

/// Law: a refund that succeeds returns to the maker exactly the vault's
/// balance at refund time — what the vault's raw encoding records, not the
/// record's desired amount — and closes both the vault and the record to the
/// maker.
pub proof fn lemma_refund_returns_vault_balance(accts: Seq<AccountV>, p: RefundPlanV)
    requires
        accts.len() == 8,
        refund_spec(accts) == Ok::<RefundPlanV, ProgramError>(p),
    ensures
        p.repay.from == accts[3].address,
        p.repay.to == accts[4].address,
        p.repay.amount == token_balance(accts[3].data),
        p.close_vault.account == accts[3].address,
        p.close_vault.destination == accts[0].address,
        p.close_record.account == accts[1].address,
        p.close_record.destination == accts[0].address,
{
}

/// Law: once an escrow is settled its record address no longer holds a
/// program-owned record of the right shape, so a refund on it fails with the
/// owner error (wrong owning program) or the account-data error (wrong size)
/// before anything else is decided.
pub proof fn lemma_refund_rejects_closed_record(accts: Seq<AccountV>)
    requires
        accts.len() == 8,
        SignerAccount::check_spec(accts[0]) is Ok,
        accts[1].owner != program_id() || accts[1].data.len() != crate::state::ESCROW_LEN,
    ensures
        refund_spec(accts) == Err::<RefundPlanV, ProgramError>(
            if accts[1].owner != program_id() {
                ProgramError::Custom(crate::errors::EscrowError::InvalidOwner)
            } else {
                ProgramError::Custom(crate::errors::EscrowError::InvalidAccountData)
            },
        ),
{
}

} // verus!
