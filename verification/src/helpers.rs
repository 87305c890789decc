//! The account validators: stateless predicate checks applied to raw account
//! handles before they are trusted. Each fails fast with a typed error and
//! mutates nothing.
//!
//! The asset ecosystem has two mutually incompatible but prefix-compatible
//! account formats: a legacy fixed-size format and an extensible format with
//! optional trailing data. Every mint or holding-account check therefore
//! branches on the owning program first, then applies a length check, and
//! consults the discriminator byte at its fixed offset only when the length
//! alone is inconclusive — and only after bounding the buffer, so the read
//! can never go out of range.

use vstd::prelude::*;
use crate::account::Account;
use crate::account::AccountV;
use crate::account::bytes_eq;
use crate::errors::EscrowError;
use crate::errors::ProgramError;
use crate::ids::ACCOUNT_TYPE_OFFSET;
use crate::ids::MINT_DISCRIMINATOR;
use crate::ids::MINT_LEN;
use crate::ids::TOKEN_ACCOUNT_DISCRIMINATOR;
use crate::ids::TOKEN_ACCOUNT_LEN;
use crate::ids::TOKEN_AMOUNT_OFFSET;
use crate::ids::associated_token_program_id;
use crate::ids::program_id;
use crate::ids::program_id_bytes;
use crate::ids::system_program_id;
use crate::ids::system_program_id_bytes;
use crate::ids::token_2022_program_id;
use crate::ids::token_2022_program_id_bytes;
use crate::ids::token_program_id;
use crate::ids::token_program_id_bytes;
use crate::pda::ata_seeds;
use crate::pda::pda_find;
use crate::pda::derive_ata_address;
use crate::state::ESCROW_LEN;

verus! {

/// Checks that a handle carries a transaction-level signature.
pub struct SignerAccount;

impl SignerAccount {
    pub open spec fn check_spec(a: AccountV) -> Result<(), ProgramError> {
        if a.is_signer {
            Ok(())
        } else {
            Err(ProgramError::MissingRequiredSignature)
        }
    }

    pub fn check(account: &Account) -> (r: Result<(), ProgramError>)
        ensures
            r == Self::check_spec(account@),
    {
        if !account.is_signer {
            return Err(ProgramError::MissingRequiredSignature);
        }
        Ok(())
    }
}

/// Checks that a handle is owned by the ledger's built-in value-transfer
/// program.
pub struct SystemAccount;

impl SystemAccount {
    pub open spec fn check_spec(a: AccountV) -> Result<(), ProgramError> {
        if a.owner == system_program_id() {
            Ok(())
        } else {
            Err(ProgramError::Custom(EscrowError::InvalidOwner))
        }
    }

    pub fn check(account: &Account) -> (r: Result<(), ProgramError>)
        ensures
            r == Self::check_spec(account@),
    {
        let sys = system_program_id_bytes();
        if !bytes_eq(&account.owner, &sys) {
            return Err(ProgramError::Custom(EscrowError::InvalidOwner));
        }
        Ok(())
    }
}

/// Checks that a handle is a fungible-asset mint record under either asset
/// program: the legacy fixed-size shape, or the extensible shape whose
/// discriminator byte marks a mint.
pub struct MintInterface;

impl MintInterface {
    pub open spec fn check_spec(a: AccountV) -> Result<(), ProgramError> {
        if a.owner == token_2022_program_id() {
            if a.data.len() == MINT_LEN {
                Ok(())
            } else if a.data.len() <= ACCOUNT_TYPE_OFFSET {
                Err(ProgramError::Custom(EscrowError::InvalidAccountData))
            } else if a.data[ACCOUNT_TYPE_OFFSET as int] != MINT_DISCRIMINATOR {
                Err(ProgramError::Custom(EscrowError::InvalidAccountData))
            } else {
                Ok(())
            }
        } else if a.owner != token_program_id() {
            Err(ProgramError::Custom(EscrowError::InvalidOwner))
        } else if a.data.len() != MINT_LEN {
            Err(ProgramError::Custom(EscrowError::InvalidAccountData))
        } else {
            Ok(())
        }
    }

    pub fn check(account: &Account) -> (r: Result<(), ProgramError>)
        ensures
            r == Self::check_spec(account@),
    {
        let t22 = token_2022_program_id_bytes();
        if bytes_eq(&account.owner, &t22) {
            if account.data.len() == MINT_LEN {
                return Ok(());
            }
            if account.data.len() <= ACCOUNT_TYPE_OFFSET {
                return Err(ProgramError::Custom(EscrowError::InvalidAccountData));
            }
            if account.data[ACCOUNT_TYPE_OFFSET] != MINT_DISCRIMINATOR {
                return Err(ProgramError::Custom(EscrowError::InvalidAccountData));
            }
            return Ok(());
        }
        let legacy = token_program_id_bytes();
        if !bytes_eq(&account.owner, &legacy) {
            return Err(ProgramError::Custom(EscrowError::InvalidOwner));
        }
        if account.data.len() != MINT_LEN {
            return Err(ProgramError::Custom(EscrowError::InvalidAccountData));
        }
        Ok(())
    }
}

/// Checks that a handle is a fungible-asset holding account under either
/// asset program: the legacy fixed-size shape, or the extensible shape whose
/// discriminator byte marks a holding account.
pub struct TokenAccountInterface;

impl TokenAccountInterface {
    pub open spec fn check_spec(a: AccountV) -> Result<(), ProgramError> {
        if a.owner == token_2022_program_id() {
            if a.data.len() == TOKEN_ACCOUNT_LEN {
                Ok(())
            } else if a.data.len() <= ACCOUNT_TYPE_OFFSET {
                Err(ProgramError::Custom(EscrowError::InvalidAccountData))
            } else if a.data[ACCOUNT_TYPE_OFFSET as int] != TOKEN_ACCOUNT_DISCRIMINATOR {
                Err(ProgramError::Custom(EscrowError::InvalidAccountData))
            } else {
                Ok(())
            }
        } else if a.owner != token_program_id() {
            Err(ProgramError::Custom(EscrowError::InvalidOwner))
        } else if a.data.len() != TOKEN_ACCOUNT_LEN {
            Err(ProgramError::Custom(EscrowError::InvalidAccountData))
        } else {
            Ok(())
        }
    }

    pub fn check(account: &Account) -> (r: Result<(), ProgramError>)
        ensures
            r == Self::check_spec(account@),
    {
        let t22 = token_2022_program_id_bytes();
        if bytes_eq(&account.owner, &t22) {
            if account.data.len() == TOKEN_ACCOUNT_LEN {
                return Ok(());
            }
            if account.data.len() <= ACCOUNT_TYPE_OFFSET {
                return Err(ProgramError::Custom(EscrowError::InvalidAccountData));
            }
            if account.data[ACCOUNT_TYPE_OFFSET] != TOKEN_ACCOUNT_DISCRIMINATOR {
                return Err(ProgramError::Custom(EscrowError::InvalidAccountData));
            }
            return Ok(());
        }
        let legacy = token_program_id_bytes();
        if !bytes_eq(&account.owner, &legacy) {
            return Err(ProgramError::Custom(EscrowError::InvalidOwner));
        }
        if account.data.len() != TOKEN_ACCOUNT_LEN {
            return Err(ProgramError::Custom(EscrowError::InvalidAccountData));
        }
        Ok(())
    }
}

/// Checks that a handle is the derived holding account of a given authority
/// and mint: a valid holding account whose address equals the derivation from
/// (authority, asset program, mint) under the associated-holding-account
/// program's identity.
pub struct AssociatedTokenAccount;

impl AssociatedTokenAccount {
    pub open spec fn check_spec(
        a: AccountV,
        authority: AccountV,
        mint: AccountV,
        token_program: AccountV,
    ) -> Result<(), ProgramError> {
        match TokenAccountInterface::check_spec(a) {
            Err(e) => Err(e),
            Ok(_) => match pda_find(
                ata_seeds(authority.address, token_program.address, mint.address),
                associated_token_program_id(),
            ) {
                Some(p) => if p.0 == a.address {
                    Ok(())
                } else {
                    Err(ProgramError::Custom(EscrowError::InvalidAddress))
                },
                None => Err(ProgramError::Custom(EscrowError::InvalidAddress)),
            },
        }
    }

    pub fn check(
        account: &Account,
        authority: &Account,
        mint: &Account,
        token_program: &Account,
    ) -> (r: Result<(), ProgramError>)
        ensures
            r == Self::check_spec(account@, authority@, mint@, token_program@),
    {
        if let Err(e) = TokenAccountInterface::check(account) {
            return Err(e);
        }
        match derive_ata_address(&authority.address, &token_program.address, &mint.address) {
            Some(p) => {
                if bytes_eq(&p.0, &account.address) {
                    Ok(())
                } else {
                    Err(ProgramError::Custom(EscrowError::InvalidAddress))
                }
            },
            None => Err(ProgramError::Custom(EscrowError::InvalidAddress)),
        }
    }
}

/// Checks that a handle is this program's own escrow record: owned by this
/// program, with exactly the record's fixed size.
pub struct ProgramAccount;

impl ProgramAccount {
    pub open spec fn check_spec(a: AccountV) -> Result<(), ProgramError> {
        if a.owner != program_id() {
            Err(ProgramError::Custom(EscrowError::InvalidOwner))
        } else if a.data.len() != ESCROW_LEN {
            Err(ProgramError::Custom(EscrowError::InvalidAccountData))
        } else {
            Ok(())
        }
    }

    pub fn check(account: &Account) -> (r: Result<(), ProgramError>)
        ensures
            r == Self::check_spec(account@),
    {
        let own = program_id_bytes();
        if !bytes_eq(&account.owner, &own) {
            return Err(ProgramError::Custom(EscrowError::InvalidOwner));
        }
        if account.data.len() != ESCROW_LEN {
            return Err(ProgramError::Custom(EscrowError::InvalidAccountData));
        }
        Ok(())
    }

    /// What a record's stored bytes become at the moment of closure: the
    /// closed sentinel alone, so a later read can never mistake the buffer
    /// for a live record.
    pub fn close_record_data(data: &mut Vec<u8>)
        ensures
            final(data)@ == seq![0xffu8],
    {
        data.clear();
        data.push(0xff);
        proof {
            assert(data@ =~= seq![0xffu8]);
        }
    }
}

/// Law: both asset-account formats pass the mint check — a legacy fixed-size
/// mint record, and an extensible-format record of any longer length whose
/// discriminator byte marks a mint (including one of exactly the legacy
/// length, where the length alone decides) — while an extensible-format
/// record with a wrong discriminator byte or a truncated length fails.
pub proof fn lemma_mint_dual_format(a: AccountV)
    ensures
        a.owner == token_program_id() && a.data.len() == MINT_LEN ==> MintInterface::check_spec(a)
            is Ok,
        a.owner == token_2022_program_id() && a.data.len() == MINT_LEN
            ==> MintInterface::check_spec(a) is Ok,
        a.owner == token_2022_program_id() && a.data.len() > ACCOUNT_TYPE_OFFSET && a.data[
            ACCOUNT_TYPE_OFFSET as int
        ] == MINT_DISCRIMINATOR ==> MintInterface::check_spec(a) is Ok,
        a.owner == token_2022_program_id() && a.data.len() != MINT_LEN && a.data.len() > ACCOUNT_TYPE_OFFSET
            && a.data[ACCOUNT_TYPE_OFFSET as int] != MINT_DISCRIMINATOR
            ==> MintInterface::check_spec(a) == Err::<(), ProgramError>(
            ProgramError::Custom(EscrowError::InvalidAccountData),
        ),
        a.owner == token_2022_program_id() && a.data.len() != MINT_LEN && a.data.len()
            <= ACCOUNT_TYPE_OFFSET ==> MintInterface::check_spec(a) == Err::<(), ProgramError>(
            ProgramError::Custom(EscrowError::InvalidAccountData),
        ),
{
}

/// The balance a holding account's raw encoding records at its fixed offset.
pub open spec fn token_balance(data: Seq<u8>) -> u64
    recommends
        data.len() >= TOKEN_AMOUNT_OFFSET + 8,
{
    vstd::bytes::spec_u64_from_le_bytes(
        data.subrange(TOKEN_AMOUNT_OFFSET as int, TOKEN_AMOUNT_OFFSET + 8),
    )
}

/// Read the balance straight out of a holding account's raw encoding.
pub fn read_token_balance(data: &Vec<u8>) -> (r: u64)
    requires
        data@.len() >= TOKEN_AMOUNT_OFFSET + 8,
    ensures
        r == token_balance(data@),
{
    vstd::bytes::u64_from_le_bytes(
        vstd::slice::slice_subrange(data.as_slice(), TOKEN_AMOUNT_OFFSET, TOKEN_AMOUNT_OFFSET + 8),
    )
}

} // verus!
