//! Tests of the individual validators, the record codec, and the address
//! derivation.

use escrow_program::account::{bytes_eq, Account};
use escrow_program::errors::{EscrowError, ProgramError};
use escrow_program::helpers::{
    read_token_balance, AssociatedTokenAccount, MintInterface, ProgramAccount, SignerAccount,
    SystemAccount, TokenAccountInterface,
};
use escrow_program::ids::{
    program_id_bytes, system_program_id_bytes, token_2022_program_id_bytes,
    token_program_id_bytes,
};
use escrow_program::pda::{derive_ata_address, derive_escrow_address, escrow_address_matches};
use escrow_program::state::Escrow;

fn addr(tag: u8) -> Vec<u8> {
    let mut v = vec![0u8; 32];
    v[0] = tag;
    v[31] = tag;
    v
}

fn account(owner: Vec<u8>, data: Vec<u8>) -> Account {
    Account {
        address: addr(5),
        owner,
        lamports: 1,
        data,
        is_signer: false,
    }
}

#[test]
fn signer_check() {
    let mut a = account(system_program_id_bytes(), vec![]);
    match SignerAccount::check(&a) {
        Err(e) => assert_eq!(e, ProgramError::MissingRequiredSignature),
        Ok(_) => panic!("an unsigned account must fail the signer check"),
    }
    a.is_signer = true;
    assert!(SignerAccount::check(&a).is_ok());
}

#[test]
fn system_account_check() {
    let a = account(system_program_id_bytes(), vec![]);
    assert!(SystemAccount::check(&a).is_ok());
    let b = account(token_program_id_bytes(), vec![]);
    match SystemAccount::check(&b) {
        Err(e) => assert_eq!(e, ProgramError::Custom(EscrowError::InvalidOwner)),
        Ok(_) => panic!("a non-system owner must fail the system check"),
    }
}

#[test]
fn mint_check_accepts_both_formats() {
    // legacy fixed-size mint
    let legacy = account(token_program_id_bytes(), vec![0u8; 82]);
    assert!(MintInterface::check(&legacy).is_ok());

    // extensible-format mint of exactly the legacy length
    let ext_same = account(token_2022_program_id_bytes(), vec![0u8; 82]);
    assert!(MintInterface::check(&ext_same).is_ok());

    // extensible-format mint with trailing data and the right discriminator
    let mut data = vec![0u8; 200];
    data[165] = 1;
    let ext_long = account(token_2022_program_id_bytes(), data);
    assert!(MintInterface::check(&ext_long).is_ok());
}

#[test]
fn mint_check_rejects_bad_shapes() {
    // wrong discriminator
    let mut data = vec![0u8; 200];
    data[165] = 2;
    let wrong_disc = account(token_2022_program_id_bytes(), data);
    match MintInterface::check(&wrong_disc) {
        Err(e) => assert_eq!(e, ProgramError::Custom(EscrowError::InvalidAccountData)),
        Ok(_) => panic!("a wrong discriminator must be rejected"),
    }

    // truncated: too short to hold the discriminator byte
    let truncated = account(token_2022_program_id_bytes(), vec![0u8; 120]);
    match MintInterface::check(&truncated) {
        Err(e) => assert_eq!(e, ProgramError::Custom(EscrowError::InvalidAccountData)),
        Ok(_) => panic!("a truncated extensible mint must be rejected"),
    }

    // exactly at the discriminator offset is still truncated
    let at_offset = account(token_2022_program_id_bytes(), vec![0u8; 165]);
    match MintInterface::check(&at_offset) {
        Err(e) => assert_eq!(e, ProgramError::Custom(EscrowError::InvalidAccountData)),
        Ok(_) => panic!("a buffer ending at the discriminator offset must be rejected"),
    }

    // legacy owner with the wrong size
    let wrong_len = account(token_program_id_bytes(), vec![0u8; 83]);
    match MintInterface::check(&wrong_len) {
        Err(e) => assert_eq!(e, ProgramError::Custom(EscrowError::InvalidAccountData)),
        Ok(_) => panic!("a wrong-size legacy mint must be rejected"),
    }

    // neither asset program owns it
    let wrong_owner = account(system_program_id_bytes(), vec![0u8; 82]);
    match MintInterface::check(&wrong_owner) {
        Err(e) => assert_eq!(e, ProgramError::Custom(EscrowError::InvalidOwner)),
        Ok(_) => panic!("a wrong owner must be rejected"),
    }
}

#[test]
fn holding_account_check_formats() {
    let legacy = account(token_program_id_bytes(), vec![0u8; 165]);
    assert!(TokenAccountInterface::check(&legacy).is_ok());

    let ext_same = account(token_2022_program_id_bytes(), vec![0u8; 165]);
    assert!(TokenAccountInterface::check(&ext_same).is_ok());

    let mut data = vec![0u8; 200];
    data[165] = 2;
    let ext_long = account(token_2022_program_id_bytes(), data);
    assert!(TokenAccountInterface::check(&ext_long).is_ok());

    let mut data = vec![0u8; 200];
    data[165] = 1;
    let wrong_disc = account(token_2022_program_id_bytes(), data);
    match TokenAccountInterface::check(&wrong_disc) {
        Err(e) => assert_eq!(e, ProgramError::Custom(EscrowError::InvalidAccountData)),
        Ok(_) => panic!("a mint discriminator is not a holding account"),
    }

    let wrong_len = account(token_program_id_bytes(), vec![0u8; 82]);
    match TokenAccountInterface::check(&wrong_len) {
        Err(e) => assert_eq!(e, ProgramError::Custom(EscrowError::InvalidAccountData)),
        Ok(_) => panic!("a mint-sized buffer is not a legacy holding account"),
    }
}

#[test]
fn program_account_check() {
    let good = account(program_id_bytes(), vec![0u8; 113]);
    assert!(ProgramAccount::check(&good).is_ok());

    let wrong_owner = account(system_program_id_bytes(), vec![0u8; 113]);
    match ProgramAccount::check(&wrong_owner) {
        Err(e) => assert_eq!(e, ProgramError::Custom(EscrowError::InvalidOwner)),
        Ok(_) => panic!("a record owned elsewhere must be rejected"),
    }

    let wrong_len = account(program_id_bytes(), vec![0u8; 112]);
    match ProgramAccount::check(&wrong_len) {
        Err(e) => assert_eq!(e, ProgramError::Custom(EscrowError::InvalidAccountData)),
        Ok(_) => panic!("a record of the wrong size must be rejected"),
    }
}

#[test]
fn derived_holding_account_check() {
    let wallet_addr = addr(1);
    let mint_addr = addr(2);
    let token_pid = token_program_id_bytes();
    let owner = Account {
        address: wallet_addr.clone(),
        owner: system_program_id_bytes(),
        lamports: 1,
        data: vec![],
        is_signer: false,
    };
    let mint = account(token_program_id_bytes(), vec![0u8; 82]);
    let mint = Account { address: mint_addr.clone(), ..mint };
    let token_program = Account {
        address: token_pid.clone(),
        owner: system_program_id_bytes(),
        lamports: 1,
        data: vec![],
        is_signer: false,
    };

    let (derived, _) = derive_ata_address(&wallet_addr, &token_pid, &mint_addr).unwrap();
    let good = Account {
        address: derived,
        owner: token_program_id_bytes(),
        lamports: 1,
        data: vec![0u8; 165],
        is_signer: false,
    };
    assert!(AssociatedTokenAccount::check(&good, &owner, &mint, &token_program).is_ok());

    // the same account parked at any other address is rejected
    let misplaced = Account { address: addr(8), ..good };
    match AssociatedTokenAccount::check(&misplaced, &owner, &mint, &token_program) {
        Err(e) => assert_eq!(e, ProgramError::Custom(EscrowError::InvalidAddress)),
        Ok(_) => panic!("a misplaced holding account must be rejected"),
    }
}

#[test]
fn escrow_codec_round_trip() {
    let record = Escrow {
        seed: 0xdead_beef_0042,
        maker: addr(1),
        mint_a: addr(2),
        mint_b: addr(3),
        receive: u64::MAX,
        bump: 254,
    };
    let bytes = record.store();
    assert_eq!(bytes.len(), 113);
    let back = Escrow::load(&bytes).unwrap();
    assert_eq!(back.seed, record.seed);
    assert_eq!(back.maker, record.maker);
    assert_eq!(back.mint_a, record.mint_a);
    assert_eq!(back.mint_b, record.mint_b);
    assert_eq!(back.receive, record.receive);
    assert_eq!(back.bump, record.bump);
}

#[test]
fn escrow_load_rejects_wrong_size() {
    match Escrow::load(&vec![0u8; 112]) {
        Err(e) => assert_eq!(e, ProgramError::InvalidAccountData),
        Ok(_) => panic!("a short buffer must be rejected"),
    }
    match Escrow::load(&vec![0u8; 114]) {
        Err(e) => assert_eq!(e, ProgramError::InvalidAccountData),
        Ok(_) => panic!("a long buffer must be rejected"),
    }
}

#[test]
fn escrow_setters() {
    let mut record = Escrow {
        seed: 0,
        maker: addr(1),
        mint_a: addr(2),
        mint_b: addr(3),
        receive: 0,
        bump: 0,
    };
    record.set_seed(9);
    record.set_receive(11);
    record.set_bump(254);
    record.set_maker(addr(6));
    assert_eq!(record.seed, 9);
    assert_eq!(record.receive, 11);
    assert_eq!(record.bump, 254);
    assert_eq!(record.maker, addr(6));
    record.set_inner(1, addr(1), addr(2), addr(3), 2, 3);
    assert_eq!(record.seed, 1);
    assert_eq!(record.receive, 2);
    assert_eq!(record.bump, 3);
}

#[test]
fn derivation_is_deterministic_and_verifies() {
    let maker = addr(1);
    let (a1, b1) = derive_escrow_address(&maker, 42).unwrap();
    let (a2, b2) = derive_escrow_address(&maker, 42).unwrap();
    assert_eq!(a1, a2);
    assert_eq!(b1, b2);

    // the found bump re-verifies against the found address
    assert!(escrow_address_matches(&maker, 42, b1, &a1));

    // and against nothing else
    assert!(!escrow_address_matches(&maker, 42, b1, &maker));
    assert!(!escrow_address_matches(&maker, 43, b1, &a1));

    // the derivation actually transforms its inputs
    assert_ne!(a1, maker);
    assert_ne!(a1, program_id_bytes());
    let (other, _) = derive_escrow_address(&maker, 43).unwrap();
    assert_ne!(a1, other);
}

#[test]
fn byte_helpers() {
    let a = addr(1);
    let b = addr(1);
    let c = addr(2);
    assert!(bytes_eq(&a, &b));
    assert!(!bytes_eq(&a, &c));
    assert!(!bytes_eq(&a, &vec![1u8]));

    let mut data = vec![0u8; 165];
    data[64..72].copy_from_slice(&12_345u64.to_le_bytes());
    assert_eq!(read_token_balance(&data), 12_345);

    let mut record_bytes = vec![7u8; 113];
    ProgramAccount::close_record_data(&mut record_bytes);
    assert_eq!(record_bytes, vec![0xffu8]);
}

#[test]
fn escrow_error_codes() {
    assert_eq!(EscrowError::NotEnoughRentExempt.code(), 0);
    assert_eq!(EscrowError::NotSigner.code(), 1);
    assert_eq!(EscrowError::InvalidOwner.code(), 2);
    assert_eq!(EscrowError::InvalidAccountData.code(), 3);
    assert_eq!(EscrowError::InvalidAddress.code(), 4);
}
