//! End-to-end tests of the three transitions and the dispatcher, on account
//! lists with real derived addresses.

use escrow_program::account::Account;
use escrow_program::errors::{EscrowError, ProgramError};
use escrow_program::ids::{
    program_id_bytes, system_program_id_bytes, token_2022_program_id_bytes,
    token_program_id_bytes,
};
use escrow_program::instructions::make::Make;
use escrow_program::instructions::refund::Refund;
use escrow_program::instructions::take::Take;
use escrow_program::pda::{derive_ata_address, derive_escrow_address};
use escrow_program::state::Escrow;
use escrow_program::{process_instruction, InstructionPlan};

fn addr(tag: u8) -> Vec<u8> {
    let mut v = vec![0u8; 32];
    v[0] = tag;
    v[31] = tag;
    v
}

fn wallet(address: Vec<u8>, signer: bool) -> Account {
    Account {
        address,
        owner: system_program_id_bytes(),
        lamports: 1_000_000,
        data: vec![],
        is_signer: signer,
    }
}

fn legacy_mint(address: Vec<u8>) -> Account {
    Account {
        address,
        owner: token_program_id_bytes(),
        lamports: 1,
        data: vec![0u8; 82],
        is_signer: false,
    }
}

fn holding_account(address: Vec<u8>, balance: u64) -> Account {
    let mut data = vec![0u8; 165];
    data[64..72].copy_from_slice(&balance.to_le_bytes());
    Account {
        address,
        owner: token_program_id_bytes(),
        lamports: 1,
        data,
        is_signer: false,
    }
}

fn empty_slot(address: Vec<u8>) -> Account {
    wallet(address, false)
}

fn make_payload(seed: u64, receive: u64, amount: u64) -> Vec<u8> {
    let mut v = Vec::new();
    v.extend_from_slice(&seed.to_le_bytes());
    v.extend_from_slice(&receive.to_le_bytes());
    v.extend_from_slice(&amount.to_le_bytes());
    v
}

/// The nine make accounts, with every derived address computed for real.
fn make_accounts(seed: u64) -> Vec<Account> {
    let maker_addr = addr(1);
    let mint_a_addr = addr(2);
    let mint_b_addr = addr(3);
    let token_pid = token_program_id_bytes();
    let (escrow_addr, _bump) = derive_escrow_address(&maker_addr, seed).unwrap();
    let (maker_ata_a_addr, _) =
        derive_ata_address(&maker_addr, &token_pid, &mint_a_addr).unwrap();
    let (vault_addr, _) = derive_ata_address(&escrow_addr, &token_pid, &mint_a_addr).unwrap();
    vec![
        wallet(maker_addr, true),
        empty_slot(escrow_addr),
        legacy_mint(mint_a_addr),
        legacy_mint(mint_b_addr),
        holding_account(maker_ata_a_addr, 5_000),
        empty_slot(vault_addr),
        wallet(system_program_id_bytes(), false),
        wallet(token_pid, false),
        wallet(addr(9), false),
    ]
}

#[test]
fn make_succeeds_and_lays_down_exact_plan() {
    let seed: u64 = 42;
    let accounts = make_accounts(seed);
    let maker_addr = accounts[0].address.clone();
    let escrow_addr = accounts[1].address.clone();
    let vault_addr = accounts[5].address.clone();
    let data = make_payload(seed, 700, 1_000);
    let plan = Make::process(&accounts, &data).unwrap();

    assert_eq!(plan.record_data.len(), 113);
    let record = Escrow::load(&plan.record_data).unwrap();
    assert_eq!(record.seed, seed);
    assert_eq!(record.maker, maker_addr);
    assert_eq!(record.mint_a, accounts[2].address);
    assert_eq!(record.mint_b, accounts[3].address);
    assert_eq!(record.receive, 700);

    assert_eq!(plan.create_record.address, escrow_addr);
    assert_eq!(plan.create_record.payer, maker_addr);
    assert_eq!(plan.create_record.space, 113);
    assert_eq!(plan.create_record.seeds.len(), 4);
    assert_eq!(plan.create_record.seeds[3], vec![record.bump]);

    assert_eq!(plan.create_vault.account, vault_addr);
    assert_eq!(plan.create_vault.wallet, escrow_addr);
    assert_eq!(plan.create_vault.mint, accounts[2].address);

    assert_eq!(plan.deposit.amount, 1_000);
    assert_eq!(plan.deposit.from, accounts[4].address);
    assert_eq!(plan.deposit.to, vault_addr);
    assert_eq!(plan.deposit.authority, maker_addr);
    assert!(plan.deposit.signer_seeds.is_none());
}

#[test]
fn make_accepts_extensible_mint() {
    let mut accounts = make_accounts(42);
    // the desired asset's mint in the extensible format, with trailing data
    // and the mint discriminator
    let mut data = vec![0u8; 200];
    data[165] = 1;
    accounts[3].owner = token_2022_program_id_bytes();
    accounts[3].data = data;
    let payload = make_payload(42, 700, 1_000);
    let plan = Make::process(&accounts, &payload).unwrap();
    assert_eq!(plan.deposit.amount, 1_000);
}

#[test]
fn take_reads_balance_from_extensible_vault() {
    let mut accounts = take_accounts(42, 700, 0);
    // the vault in the extensible format: longer data, holding-account
    // discriminator, balance still at its fixed offset
    let mut data = vec![0u8; 200];
    data[165] = 2;
    data[64..72].copy_from_slice(&4_321u64.to_le_bytes());
    accounts[8].owner = token_2022_program_id_bytes();
    accounts[8].data = data;
    let plan = Take::process(&accounts).unwrap();
    assert_eq!(plan.pay_a.amount, 4_321);
}

#[test]
fn make_zero_deposit_fails_with_payload_error() {
    let accounts = make_accounts(42);
    let data = make_payload(42, 700, 0);
    match Make::process(&accounts, &data) {
        Err(e) => assert_eq!(e, ProgramError::InvalidInstructionData),
        Ok(_) => panic!("a zero deposit must be rejected"),
    }
}

#[test]
fn make_short_payload_rejected() {
    let accounts = make_accounts(42);
    let data = vec![0u8; 23];
    match Make::process(&accounts, &data) {
        Err(e) => assert_eq!(e, ProgramError::InvalidInstructionData),
        Ok(_) => panic!("a short payload must be rejected"),
    }
}

#[test]
fn make_wrong_account_count_rejected() {
    let mut accounts = make_accounts(42);
    accounts.pop();
    let data = make_payload(42, 700, 1_000);
    match Make::process(&accounts, &data) {
        Err(e) => assert_eq!(e, ProgramError::NotEnoughAccountKeys),
        Ok(_) => panic!("a short account list must be rejected"),
    }
}

#[test]
fn make_unsigned_maker_rejected() {
    let mut accounts = make_accounts(42);
    accounts[0].is_signer = false;
    let data = make_payload(42, 700, 1_000);
    match Make::process(&accounts, &data) {
        Err(e) => assert_eq!(e, ProgramError::MissingRequiredSignature),
        Ok(_) => panic!("an unsigned maker must be rejected"),
    }
}

#[test]
fn make_misplaced_maker_holding_account_rejected() {
    let mut accounts = make_accounts(42);
    // a valid holding account, but not at the derived address for the maker
    accounts[4].address = addr(7);
    let data = make_payload(42, 700, 1_000);
    match Make::process(&accounts, &data) {
        Err(e) => assert_eq!(e, ProgramError::Custom(EscrowError::InvalidAddress)),
        Ok(_) => panic!("a misplaced holding account must be rejected"),
    }
}

/// The twelve take accounts for an open escrow of `seed`, with the vault
/// holding `vault_balance` of asset A, asking `receive` of asset B.
fn take_accounts(seed: u64, receive: u64, vault_balance: u64) -> Vec<Account> {
    let maker_addr = addr(1);
    let taker_addr = addr(4);
    let mint_a_addr = addr(2);
    let mint_b_addr = addr(3);
    let token_pid = token_program_id_bytes();
    let (escrow_addr, bump) = derive_escrow_address(&maker_addr, seed).unwrap();
    let record = Escrow {
        seed,
        maker: maker_addr.clone(),
        mint_a: mint_a_addr.clone(),
        mint_b: mint_b_addr.clone(),
        receive,
        bump,
    };
    let escrow_account = Account {
        address: escrow_addr.clone(),
        owner: program_id_bytes(),
        lamports: 2_000,
        data: record.store(),
        is_signer: false,
    };
    let (taker_ata_b_addr, _) =
        derive_ata_address(&taker_addr, &token_pid, &mint_b_addr).unwrap();
    let (taker_ata_a_addr, _) =
        derive_ata_address(&taker_addr, &token_pid, &mint_a_addr).unwrap();
    let (maker_ata_b_addr, _) =
        derive_ata_address(&maker_addr, &token_pid, &mint_b_addr).unwrap();
    let (vault_addr, _) = derive_ata_address(&escrow_addr, &token_pid, &mint_a_addr).unwrap();
    vec![
        wallet(maker_addr, false),
        wallet(taker_addr, true),
        escrow_account,
        legacy_mint(mint_a_addr),
        legacy_mint(mint_b_addr),
        // maker's asset-B account does not exist yet: an empty slot
        empty_slot(maker_ata_b_addr),
        holding_account(taker_ata_b_addr, 10_000),
        // taker's asset-A account does not exist yet either
        empty_slot(taker_ata_a_addr),
        holding_account(vault_addr, vault_balance),
        wallet(token_pid, false),
        wallet(system_program_id_bytes(), false),
        wallet(addr(9), false),
    ]
}

#[test]
fn take_settles_both_sides() {
    let accounts = take_accounts(42, 700, 1_000);
    let plan = Take::process(&accounts).unwrap();

    // both missing holding accounts are created, paid by the taker
    let create_a = plan.create_taker_ata_a.as_ref().expect("taker asset-A account is created");
    assert_eq!(create_a.account, accounts[7].address);
    assert_eq!(create_a.wallet, accounts[1].address);
    assert_eq!(create_a.payer, accounts[1].address);
    let create_b = plan.create_maker_ata_b.as_ref().expect("maker asset-B account is created");
    assert_eq!(create_b.account, accounts[5].address);
    assert_eq!(create_b.wallet, accounts[0].address);
    assert_eq!(create_b.payer, accounts[1].address);

    // the taker receives the full vault balance, signed by the record
    assert_eq!(plan.pay_a.from, accounts[8].address);
    assert_eq!(plan.pay_a.to, accounts[7].address);
    assert_eq!(plan.pay_a.amount, 1_000);
    assert_eq!(plan.pay_a.authority, accounts[2].address);
    assert!(plan.pay_a.signer_seeds.is_some());

    // the vault closes to the maker
    assert_eq!(plan.close_vault.account, accounts[8].address);
    assert_eq!(plan.close_vault.destination, accounts[0].address);

    // the maker receives exactly the desired amount from the taker
    assert_eq!(plan.pay_b.from, accounts[6].address);
    assert_eq!(plan.pay_b.to, accounts[5].address);
    assert_eq!(plan.pay_b.amount, 700);
    assert_eq!(plan.pay_b.authority, accounts[1].address);
    assert!(plan.pay_b.signer_seeds.is_none());

    // the record closes to the taker
    assert_eq!(plan.close_record.account, accounts[2].address);
    assert_eq!(plan.close_record.destination, accounts[1].address);
}

#[test]
fn take_keeps_existing_accounts() {
    let mut accounts = take_accounts(42, 700, 1_000);
    // both just-in-time accounts already exist and are valid
    accounts[5] = holding_account(accounts[5].address.clone(), 0);
    accounts[7] = holding_account(accounts[7].address.clone(), 0);
    let plan = Take::process(&accounts).unwrap();
    assert!(plan.create_taker_ata_a.is_none());
    assert!(plan.create_maker_ata_b.is_none());
}

#[test]
fn take_rejects_substituted_escrow() {
    let seed: u64 = 42;
    let accounts = take_accounts(seed, 700, 1_000);
    let maker_addr = accounts[0].address.clone();
    let mint_a_addr = accounts[3].address.clone();
    let token_pid = token_program_id_bytes();
    // a record whose bytes are for `seed`, parked at the address derived for
    // another nonce; the vault moves with the substituted address so that
    // every earlier check still passes
    let (other_addr, _) = derive_escrow_address(&maker_addr, seed + 1).unwrap();
    let (other_vault, _) = derive_ata_address(&other_addr, &token_pid, &mint_a_addr).unwrap();
    let mut accounts = accounts;
    accounts[2].address = other_addr;
    accounts[8] = holding_account(other_vault, 1_000);
    match Take::process(&accounts) {
        Err(e) => assert_eq!(e, ProgramError::InvalidAccountOwner),
        Ok(_) => panic!("a substituted record address must be rejected"),
    }
}

#[test]
fn take_rejects_closed_escrow() {
    let mut accounts = take_accounts(42, 700, 1_000);
    // after settlement the record's address no longer holds a program-owned
    // record: ownership reverted and the data shrank to the sentinel
    accounts[2].owner = system_program_id_bytes();
    accounts[2].data = vec![0xff];
    match Take::process(&accounts) {
        Err(e) => assert_eq!(e, ProgramError::Custom(EscrowError::InvalidOwner)),
        Ok(_) => panic!("a second take on a settled escrow must be rejected"),
    }
}

#[test]
fn take_rejects_resized_record() {
    let mut accounts = take_accounts(42, 700, 1_000);
    // still program-owned, but no longer of the record's size
    accounts[2].data = vec![0xff];
    match Take::process(&accounts) {
        Err(e) => assert_eq!(e, ProgramError::Custom(EscrowError::InvalidAccountData)),
        Ok(_) => panic!("a record of the wrong size must be rejected"),
    }
}

/// The eight refund accounts for an open escrow of `seed`, with the vault
/// holding `vault_balance` of asset A.
fn refund_accounts(seed: u64, vault_balance: u64) -> Vec<Account> {
    let maker_addr = addr(1);
    let mint_a_addr = addr(2);
    let mint_b_addr = addr(3);
    let token_pid = token_program_id_bytes();
    let (escrow_addr, bump) = derive_escrow_address(&maker_addr, seed).unwrap();
    let record = Escrow {
        seed,
        maker: maker_addr.clone(),
        mint_a: mint_a_addr.clone(),
        mint_b: mint_b_addr.clone(),
        receive: 700,
        bump,
    };
    let escrow_account = Account {
        address: escrow_addr.clone(),
        owner: program_id_bytes(),
        lamports: 2_000,
        data: record.store(),
        is_signer: false,
    };
    let (vault_addr, _) = derive_ata_address(&escrow_addr, &token_pid, &mint_a_addr).unwrap();
    let (maker_ata_a_addr, _) =
        derive_ata_address(&maker_addr, &token_pid, &mint_a_addr).unwrap();
    vec![
        wallet(maker_addr, true),
        escrow_account,
        legacy_mint(mint_a_addr),
        holding_account(vault_addr, vault_balance),
        holding_account(maker_ata_a_addr, 0),
        wallet(system_program_id_bytes(), false),
        wallet(token_pid, false),
        wallet(addr(9), false),
    ]
}

#[test]
fn refund_returns_exact_vault_balance() {
    // the vault balance at refund time, not the recorded desired amount
    let accounts = refund_accounts(42, 777);
    let plan = Refund::process(&accounts).unwrap();
    assert!(plan.create_maker_ata_a.is_none());
    assert_eq!(plan.repay.from, accounts[3].address);
    assert_eq!(plan.repay.to, accounts[4].address);
    assert_eq!(plan.repay.amount, 777);
    assert_eq!(plan.repay.authority, accounts[1].address);
    assert!(plan.repay.signer_seeds.is_some());
    assert_eq!(plan.close_vault.account, accounts[3].address);
    assert_eq!(plan.close_vault.destination, accounts[0].address);
    assert_eq!(plan.close_record.account, accounts[1].address);
    assert_eq!(plan.close_record.destination, accounts[0].address);
}

#[test]
fn refund_creates_missing_maker_account() {
    let mut accounts = refund_accounts(42, 777);
    accounts[4] = empty_slot(accounts[4].address.clone());
    let plan = Refund::process(&accounts).unwrap();
    let create = plan.create_maker_ata_a.as_ref().expect("maker asset-A account is created");
    assert_eq!(create.account, accounts[4].address);
    assert_eq!(create.wallet, accounts[0].address);
    assert_eq!(create.payer, accounts[0].address);
}

#[test]
fn refund_rejects_substituted_escrow() {
    let seed: u64 = 42;
    let accounts = refund_accounts(seed, 777);
    let maker_addr = accounts[0].address.clone();
    let mint_a_addr = accounts[2].address.clone();
    let token_pid = token_program_id_bytes();
    let (other_addr, _) = derive_escrow_address(&maker_addr, seed + 1).unwrap();
    let (other_vault, _) = derive_ata_address(&other_addr, &token_pid, &mint_a_addr).unwrap();
    let mut accounts = accounts;
    accounts[1].address = other_addr;
    accounts[3] = holding_account(other_vault, 777);
    match Refund::process(&accounts) {
        Err(e) => assert_eq!(e, ProgramError::InvalidAccountOwner),
        Ok(_) => panic!("a substituted record address must be rejected"),
    }
}

#[test]
fn refund_rejects_closed_escrow() {
    let mut accounts = refund_accounts(42, 777);
    accounts[1].owner = system_program_id_bytes();
    accounts[1].data = vec![0xff];
    match Refund::process(&accounts) {
        Err(e) => assert_eq!(e, ProgramError::Custom(EscrowError::InvalidOwner)),
        Ok(_) => panic!("a refund on a settled escrow must be rejected"),
    }
}

#[test]
fn refund_unsigned_maker_rejected() {
    let mut accounts = refund_accounts(42, 777);
    accounts[0].is_signer = false;
    match Refund::process(&accounts) {
        Err(e) => assert_eq!(e, ProgramError::MissingRequiredSignature),
        Ok(_) => panic!("an unsigned maker must be rejected"),
    }
}

#[test]
fn dispatcher_routes_each_opcode() {
    let seed: u64 = 42;
    let accounts = make_accounts(seed);
    let mut data = vec![0u8];
    data.extend_from_slice(&make_payload(seed, 700, 1_000));
    match process_instruction(&accounts, &data).unwrap() {
        InstructionPlan::Make(p) => assert_eq!(p.deposit.amount, 1_000),
        _ => panic!("opcode 0 must route to make"),
    }

    let accounts = take_accounts(seed, 700, 1_000);
    match process_instruction(&accounts, &vec![1u8]).unwrap() {
        InstructionPlan::Take(p) => assert_eq!(p.pay_a.amount, 1_000),
        _ => panic!("opcode 1 must route to take"),
    }

    let accounts = refund_accounts(seed, 777);
    match process_instruction(&accounts, &vec![2u8]).unwrap() {
        InstructionPlan::Refund(p) => assert_eq!(p.repay.amount, 777),
        _ => panic!("opcode 2 must route to refund"),
    }
}

#[test]
fn dispatcher_rejects_unknown_and_empty_opcodes() {
    let accounts = make_accounts(42);
    match process_instruction(&accounts, &vec![]) {
        Err(e) => assert_eq!(e, ProgramError::InvalidInstructionData),
        Ok(_) => panic!("an empty payload must be rejected"),
    }
    match process_instruction(&accounts, &vec![7u8]) {
        Err(e) => assert_eq!(e, ProgramError::InvalidInstructionData),
        Ok(_) => panic!("an unknown opcode must be rejected"),
    }
}
