//! Tests of the two transitions, end to end, against the real outside
//! collaborators: the token program's declared identity, its account
//! encoding, and the platform's address derivation.

use escrow::error::EscrowError;
use escrow::processor::{AccountView, ProcessOutcome, Processor};
use escrow::state::{Escrow, RECORD_LEN};
use solana_program::program_pack::Pack;
use solana_program::pubkey::Pubkey;

const PROGRAM_ID: [u8; 32] = [9u8; 32];
const INITIALIZER: [u8; 32] = [11u8; 32];
const HOLDING: [u8; 32] = [22u8; 32];
const RECEIVE: [u8; 32] = [33u8; 32];
const STORAGE: [u8; 32] = [44u8; 32];
const TAKER: [u8; 32] = [55u8; 32];
const TAKER_SOURCE: [u8; 32] = [66u8; 32];
const TAKER_DEST: [u8; 32] = [77u8; 32];

fn token_program_key() -> [u8; 32] {
    spl_token::id().to_bytes()
}

fn account(key: [u8; 32], is_signer: bool, owner: [u8; 32], data: Vec<u8>) -> AccountView {
    AccountView { key, is_signer, owner, data }
}

/// A token-ledger account buffer in the encoding spl-token packs:
/// mint, owner, amount, no delegate, initialized state, not native,
/// nothing delegated, no close authority.
fn token_account_data(owner: [u8; 32], amount: u64) -> Vec<u8> {
    let mut data = vec![0u8; 165];
    data[32..64].copy_from_slice(&owner);
    data[64..72].copy_from_slice(&amount.to_le_bytes());
    data[108] = 1;
    data
}

fn init_accounts(signed: bool) -> Vec<AccountView> {
    vec![
        account(INITIALIZER, signed, [0u8; 32], Vec::new()),
        account(HOLDING, false, token_program_key(), token_account_data(INITIALIZER, 1000)),
        account(RECEIVE, false, token_program_key(), Vec::new()),
        account(STORAGE, false, PROGRAM_ID, vec![0u8; RECORD_LEN]),
        account(token_program_key(), false, [0u8; 32], Vec::new()),
    ]
}

fn run_init(accounts: &Vec<AccountView>, amount: u64, rent_exempt: bool)
    -> Result<escrow::processor::InitEscrowOutcome, EscrowError>
{
    Processor::process_init_escrow(accounts, amount, &PROGRAM_ID, rent_exempt)
}

fn exchange_accounts(storage_data: Vec<u8>, holding_balance: u64) -> Vec<AccountView> {
    vec![
        account(TAKER, true, [0u8; 32], Vec::new()),
        account(TAKER_SOURCE, false, token_program_key(), Vec::new()),
        account(TAKER_DEST, false, token_program_key(), Vec::new()),
        account(HOLDING, false, token_program_key(), token_account_data(PROGRAM_ID, holding_balance)),
        account(INITIALIZER, false, [0u8; 32], Vec::new()),
        account(RECEIVE, false, token_program_key(), Vec::new()),
        account(STORAGE, false, PROGRAM_ID, storage_data),
        account(token_program_key(), false, [0u8; 32], Vec::new()),
    ]
}

#[test]
fn init_records_the_trade_and_reassigns_authority() {
    let accounts = init_accounts(true);
    let outcome = run_init(&accounts, 1000, true).unwrap();

    assert_eq!(
        outcome.record,
        Escrow {
            is_initialized: true,
            initializer_pubkey: INITIALIZER,
            temp_token_account_pubkey: HOLDING,
            initializer_token_to_receive_account_pubkey: RECEIVE,
            expected_amount: 1000,
            unlock_time: 0,
            time_out: 0,
        }
    );
    assert_eq!(Escrow::unpack_from_slice(&outcome.record_data), Ok(outcome.record));

    let (expected_pda, _bump) =
        Pubkey::find_program_address(&[b"escrow"], &Pubkey::new_from_array(PROGRAM_ID));
    assert_eq!(outcome.reassign.new_authority, expected_pda.to_bytes());
    assert_ne!(outcome.reassign.new_authority, PROGRAM_ID);
    assert_eq!(outcome.reassign.account, HOLDING);
    assert_eq!(outcome.reassign.current_authority, INITIALIZER);
    assert_eq!(outcome.reassign.token_program, token_program_key());
}

#[test]
fn init_requires_the_initializer_signature() {
    let accounts = init_accounts(false);
    assert_eq!(run_init(&accounts, 1000, true), Err(EscrowError::MissingRequiredSignature));
}

#[test]
fn init_requires_ledger_owned_receive_account() {
    let mut accounts = init_accounts(true);
    accounts[2].owner = [5u8; 32];
    assert_eq!(run_init(&accounts, 1000, true), Err(EscrowError::IncorrectProgramId));
}

#[test]
fn init_requires_rent_exemption_and_mutates_nothing() {
    let accounts = init_accounts(true);
    assert_eq!(run_init(&accounts, 1000, false), Err(EscrowError::NotRentExempt));
    // The processor returned no outcome, so there is nothing to write:
    // the storage account's content is exactly what the caller supplied.
    assert_eq!(accounts[3].data, vec![0u8; RECORD_LEN]);
}

#[test]
fn init_rejects_occupied_slot_and_alters_no_field() {
    let first = run_init(&init_accounts(true), 1000, true).unwrap();

    let mut accounts = init_accounts(true);
    accounts[3].data = first.record_data.clone();
    assert_eq!(run_init(&accounts, 9999, true), Err(EscrowError::AccountAlreadyInitialized));
    assert_eq!(Escrow::unpack_from_slice(&accounts[3].data), Ok(first.record));
}

#[test]
fn init_rejects_storage_of_wrong_length() {
    let mut accounts = init_accounts(true);
    accounts[3].data = vec![0u8; RECORD_LEN - 1];
    assert_eq!(run_init(&accounts, 1000, true), Err(EscrowError::InvalidAccountData));
}

#[test]
fn exchange_completes_the_recorded_trade() {
    let init_outcome = run_init(&init_accounts(true), 1000, true).unwrap();

    let accounts = exchange_accounts(init_outcome.record_data.clone(), 1000);
    let outcome =
        Processor::process_exchange(&accounts, 1000, &PROGRAM_ID).unwrap();

    // The payout moves exactly the recorded expected amount to the
    // recorded receiving account, signed by the taker.
    assert_eq!(outcome.payout.amount, 1000);
    assert_eq!(outcome.payout.source, TAKER_SOURCE);
    assert_eq!(outcome.payout.destination, RECEIVE);
    assert_eq!(outcome.payout.authority, TAKER);

    // The whole deposit goes to the taker, under the derived address.
    let (expected_pda, expected_bump) =
        Pubkey::find_program_address(&[b"escrow"], &Pubkey::new_from_array(PROGRAM_ID));
    assert_eq!(outcome.release.source, HOLDING);
    assert_eq!(outcome.release.destination, TAKER_DEST);
    assert_eq!(outcome.release.amount, 1000);
    assert_eq!(outcome.release.authority, expected_pda.to_bytes());
    assert_eq!(outcome.authority_bump, expected_bump);

    assert_eq!(outcome.token_program, token_program_key());
    assert_eq!(outcome.close_holding, HOLDING);
    assert_eq!(outcome.close_record, STORAGE);
    assert_eq!(outcome.reclaim_to, INITIALIZER);
}

#[test]
fn exchange_requires_the_taker_signature() {
    let init_outcome = run_init(&init_accounts(true), 1000, true).unwrap();
    let mut accounts = exchange_accounts(init_outcome.record_data, 1000);
    accounts[0].is_signer = false;
    assert_eq!(
        Processor::process_exchange(&accounts, 1000, &PROGRAM_ID),
        Err(EscrowError::MissingRequiredSignature)
    );
}

#[test]
fn exchange_rejects_balance_off_by_one_unit() {
    let init_outcome = run_init(&init_accounts(true), 1000, true).unwrap();

    let accounts = exchange_accounts(init_outcome.record_data.clone(), 999);
    assert_eq!(
        Processor::process_exchange(&accounts, 1000, &PROGRAM_ID),
        Err(EscrowError::ExpectedAmountMismatch)
    );
    let accounts = exchange_accounts(init_outcome.record_data, 1001);
    assert_eq!(
        Processor::process_exchange(&accounts, 1000, &PROGRAM_ID),
        Err(EscrowError::ExpectedAmountMismatch)
    );
}

#[test]
fn exchange_rejects_unusable_holding_account() {
    let init_outcome = run_init(&init_accounts(true), 1000, true).unwrap();
    let mut accounts = exchange_accounts(init_outcome.record_data, 1000);
    // An uninitialized token-ledger account: the ledger's decoder refuses it.
    accounts[3].data[108] = 0;
    assert_eq!(
        Processor::process_exchange(&accounts, 1000, &PROGRAM_ID),
        Err(EscrowError::InvalidAccountData)
    );
}

#[test]
fn exchange_rejects_any_substituted_account() {
    let init_outcome = run_init(&init_accounts(true), 1000, true).unwrap();

    // A different holding account than the recorded one.
    let mut accounts = exchange_accounts(init_outcome.record_data.clone(), 1000);
    accounts[3].key = [1u8; 32];
    assert_eq!(
        Processor::process_exchange(&accounts, 1000, &PROGRAM_ID),
        Err(EscrowError::InvalidAccountData)
    );

    // A different main account than the recorded initializer.
    let mut accounts = exchange_accounts(init_outcome.record_data.clone(), 1000);
    accounts[4].key = [1u8; 32];
    assert_eq!(
        Processor::process_exchange(&accounts, 1000, &PROGRAM_ID),
        Err(EscrowError::InvalidAccountData)
    );

    // A different receiving account than the recorded one.
    let mut accounts = exchange_accounts(init_outcome.record_data.clone(), 1000);
    accounts[5].key = [1u8; 32];
    assert_eq!(
        Processor::process_exchange(&accounts, 1000, &PROGRAM_ID),
        Err(EscrowError::InvalidAccountData)
    );
}

#[test]
fn exchange_rejects_a_free_record_slot() {
    let accounts = exchange_accounts(vec![0u8; RECORD_LEN], 1000);
    assert_eq!(
        Processor::process_exchange(&accounts, 1000, &PROGRAM_ID),
        Err(EscrowError::InvalidAccountData)
    );
}

#[test]
fn holding_account_data_matches_ledger_encoding() {
    // The buffer the tests hand the processor is exactly what the ledger
    // itself packs for such an account.
    let data = token_account_data(PROGRAM_ID, 1000);
    let parsed = spl_token::state::Account::unpack(&data).unwrap();
    assert_eq!(parsed.amount, 1000);
    assert_eq!(parsed.owner, Pubkey::new_from_array(PROGRAM_ID));

    let mut repacked = vec![0u8; 165];
    spl_token::state::Account::pack(parsed, &mut repacked).unwrap();
    assert_eq!(repacked, data);
}

#[test]
fn process_dispatches_on_the_instruction_tag() {
    let mut init_data = vec![0u8];
    init_data.extend_from_slice(&1000u64.to_le_bytes());
    let accounts = init_accounts(true);
    match Processor::process(&PROGRAM_ID, &accounts, &init_data, true) {
        Ok(ProcessOutcome::Init(o)) => assert_eq!(o.record.expected_amount, 1000),
        other => panic!("expected an initialize outcome, got {:?}", other.is_ok()),
    }

    let init_outcome = run_init(&accounts, 1000, true).unwrap();
    let mut exchange_data = vec![1u8];
    exchange_data.extend_from_slice(&1000u64.to_le_bytes());
    let accounts = exchange_accounts(init_outcome.record_data, 1000);
    match Processor::process(&PROGRAM_ID, &accounts, &exchange_data, true) {
        Ok(ProcessOutcome::Exchange(o)) => assert_eq!(o.payout.amount, 1000),
        other => panic!("expected an exchange outcome, got {:?}", other.is_ok()),
    }

    let accounts = init_accounts(true);
    assert!(matches!(
        Processor::process(&PROGRAM_ID, &accounts, &vec![7u8, 0, 0, 0, 0, 0, 0, 0, 0], true),
        Err(EscrowError::InvalidInstruction)
    ));
}
