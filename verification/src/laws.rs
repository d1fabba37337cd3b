//! The guarantees the escrow gives across its transitions, stated once,
//! in full generality, over the processor's decision functions.
//!
//! Together with the processors' own contracts — exactly the account sets
//! these decision functions clear produce an outcome, and a failed
//! transition yields no outcome, hence no mutation — each statement here
//! carries over to the executable transitions.

use vstd::prelude::*;
use vstd::bytes::lemma_auto_spec_u64_to_from_le_bytes;
use crate::error::EscrowError;
use crate::ledger::{
    derived_address_of, spec_token_account_accepted, spec_token_account_amount,
    spec_token_program_id,
};
use crate::processor::{
    spec_escrow_seed, spec_exchange_error, spec_init_error, spec_init_record, AccountView,
};
use crate::state::{lemma_pack_unpack_roundtrip, unpacked, RECORD_LEN};

verus! {

/// An initialize transition whose storage account the external
/// rent-exemption predicate rejects fails with `NotRentExempt`, whatever
/// the rest of the accounts hold, as soon as the initializer has signed
/// and the receiving account is owned by the asset-ledger program (the two
/// checks that come first); failing, it yields no outcome, so no record is
/// written.
pub proof fn lemma_init_requires_rent_exemption(accounts: Seq<AccountView>, program_id: Seq<u8>)
    requires
        accounts.len() == 5,
        accounts[0]@.is_signer,
        accounts[2]@.owner == spec_token_program_id(),
    ensures
        spec_init_error(accounts, program_id, false) == Some(EscrowError::NotRentExempt),
{
}

/// An initialize transition over a storage account that already holds an
/// initialized record fails with `AccountAlreadyInitialized`, once every
/// check before the slot check passes; failing, it yields no outcome, so
/// no field of the stored record is altered.
pub proof fn lemma_init_rejects_occupied_slot(accounts: Seq<AccountView>, program_id: Seq<u8>)
    requires
        accounts.len() == 5,
        accounts[0]@.is_signer,
        accounts[2]@.owner == spec_token_program_id(),
        accounts[3]@.data.len() == RECORD_LEN,
        unpacked(accounts[3]@.data).is_initialized,
    ensures
        spec_init_error(accounts, program_id, true) == Some(
            EscrowError::AccountAlreadyInitialized,
        ),
{
}

/// An exchange transition fails with `ExpectedAmountMismatch` whenever the
/// holding account's observed balance differs from the taker-supplied
/// expectation — by as little as one unit — once the checks that come
/// before the balance check pass.
pub proof fn lemma_exchange_balance_mismatch(
    accounts: Seq<AccountView>,
    amount_expected_by_taker: u64,
    program_id: Seq<u8>,
)
    requires
        accounts.len() == 8,
        accounts[0]@.is_signer,
        spec_token_account_accepted(accounts[3]@.data),
        derived_address_of(spec_escrow_seed(), program_id) is Some,
        spec_token_account_amount(accounts[3]@.data) != amount_expected_by_taker,
    ensures
        spec_exchange_error(accounts, amount_expected_by_taker, program_id) == Some(
            EscrowError::ExpectedAmountMismatch,
        ),
{
}

/// An exchange transition fails with `InvalidAccountData` if the taker
/// substitutes any account for one of the three identities stored in the
/// record — the holding account, the initializer's main account, or the
/// initializer's receiving account — even though every other check passes.
pub proof fn lemma_exchange_rejects_substituted_accounts(
    accounts: Seq<AccountView>,
    program_id: Seq<u8>,
)
    requires
        accounts.len() == 8,
        accounts[0]@.is_signer,
        spec_token_account_accepted(accounts[3]@.data),
        derived_address_of(spec_escrow_seed(), program_id) is Some,
        accounts[6]@.data.len() == RECORD_LEN,
        unpacked(accounts[6]@.data).is_initialized,
        unpacked(accounts[6]@.data).temp_token_account_pubkey != accounts[3]@.key
            || unpacked(accounts[6]@.data).initializer_pubkey != accounts[4]@.key
            || unpacked(accounts[6]@.data).initializer_token_to_receive_account_pubkey
                != accounts[5]@.key,
    ensures
        spec_exchange_error(
            accounts,
            spec_token_account_amount(accounts[3]@.data),
            program_id,
        ) == Some(EscrowError::InvalidAccountData),
{
}

/// A trade the initialize transition records can always be completed: an
/// exchange that finds the written record in the storage account, an
/// acceptable holding account, and the three recorded identities in their
/// places, and whose taker signs and expects exactly the observed balance,
/// clears every check; the record read back carries the initializer's
/// amount and receiving account, so that is what the payout moves, and to
/// whom.
pub proof fn lemma_exchange_completes_initialized_trade(
    init_accounts: Seq<AccountView>,
    amount: u64,
    accounts: Seq<AccountView>,
    program_id: Seq<u8>,
)
    requires
        init_accounts.len() == 5,
        accounts.len() == 8,
        spec_init_error(init_accounts, program_id, true) is None,
        accounts[6]@.data == spec_init_record(init_accounts, amount).packed(),
        accounts[0]@.is_signer,
        spec_token_account_accepted(accounts[3]@.data),
        accounts[3]@.key == init_accounts[1]@.key,
        accounts[4]@.key == init_accounts[0]@.key,
        accounts[5]@.key == init_accounts[2]@.key,
    ensures
        spec_exchange_error(
            accounts,
            spec_token_account_amount(accounts[3]@.data),
            program_id,
        ) is None,
        unpacked(accounts[6]@.data).expected_amount == amount,
        unpacked(accounts[6]@.data).initializer_token_to_receive_account_pubkey
            == init_accounts[2]@.key,
{
    lemma_auto_spec_u64_to_from_le_bytes();
    let rec = spec_init_record(init_accounts, amount);
    assert(rec.wf());
    lemma_pack_unpack_roundtrip(rec);
    assert(rec.packed().len() == RECORD_LEN);
}

} // verus!
