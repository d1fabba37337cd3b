//! The escrow processor: a state machine over a single record, with two
//! transitions.
//!
//! Every caller-supplied account is adversarial: nothing guarantees that a
//! caller passes the accounts it claims to, so each transition validates
//! the whole account set before anything else, fail-fast, and only then
//! decides what to do. The processor itself mutates nothing: it returns the
//! exact operations to perform — the record bytes to write, the authority
//! reassignment, the balance transfers — and the surrounding runtime
//! carries them out as one all-or-nothing unit of work.

use vstd::prelude::*;
use crate::error::EscrowError;
use crate::instruction::{spec_unpack, EscrowInstruction};
use crate::ledger::{
    derived_address_of, spec_token_account_accepted, spec_token_account_amount,
    spec_token_program_id, token_program_id, try_derive_address, unpack_token_amount,
};
use crate::state::{unpacked, Escrow, EscrowV, RECORD_LEN};

verus! {

/// One caller-supplied account, as the processor sees it: its identity,
/// whether its controlling party signed this call, the program that owns
/// it, and its opaque byte content.
#[derive(Clone, Debug)]
pub struct AccountView {
    /// The account's identity.
    pub key: [u8; 32],
    /// Whether the account's controlling party authorized this call.
    pub is_signer: bool,
    /// The identity of the program that owns the account.
    pub owner: [u8; 32],
    /// The account's byte content.
    pub data: Vec<u8>,
}

/// The mathematical model of an account: the same fields, with the
/// identities as byte sequences.
#[verifier::ext_equal]
pub ghost struct AccountViewV {
    pub key: Seq<u8>,
    pub is_signer: bool,
    pub owner: Seq<u8>,
    pub data: Seq<u8>,
}

impl View for AccountView {
    type V = AccountViewV;

    open spec fn view(&self) -> AccountViewV {
        AccountViewV {
            key: self.key@,
            is_signer: self.is_signer,
            owner: self.owner@,
            data: self.data@,
        }
    }
}

/// A reassignment of the controlling authority over an asset-ledger
/// account, to be issued to the asset-transfer collaborator.
#[derive(Clone, Copy, Debug, PartialEq, Eq)]
pub struct ReassignAuthority {
    /// The collaborator program to issue the operation to.
    pub token_program: [u8; 32],
    /// The account whose authority changes.
    pub account: [u8; 32],
    /// The authority the account is handed to.
    pub new_authority: [u8; 32],
    /// The authority the account is taken from; signs the operation.
    pub current_authority: [u8; 32],
}

/// A balance transfer between two asset-ledger accounts, to be issued to
/// the asset-transfer collaborator.
#[derive(Clone, Copy, Debug, PartialEq, Eq)]
pub struct TransferBalance {
    /// The account debited.
    pub source: [u8; 32],
    /// The account credited.
    pub destination: [u8; 32],
    /// The authority that signs the transfer.
    pub authority: [u8; 32],
    /// The quantity moved.
    pub amount: u64,
}

/// Everything a successful initialize transition asks the caller to carry
/// out. The record write comes first: if the authority reassignment is then
/// rejected, a consistently-initialized record is still in place.
#[derive(Clone, Debug, PartialEq, Eq)]
pub struct InitEscrowOutcome {
    /// The populated record.
    pub record: Escrow,
    /// The encoded record, to be written into the storage account.
    pub record_data: Vec<u8>,
    /// Hand authority over the holding account from the initializer to the
    /// platform-derived address.
    pub reassign: ReassignAuthority,
}

/// Everything a successful exchange transition asks the caller to carry
/// out: the two transfers that make the trade atomic, and the accounts
/// that are consumed by it.
#[derive(Clone, Copy, Debug, PartialEq, Eq)]
pub struct ExchangeOutcome {
    /// Move the recorded expected amount from the taker's source account
    /// to the initializer's recorded receiving account, signed by the
    /// taker.
    pub payout: TransferBalance,
    /// Move the whole escrowed deposit from the holding account to the
    /// taker's receiving account, under the authority of the
    /// platform-derived address.
    pub release: TransferBalance,
    /// The bump seed that lets the owning program sign as the derived
    /// address when issuing the release.
    pub authority_bump: u8,
    /// The collaborator program to issue both transfers to.
    pub token_program: [u8; 32],
    /// The holding account, to be closed once emptied.
    pub close_holding: [u8; 32],
    /// The record's storage account, consumed by the completed trade.
    pub close_record: [u8; 32],
    /// Where the balances reclaimed by closing are returned: the
    /// initializer's main account.
    pub reclaim_to: [u8; 32],
}

/// What one dispatched instruction asks the caller to carry out.
#[derive(Clone, Debug, PartialEq, Eq)]
pub enum ProcessOutcome {
    /// The outcome of an initialize transition.
    Init(InitEscrowOutcome),
    /// The outcome of an exchange transition.
    Exchange(ExchangeOutcome),
}

/// The seed from which the holding account's controlling address is
/// derived; the bytes spell the word "escrow".
pub open spec fn spec_escrow_seed() -> Seq<u8> {
    seq![101u8, 115u8, 99u8, 114u8, 111u8, 119u8]
}

/// Build the derivation seed; see [`spec_escrow_seed`].
fn escrow_seed() -> (r: Vec<u8>)
    ensures
        r@ == spec_escrow_seed(),
{
    let mut v: Vec<u8> = Vec::new();
    v.push(101);
    v.push(115);
    v.push(99);
    v.push(114);
    v.push(111);
    v.push(119);
    proof {
        assert(v@ =~= spec_escrow_seed());
    }
    v
}

/// Whether two identities are the same.
fn key_eq(a: &[u8; 32], b: &[u8; 32]) -> (r: bool)
    ensures
        r <==> a@ == b@,
{
    for i in 0..32
        invariant
            forall|j: int| 0 <= j < i ==> a@[j] == b@[j],
    {
        if a[i] != b[i] {
            return false;
        }
    }
    proof {
        assert(a@ =~= b@);
    }
    true
}

/// The first check an initialize transition fails, if any, over the five
/// supplied accounts `[initializer, holding, receive, storage, token
/// program]`: the initializer must have signed; the receiving account must
/// be owned by the asset-ledger program; the storage account must be
/// rent-exempt; its content must have the record length; the record slot
/// must still be free; and the platform must derive a controlling address
/// for the holding account.
pub open spec fn spec_init_error(
    accounts: Seq<AccountView>,
    program_id: Seq<u8>,
    storage_rent_exempt: bool,
) -> Option<EscrowError>
    recommends
        accounts.len() == 5,
{
    if !accounts[0]@.is_signer {
        Some(EscrowError::MissingRequiredSignature)
    } else if accounts[2]@.owner != spec_token_program_id() {
        Some(EscrowError::IncorrectProgramId)
    } else if !storage_rent_exempt {
        Some(EscrowError::NotRentExempt)
    } else if accounts[3]@.data.len() != RECORD_LEN {
        Some(EscrowError::InvalidAccountData)
    } else if unpacked(accounts[3]@.data).is_initialized {
        Some(EscrowError::AccountAlreadyInitialized)
    } else if derived_address_of(spec_escrow_seed(), program_id) is None {
        Some(EscrowError::InvalidAccountData)
    } else {
        None
    }
}

/// The record a successful initialize transition writes: the slot marked
/// in use, the three identities the initializer commits to, the expected
/// amount from the instruction, and the time fields left as the storage
/// account held them.
pub open spec fn spec_init_record(accounts: Seq<AccountView>, amount: u64) -> EscrowV
    recommends
        accounts.len() == 5,
{
    EscrowV {
        is_initialized: true,
        initializer_pubkey: accounts[0]@.key,
        temp_token_account_pubkey: accounts[1]@.key,
        initializer_token_to_receive_account_pubkey: accounts[2]@.key,
        expected_amount: amount,
        unlock_time: unpacked(accounts[3]@.data).unlock_time,
        time_out: unpacked(accounts[3]@.data).time_out,
    }
}

/// What a successful initialize transition hands back: the populated
/// record, its encoding, and the authority reassignment that moves the
/// holding account under the platform-derived address.
pub open spec fn init_outcome_ok(
    o: InitEscrowOutcome,
    accounts: Seq<AccountView>,
    amount: u64,
    program_id: Seq<u8>,
) -> bool
    recommends
        accounts.len() == 5,
{
    &&& o.record@ == spec_init_record(accounts, amount)
    &&& o.record_data@ == o.record@.packed()
    &&& o.reassign.token_program@ == accounts[4]@.key
    &&& o.reassign.account@ == accounts[1]@.key
    &&& (derived_address_of(spec_escrow_seed(), program_id) matches Some(p)
        && o.reassign.new_authority@ == p.0)
    &&& o.reassign.current_authority@ == accounts[0]@.key
}

/// The first check an exchange transition fails, if any, over the eight
/// supplied accounts `[taker, taker source, taker destination, holding,
/// initializer main, initializer receive, storage, token program]`: the
/// taker must have signed; the holding account's content must be a
/// token-ledger account the ledger accepts; the platform must derive the
/// holding account's controlling address; the holding account's balance
/// must equal the taker's expectation exactly; the storage account must
/// hold an initialized record; and the holding, initializer and receiving
/// accounts supplied must be exactly the three identities the record
/// stores.
pub open spec fn spec_exchange_error(
    accounts: Seq<AccountView>,
    amount_expected_by_taker: u64,
    program_id: Seq<u8>,
) -> Option<EscrowError>
    recommends
        accounts.len() == 8,
{
    if !accounts[0]@.is_signer {
        Some(EscrowError::MissingRequiredSignature)
    } else if !spec_token_account_accepted(accounts[3]@.data) {
        Some(EscrowError::InvalidAccountData)
    } else if derived_address_of(spec_escrow_seed(), program_id) is None {
        Some(EscrowError::InvalidAccountData)
    } else if spec_token_account_amount(accounts[3]@.data) != amount_expected_by_taker {
        Some(EscrowError::ExpectedAmountMismatch)
    } else if accounts[6]@.data.len() != RECORD_LEN {
        Some(EscrowError::InvalidAccountData)
    } else if !unpacked(accounts[6]@.data).is_initialized {
        Some(EscrowError::InvalidAccountData)
    } else if unpacked(accounts[6]@.data).temp_token_account_pubkey != accounts[3]@.key {
        Some(EscrowError::InvalidAccountData)
    } else if unpacked(accounts[6]@.data).initializer_pubkey != accounts[4]@.key {
        Some(EscrowError::InvalidAccountData)
    } else if unpacked(accounts[6]@.data).initializer_token_to_receive_account_pubkey
        != accounts[5]@.key {
        Some(EscrowError::InvalidAccountData)
    } else {
        None
    }
}

/// What a successful exchange transition hands back: the payout of the
/// recorded expected amount to the recorded receiving account, the release
/// of the whole deposit to the taker, and the consumed accounts.
pub open spec fn exchange_outcome_ok(
    o: ExchangeOutcome,
    accounts: Seq<AccountView>,
    program_id: Seq<u8>,
) -> bool
    recommends
        accounts.len() == 8,
{
    let rec = unpacked(accounts[6]@.data);
    &&& o.payout.source@ == accounts[1]@.key
    &&& o.payout.destination@ == accounts[5]@.key
    &&& o.payout.authority@ == accounts[0]@.key
    &&& o.payout.amount == rec.expected_amount
    &&& o.release.source@ == accounts[3]@.key
    &&& o.release.destination@ == accounts[2]@.key
    &&& (derived_address_of(spec_escrow_seed(), program_id) matches Some(p)
        && o.release.authority@ == p.0 && o.authority_bump == p.1)
    &&& o.release.amount == spec_token_account_amount(accounts[3]@.data)
    &&& o.token_program@ == accounts[7]@.key
    &&& o.close_holding@ == accounts[3]@.key
    &&& o.close_record@ == accounts[6]@.key
    &&& o.reclaim_to@ == accounts[4]@.key
}

/// The escrow processor; its methods validate a supplied account set and
/// drive one transition each.
pub struct Processor;

impl Processor {
    /// The initialize transition: record the terms of a new trade and hand
    /// the deposit's holding account to the platform-derived address.
    ///
    /// `accounts` are, in order: the initializer, the holding account, the
    /// initializer's receiving account, the record's storage account, and
    /// the asset-ledger program. `storage_rent_exempt` is the external
    /// rent-exemption predicate's verdict on the storage account.
    ///
    /// Exactly the account sets that [`spec_init_error`] clears produce an
    /// outcome, and nothing is to be mutated on any failure.
    pub fn process_init_escrow(
        accounts: &Vec<AccountView>,
        amount: u64,
        program_id: &[u8; 32],
        storage_rent_exempt: bool,
    ) -> (r: Result<InitEscrowOutcome, EscrowError>)
        requires
            accounts@.len() == 5,
        ensures
            r is Ok <==> spec_init_error(accounts@, program_id@, storage_rent_exempt) is None,
            r matches Err(e) ==> spec_init_error(accounts@, program_id@, storage_rent_exempt)
                == Some(e),
            r matches Ok(o) ==> init_outcome_ok(o, accounts@, amount, program_id@),
    {
        let initializer = &accounts[0];
        if !initializer.is_signer {
            return Err(EscrowError::MissingRequiredSignature);
        }
        let temp_token_account = &accounts[1];
        let token_to_receive_account = &accounts[2];
        let expected_owner = token_program_id();
        if !key_eq(&token_to_receive_account.owner, &expected_owner) {
            return Err(EscrowError::IncorrectProgramId);
        }
        let escrow_account = &accounts[3];
        if !storage_rent_exempt {
            return Err(EscrowError::NotRentExempt);
        }
        let mut escrow_info = match Escrow::unpack_from_slice(&escrow_account.data) {
            Ok(e) => e,
            Err(e) => {
                return Err(e);
            },
        };
        if escrow_info.is_initialized() {
            return Err(EscrowError::AccountAlreadyInitialized);
        }
        escrow_info.is_initialized = true;
        escrow_info.initializer_pubkey = initializer.key;
        escrow_info.temp_token_account_pubkey = temp_token_account.key;
        escrow_info.initializer_token_to_receive_account_pubkey = token_to_receive_account.key;
        escrow_info.expected_amount = amount;
        let mut record_data: Vec<u8> = Vec::new();
        escrow_info.pack_into_slice(&mut record_data);
        let seed = escrow_seed();
        let (pda, _bump_seed) = match try_derive_address(&seed, program_id) {
            Some(p) => p,
            None => {
                return Err(EscrowError::InvalidAccountData);
            },
        };
        let token_program = &accounts[4];
        proof {
            assert(escrow_info@ =~= spec_init_record(accounts@, amount));
        }
        Ok(InitEscrowOutcome {
            record: escrow_info,
            record_data,
            reassign: ReassignAuthority {
                token_program: token_program.key,
                account: temp_token_account.key,
                new_authority: pda,
                current_authority: initializer.key,
            },
        })
    }

    /// Decode one instruction and drive the transition it selects.
    ///
    /// `storage_rent_exempt` is the external rent-exemption predicate's
    /// verdict on the record's storage account; only the initialize
    /// transition reads it. Malformed instruction bytes fail before any
    /// account is looked at.
    pub fn process(
        program_id: &[u8; 32],
        accounts: &Vec<AccountView>,
        instruction_data: &Vec<u8>,
        storage_rent_exempt: bool,
    ) -> (r: Result<ProcessOutcome, EscrowError>)
        requires
            spec_unpack(instruction_data@) matches Some(i) ==> match i {
                EscrowInstruction::InitEscrow { .. } => accounts@.len() == 5,
                EscrowInstruction::Exchange { .. } => accounts@.len() == 8,
            },
        ensures
            spec_unpack(instruction_data@) is None ==> r == Err::<
                ProcessOutcome,
                EscrowError,
            >(EscrowError::InvalidInstruction),
            spec_unpack(instruction_data@) matches Some(EscrowInstruction::InitEscrow { amount })
                ==> {
                &&& (r is Ok <==> spec_init_error(accounts@, program_id@, storage_rent_exempt)
                    is None)
                &&& (r matches Err(e) ==> spec_init_error(accounts@, program_id@,
                    storage_rent_exempt) == Some(e))
                &&& (r matches Ok(o) ==> o matches ProcessOutcome::Init(oi)
                    && init_outcome_ok(oi, accounts@, amount, program_id@))
            },
            spec_unpack(instruction_data@) matches Some(EscrowInstruction::Exchange { amount })
                ==> {
                &&& (r is Ok <==> spec_exchange_error(accounts@, amount, program_id@) is None)
                &&& (r matches Err(e) ==> spec_exchange_error(accounts@, amount, program_id@)
                    == Some(e))
                &&& (r matches Ok(o) ==> o matches ProcessOutcome::Exchange(oe)
                    && exchange_outcome_ok(oe, accounts@, program_id@))
            },
    {
        let instruction = match EscrowInstruction::unpack(instruction_data) {
            Ok(i) => i,
            Err(e) => {
                return Err(e);
            },
        };
        match instruction {
            EscrowInstruction::InitEscrow { amount } => {
                match Self::process_init_escrow(accounts, amount, program_id, storage_rent_exempt)
                {
                    Ok(o) => Ok(ProcessOutcome::Init(o)),
                    Err(e) => Err(e),
                }
            },
            EscrowInstruction::Exchange { amount } => {
                match Self::process_exchange(accounts, amount, program_id) {
                    Ok(o) => Ok(ProcessOutcome::Exchange(o)),
                    Err(e) => Err(e),
                }
            },
        }
    }

    /// The exchange transition: complete a recorded trade in one unit of
    /// work.
    ///
    /// `accounts` are, in order: the taker, the taker's source account,
    /// the taker's destination account, the holding account, the
    /// initializer's main account, the initializer's receiving account,
    /// the record's storage account, and the asset-ledger program.
    ///
    /// The amount paid out is the one stored in the record, never the
    /// taker-supplied value: that value only has to match the holding
    /// account's observed balance exactly. Exactly the account sets that
    /// [`spec_exchange_error`] clears produce an outcome, and nothing is
    /// to be mutated on any failure.
    pub fn process_exchange(
        accounts: &Vec<AccountView>,
        amount_expected_by_taker: u64,
        program_id: &[u8; 32],
    ) -> (r: Result<ExchangeOutcome, EscrowError>)
        requires
            accounts@.len() == 8,
        ensures
            r is Ok <==> spec_exchange_error(accounts@, amount_expected_by_taker, program_id@)
                is None,
            r matches Err(e) ==> spec_exchange_error(
                accounts@,
                amount_expected_by_taker,
                program_id@,
            ) == Some(e),
            r matches Ok(o) ==> exchange_outcome_ok(o, accounts@, program_id@),
    {
        let taker = &accounts[0];
        if !taker.is_signer {
            return Err(EscrowError::MissingRequiredSignature);
        }
        let takers_sending_token_account = &accounts[1];
        let takers_token_to_receive_account = &accounts[2];
        let pdas_temp_token_account = &accounts[3];
        let holding_balance = match unpack_token_amount(&pdas_temp_token_account.data) {
            Some(a) => a,
            None => {
                return Err(EscrowError::InvalidAccountData);
            },
        };
        let seed = escrow_seed();
        let (pda, bump_seed) = match try_derive_address(&seed, program_id) {
            Some(p) => p,
            None => {
                return Err(EscrowError::InvalidAccountData);
            },
        };
        if amount_expected_by_taker != holding_balance {
            return Err(EscrowError::ExpectedAmountMismatch);
        }
        let initializers_main_account = &accounts[4];
        let initializers_token_to_receive_account = &accounts[5];
        let escrow_account = &accounts[6];
        let escrow_info = match Escrow::unpack_from_slice(&escrow_account.data) {
            Ok(e) => e,
            Err(e) => {
                return Err(e);
            },
        };
        if !escrow_info.is_initialized() {
            return Err(EscrowError::InvalidAccountData);
        }
        if !key_eq(&escrow_info.temp_token_account_pubkey, &pdas_temp_token_account.key) {
            return Err(EscrowError::InvalidAccountData);
        }
        if !key_eq(&escrow_info.initializer_pubkey, &initializers_main_account.key) {
            return Err(EscrowError::InvalidAccountData);
        }
        if !key_eq(
            &escrow_info.initializer_token_to_receive_account_pubkey,
            &initializers_token_to_receive_account.key,
        ) {
            return Err(EscrowError::InvalidAccountData);
        }
        let token_program = &accounts[7];
        Ok(ExchangeOutcome {
            payout: TransferBalance {
                source: takers_sending_token_account.key,
                destination: initializers_token_to_receive_account.key,
                authority: taker.key,
                amount: escrow_info.expected_amount,
            },
            release: TransferBalance {
                source: pdas_temp_token_account.key,
                destination: takers_token_to_receive_account.key,
                authority: pda,
                amount: holding_balance,
            },
            authority_bump: bump_seed,
            token_program: token_program.key,
            close_holding: pdas_temp_token_account.key,
            close_record: escrow_account.key,
            reclaim_to: initializers_main_account.key,
        })
    }
}

} // verus!
