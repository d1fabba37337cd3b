//! The persisted escrow record and its fixed-width binary layout.
//!
//! One record describes one trade: whether the slot is in use, the three
//! identities the initializer committed to, and the amount of the
//! counter-asset the initializer expects. Two further time fields are part
//! of the layout but are not read by any transition.

use vstd::prelude::*;
use vstd::bytes::{spec_u64_from_le_bytes, spec_u64_to_le_bytes, u64_from_le_bytes, u64_to_le_bytes, lemma_auto_spec_u64_to_from_le_bytes};
use vstd::slice::slice_subrange;
use crate::error::EscrowError;

verus! {

/// Length in bytes of an encoded record: a one-byte initialized flag,
/// three 32-byte identities, and three little-endian 64-bit integers.
pub const RECORD_LEN: usize = 121;

/// The escrow record as the processor reads and writes it.
///
/// `is_initialized` becomes true exactly once, at creation, and gates both
/// transitions; the three identities and `expected_amount` are written once
/// by the initialize transition and only read afterwards.
#[derive(Clone, Copy, Debug, PartialEq, Eq)]
pub struct Escrow {
    /// Whether this record's slot is already in use by a trade.
    pub is_initialized: bool,
    /// Party A's identity; only this party's receiving account may be credited.
    pub initializer_pubkey: [u8; 32],
    /// Identity of the account holding the escrowed deposit.
    pub temp_token_account_pubkey: [u8; 32],
    /// The account that must be credited when the trade completes.
    pub initializer_token_to_receive_account_pubkey: [u8; 32],
    /// Quantity of the counter-asset the initializer requires; write-once.
    pub expected_amount: u64,
    /// Declared time bound; part of the layout, not read by any transition.
    pub unlock_time: u64,
    /// Declared time bound; part of the layout, not read by any transition.
    pub time_out: u64,
}

/// The mathematical model of a record: the same fields, with the
/// identities as byte sequences.
#[verifier::ext_equal]
pub ghost struct EscrowV {
    pub is_initialized: bool,
    pub initializer_pubkey: Seq<u8>,
    pub temp_token_account_pubkey: Seq<u8>,
    pub initializer_token_to_receive_account_pubkey: Seq<u8>,
    pub expected_amount: u64,
    pub unlock_time: u64,
    pub time_out: u64,
}

impl View for Escrow {
    type V = EscrowV;

    open spec fn view(&self) -> EscrowV {
        EscrowV {
            is_initialized: self.is_initialized,
            initializer_pubkey: self.initializer_pubkey@,
            temp_token_account_pubkey: self.temp_token_account_pubkey@,
            initializer_token_to_receive_account_pubkey: self.initializer_token_to_receive_account_pubkey@,
            expected_amount: self.expected_amount,
            unlock_time: self.unlock_time,
            time_out: self.time_out,
        }
    }
}

impl EscrowV {
    /// Each identity is exactly 32 bytes. Every `Escrow` value's view has
    /// this shape by construction.
    pub open spec fn wf(self) -> bool {
        &&& self.initializer_pubkey.len() == 32
        &&& self.temp_token_account_pubkey.len() == 32
        &&& self.initializer_token_to_receive_account_pubkey.len() == 32
    }

    /// The encoded form of a record: the initialized flag as one byte
    /// (`1` for true, `0` for false), the three identities, and the three
    /// integers in little-endian order.
    pub open spec fn packed(self) -> Seq<u8> {
        seq![if self.is_initialized { 1u8 } else { 0u8 }]
            + self.initializer_pubkey
            + self.temp_token_account_pubkey
            + self.initializer_token_to_receive_account_pubkey
            + spec_u64_to_le_bytes(self.expected_amount)
            + spec_u64_to_le_bytes(self.unlock_time)
            + spec_u64_to_le_bytes(self.time_out)
    }
}

/// The record denoted by a well-formed-length buffer. Decoding is total on
/// such buffers: an all-zero buffer (a storage slot that was never written)
/// denotes an uninitialized record with all-zero identities, and any flag
/// byte other than `1` is read as "not initialized".
pub open spec fn unpacked(s: Seq<u8>) -> EscrowV
    recommends
        s.len() == RECORD_LEN,
{
    EscrowV {
        is_initialized: s[0] == 1,
        initializer_pubkey: s.subrange(1, 33),
        temp_token_account_pubkey: s.subrange(33, 65),
        initializer_token_to_receive_account_pubkey: s.subrange(65, 97),
        expected_amount: spec_u64_from_le_bytes(s.subrange(97, 105)),
        unlock_time: spec_u64_from_le_bytes(s.subrange(105, 113)),
        time_out: spec_u64_from_le_bytes(s.subrange(113, 121)),
    }
}

/// Decoding inverts encoding: a record written with [`EscrowV::packed`] and
/// read back with [`unpacked`] is unchanged, whatever its identity bytes,
/// amount and time fields hold.
pub proof fn lemma_pack_unpack_roundtrip(v: EscrowV)
    requires
        v.wf(),
    ensures
        unpacked(v.packed()) == v,
{
    lemma_auto_spec_u64_to_from_le_bytes();
    assert(v.packed().len() == RECORD_LEN);
    assert(unpacked(v.packed()).initializer_pubkey =~= v.initializer_pubkey);
    assert(unpacked(v.packed()).temp_token_account_pubkey =~= v.temp_token_account_pubkey);
    assert(unpacked(v.packed()).initializer_token_to_receive_account_pubkey
        =~= v.initializer_token_to_receive_account_pubkey);
    assert(v.packed().subrange(97, 105) =~= spec_u64_to_le_bytes(v.expected_amount));
    assert(v.packed().subrange(105, 113) =~= spec_u64_to_le_bytes(v.unlock_time));
    assert(v.packed().subrange(113, 121) =~= spec_u64_to_le_bytes(v.time_out));
    assert(unpacked(v.packed()) =~= v);
}

/// Encoding also inverts decoding on every canonical buffer: one of the
/// record length whose flag byte is `0` or `1`, as every buffer written by
/// [`EscrowV::packed`] is. (A non-canonical flag byte still decodes, as
/// "not initialized", but re-encodes to `0`.)
pub proof fn lemma_unpack_pack_roundtrip(s: Seq<u8>)
    requires
        s.len() == RECORD_LEN,
        s[0] == 0 || s[0] == 1,
    ensures
        unpacked(s).packed() == s,
{
    lemma_auto_spec_u64_to_from_le_bytes();
    assert(spec_u64_to_le_bytes(spec_u64_from_le_bytes(s.subrange(97, 105))) == s.subrange(97, 105));
    assert(spec_u64_to_le_bytes(spec_u64_from_le_bytes(s.subrange(105, 113))) == s.subrange(105, 113));
    assert(spec_u64_to_le_bytes(spec_u64_from_le_bytes(s.subrange(113, 121))) == s.subrange(113, 121));
    assert(unpacked(s).packed() =~= s);
}

impl Escrow {
    /// Whether this record's slot is already in use.
    pub fn is_initialized(&self) -> (r: bool)
        ensures
            r == self@.is_initialized,
    {
        self.is_initialized
    }

    /// Decode a record from the content of a storage account.
    ///
    /// Succeeds on every buffer of the fixed record length, including an
    /// all-zero one (callers distinguish "slot available" from "slot
    /// occupied" by the decoded `is_initialized` flag alone); any other
    /// length is unusable account content.
    pub fn unpack_from_slice(src: &Vec<u8>) -> (r: Result<Escrow, EscrowError>)
        ensures
            src@.len() == RECORD_LEN ==> (r matches Ok(e) && e@ == unpacked(src@)),
            src@.len() != RECORD_LEN ==> r == Err::<Escrow, EscrowError>(EscrowError::InvalidAccountData),
    {
        if src.len() != RECORD_LEN {
            return Err(EscrowError::InvalidAccountData);
        }
        let is_initialized = src[0] == 1;
        let mut initializer_pubkey: [u8; 32] = [0; 32];
        let mut temp_token_account_pubkey: [u8; 32] = [0; 32];
        let mut initializer_token_to_receive_account_pubkey: [u8; 32] = [0; 32];
        for i in 0..32
            invariant
                src@.len() == RECORD_LEN,
                forall|j: int| 0 <= j < i ==> initializer_pubkey@[j] == src@[1 + j],
                forall|j: int| 0 <= j < i ==> temp_token_account_pubkey@[j] == src@[33 + j],
                forall|j: int| 0 <= j < i
                    ==> initializer_token_to_receive_account_pubkey@[j] == src@[65 + j],
        {
            initializer_pubkey[i] = src[1 + i];
            temp_token_account_pubkey[i] = src[33 + i];
            initializer_token_to_receive_account_pubkey[i] = src[65 + i];
        }
        let expected_amount = u64_from_le_bytes(slice_subrange(src.as_slice(), 97, 105));
        let unlock_time = u64_from_le_bytes(slice_subrange(src.as_slice(), 105, 113));
        let time_out = u64_from_le_bytes(slice_subrange(src.as_slice(), 113, 121));
        let e = Escrow {
            is_initialized,
            initializer_pubkey,
            temp_token_account_pubkey,
            initializer_token_to_receive_account_pubkey,
            expected_amount,
            unlock_time,
            time_out,
        };
        proof {
            assert(e@.initializer_pubkey =~= unpacked(src@).initializer_pubkey);
            assert(e@.temp_token_account_pubkey =~= unpacked(src@).temp_token_account_pubkey);
            assert(e@.initializer_token_to_receive_account_pubkey
                =~= unpacked(src@).initializer_token_to_receive_account_pubkey);
            assert(e@ =~= unpacked(src@));
        }
        Ok(e)
    }

    /// Encode this record, replacing the previous content of `dst`.
    pub fn pack_into_slice(&self, dst: &mut Vec<u8>)
        ensures
            final(dst)@ == self@.packed(),
            final(dst)@.len() == RECORD_LEN,
    {
        dst.clear();
        dst.push(if self.is_initialized { 1 } else { 0 });
        for i in 0..32
            invariant
                dst@ == seq![if self@.is_initialized { 1u8 } else { 0u8 }]
                    + self@.initializer_pubkey.subrange(0, i as int),
        {
            dst.push(self.initializer_pubkey[i]);
            proof {
                assert(self@.initializer_pubkey.subrange(0, i + 1)
                    =~= self@.initializer_pubkey.subrange(0, i as int)
                        + seq![self@.initializer_pubkey[i as int]]);
            }
        }
        proof {
            assert(self@.initializer_pubkey.subrange(0, 32) =~= self@.initializer_pubkey);
        }
        for i in 0..32
            invariant
                dst@ == seq![if self@.is_initialized { 1u8 } else { 0u8 }]
                    + self@.initializer_pubkey
                    + self@.temp_token_account_pubkey.subrange(0, i as int),
        {
            dst.push(self.temp_token_account_pubkey[i]);
            proof {
                assert(self@.temp_token_account_pubkey.subrange(0, i + 1)
                    =~= self@.temp_token_account_pubkey.subrange(0, i as int)
                        + seq![self@.temp_token_account_pubkey[i as int]]);
                assert(dst@ =~= seq![if self@.is_initialized { 1u8 } else { 0u8 }]
                    + self@.initializer_pubkey
                    + self@.temp_token_account_pubkey.subrange(0, i + 1));
            }
        }
        proof {
            assert(self@.temp_token_account_pubkey.subrange(0, 32)
                =~= self@.temp_token_account_pubkey);
        }
        for i in 0..32
            invariant
                dst@ == seq![if self@.is_initialized { 1u8 } else { 0u8 }]
                    + self@.initializer_pubkey
                    + self@.temp_token_account_pubkey
                    + self@.initializer_token_to_receive_account_pubkey.subrange(0, i as int),
        {
            dst.push(self.initializer_token_to_receive_account_pubkey[i]);
            proof {
                assert(self@.initializer_token_to_receive_account_pubkey.subrange(0, i + 1)
                    =~= self@.initializer_token_to_receive_account_pubkey.subrange(0, i as int)
                        + seq![self@.initializer_token_to_receive_account_pubkey[i as int]]);
                assert(dst@ =~= seq![if self@.is_initialized { 1u8 } else { 0u8 }]
                    + self@.initializer_pubkey
                    + self@.temp_token_account_pubkey
                    + self@.initializer_token_to_receive_account_pubkey.subrange(0, i + 1));
            }
        }
        proof {
            assert(self@.initializer_token_to_receive_account_pubkey.subrange(0, 32)
                =~= self@.initializer_token_to_receive_account_pubkey);
        }
        let mut amount_bytes = u64_to_le_bytes(self.expected_amount);
        dst.append(&mut amount_bytes);
        let mut unlock_bytes = u64_to_le_bytes(self.unlock_time);
        dst.append(&mut unlock_bytes);
        let mut time_out_bytes = u64_to_le_bytes(self.time_out);
        dst.append(&mut time_out_bytes);
        proof {
            assert(dst@ =~= self@.packed());
            lemma_auto_spec_u64_to_from_le_bytes();
        }
    }
}

} // verus!
