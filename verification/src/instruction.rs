//! The instruction codec: an opaque byte buffer decoded into one of the
//! typed instruction variants.
//!
//! The wire format is `[tag: u8][amount: u64 little-endian]`: tag `0`
//! selects [`EscrowInstruction::InitEscrow`], tag `1` selects
//! [`EscrowInstruction::Exchange`]. Any other tag, or a buffer too short to
//! hold the tag and the amount, is rejected. Decoding is a pure parse with
//! no side effects.

use vstd::prelude::*;
use vstd::bytes::{spec_u64_from_le_bytes, u64_from_le_bytes};
use vstd::slice::slice_subrange;
use crate::error::EscrowError;

verus! {

/// One decoded instruction, ready for dispatch.
#[derive(Clone, Copy, Debug, PartialEq, Eq, Structural)]
pub enum EscrowInstruction {
    /// Start a trade: populate an escrow record and hand authority over the
    /// deposit's holding account to the platform-derived address.
    ///
    /// Accounts expected, in order:
    ///
    /// 0. `[signer]` The account of the party initializing the escrow.
    /// 1. `[writable]` The holding account carrying the deposit; created
    ///    prior to this instruction and owned by the initializer until its
    ///    authority is reassigned here.
    /// 2. `[]` The initializer's account for the asset they will receive
    ///    should the trade go through; must be owned by the asset-ledger
    ///    program.
    /// 3. `[writable]` The record's storage account; must be exempt from
    ///    rent collection.
    /// 4. `[]` The asset-ledger program itself.
    InitEscrow {
        /// The amount of the counter-asset the initializer expects to
        /// receive; carried in the instruction data, not in an account.
        amount: u64,
    },
    /// Complete a trade previously recorded by [`EscrowInstruction::InitEscrow`].
    ///
    /// Accounts expected, in order:
    ///
    /// 0. `[signer]` The account of the party taking the trade.
    /// 1. `[writable]` The taker's account holding the asset they deliver.
    /// 2. `[writable]` The taker's account that receives the escrowed deposit.
    /// 3. `[writable]` The holding account carrying the deposit.
    /// 4. `[writable]` The initializer's main account.
    /// 5. `[writable]` The initializer's receiving account recorded at
    ///    initialization.
    /// 6. `[writable]` The record's storage account.
    /// 7. `[]` The asset-ledger program itself.
    Exchange {
        /// The amount the taker expects to find in the holding account;
        /// used only for the balance-equality check, never transferred.
        amount: u64,
    },
}

/// The instruction denoted by a byte buffer, if any: `None` means the
/// buffer is malformed and decoding fails.
pub open spec fn spec_unpack(s: Seq<u8>) -> Option<EscrowInstruction> {
    if s.len() < 9 {
        None
    } else if s[0] == 0 {
        Some(EscrowInstruction::InitEscrow { amount: spec_u64_from_le_bytes(s.subrange(1, 9)) })
    } else if s[0] == 1 {
        Some(EscrowInstruction::Exchange { amount: spec_u64_from_le_bytes(s.subrange(1, 9)) })
    } else {
        None
    }
}

impl EscrowInstruction {
    /// Decode a byte buffer into an [`EscrowInstruction`].
    ///
    /// The first byte is the discriminant tag and the following eight bytes
    /// are the amount, little-endian; exactly the malformed buffers (too
    /// short, or an unrecognized tag) are rejected, with
    /// [`EscrowError::InvalidInstruction`].
    pub fn unpack(input: &Vec<u8>) -> (r: Result<EscrowInstruction, EscrowError>)
        ensures
            r matches Ok(i) ==> spec_unpack(input@) == Some(i),
            r is Err ==> r == Err::<EscrowInstruction, EscrowError>(EscrowError::InvalidInstruction)
                && spec_unpack(input@) is None,
    {
        if input.len() == 0 {
            return Err(EscrowError::InvalidInstruction);
        }
        let tag = input[0];
        let rest = slice_subrange(input.as_slice(), 1, input.len());
        proof {
            assert(input@.len() >= 9 ==> rest@.subrange(0, 8) =~= input@.subrange(1, 9));
        }
        match tag {
            0 => Ok(EscrowInstruction::InitEscrow { amount: Self::unpack_amount(rest)? }),
            1 => Ok(EscrowInstruction::Exchange { amount: Self::unpack_amount(rest)? }),
            _ => Err(EscrowError::InvalidInstruction),
        }
    }

    /// Read the eight-byte little-endian amount from the payload that
    /// follows the tag; a payload shorter than eight bytes is malformed.
    pub fn unpack_amount(input: &[u8]) -> (r: Result<u64, EscrowError>)
        ensures
            r matches Ok(a) ==> input@.len() >= 8 && a == spec_u64_from_le_bytes(input@.subrange(0, 8)),
            r is Err ==> r == Err::<u64, EscrowError>(EscrowError::InvalidInstruction)
                && input@.len() < 8,
    {
        if input.len() < 8 {
            return Err(EscrowError::InvalidInstruction);
        }
        Ok(u64_from_le_bytes(slice_subrange(input, 0, 8)))
    }
}

} // verus!
