//! The transfer check, and the decoding of the instruction that asks for it.

use crate::gatekeeper::accounts::TransferHook;
use crate::gatekeeper::errors::GatekeeperError;
use anchor_lang::prelude::ProgramError;
use spl_transfer_hook_interface::instruction::TransferHookInstruction;
use vstd::prelude::*;

verus! {

/// Why a failed decoding failed. Nothing of it is read.
#[verifier::external_type_specification]
#[verifier::external_body]
pub struct ExProgramError(ProgramError);

/// An instruction of the transfer-hook interface, as far as the gatekeeper
/// tells them apart.
#[derive(Clone, Copy, Debug, PartialEq, Eq, Structural)]
pub enum HookInstruction {
    /// Check a transfer of `amount`.
    Execute { amount: u64 },
    /// Write the list of extra accounts.
    InitializeExtraAccountMetaList,
    /// Replace the list of extra accounts.
    UpdateExtraAccountMetaList,
}

/// The first eight bytes of an `Execute` instruction.
pub open spec fn execute_discriminator() -> Seq<u8> {
    seq![105u8, 37u8, 101u8, 197u8, 75u8, 251u8, 102u8, 26u8]
}

/// Whether `data` is an `Execute` instruction: the discriminator, then at
/// least the eight bytes of an amount.
pub open spec fn is_execute(data: Seq<u8>) -> bool {
    data.len() >= 16 && data.subrange(0, 8) == execute_discriminator()
}

/// The amount that an `Execute` instruction carries, in little-endian bytes
/// after the discriminator.
pub open spec fn execute_amount(data: Seq<u8>) -> u64 {
    vstd::bytes::spec_u64_from_le_bytes(data.subrange(8, 16))
}

/// The amount to check, where a decoding gave an `Execute` instruction.
pub open spec fn checked_amount(instruction: Option<HookInstruction>) -> Option<u64> {
    match instruction {
        Some(HookInstruction::Execute { amount }) => Some(amount),
        _ => None,
    }
}

/// What a decoding gave, where it gave an instruction.
pub open spec fn decoded(r: Result<HookInstruction, ProgramError>) -> Option<HookInstruction> {
    match r {
        Ok(instruction) => Some(instruction),
        Err(_) => None,
    }
}

/// Decides `is_execute`.
pub fn is_execute_data(data: &[u8]) -> (r: bool)
    ensures
        r == is_execute(data@),
{
    if data.len() < 16 {
        return false;
    }
    let begins = data[0] == 105 && data[1] == 37 && data[2] == 101 && data[3] == 197 && data[4]
        == 75 && data[5] == 251 && data[6] == 102 && data[7] == 26;
    proof {
        let first = data@.subrange(0, 8);
        assert(forall|i: int| 0 <= i < 8 ==> first[i] == data@[i]);
        let wanted = execute_discriminator();
        assert(wanted[0] == 105 && wanted[1] == 37 && wanted[2] == 101 && wanted[3] == 197
            && wanted[4] == 75 && wanted[5] == 251 && wanted[6] == 102 && wanted[7] == 26);
        if begins {
            assert(first =~= wanted);
        }
    }
    begins
}

/// Decodes an `Execute` instruction of the transfer-hook interface.
///
/// Trusted: calls `TransferHookInstruction::unpack`. For data that begins
/// with the discriminator of `Execute` and goes on for at least eight
/// bytes, it yields `Execute` with the amount read from those eight bytes,
/// little-endian; bytes after them are ignored. Other data is not
/// admitted: on a list instruction whose stated length exceeds its entries
/// the decoder does not return.
#[verifier::external_body]
pub(crate) fn unpack_instruction(data: &[u8]) -> (r: Result<HookInstruction, ProgramError>)
    requires
        is_execute(data@),
    ensures
        decoded(r) == Some((HookInstruction::Execute { amount: execute_amount(data@) })),
{
    match TransferHookInstruction::unpack(data) {
        Ok(TransferHookInstruction::Execute { amount }) => Ok(HookInstruction::Execute { amount }),
        Ok(TransferHookInstruction::InitializeExtraAccountMetaList { .. }) => Ok(
            HookInstruction::InitializeExtraAccountMetaList,
        ),
        Ok(TransferHookInstruction::UpdateExtraAccountMetaList { .. }) => Ok(
            HookInstruction::UpdateExtraAccountMetaList,
        ),
        Err(e) => Err(e),
    }
}

/// Why the gatekeeper stops the transfer, if it does: first where the
/// signer is not the owner of the source account, which is no blacklist
/// denial; then where the source's owner is blacklisted; then where the
/// destination's owner is.
pub open spec fn transfer_hook_error(ctx: TransferHook) -> Option<GatekeeperError> {
    if ctx.owner != ctx.source_token.owner {
        Some(GatekeeperError::Unauthorized)
    } else if ctx.source_blacklist_entry is Some {
        Some(GatekeeperError::AddressBlacklisted)
    } else if ctx.destination_blacklist_entry is Some {
        Some(GatekeeperError::AddressBlacklisted)
    } else {
        None
    }
}

/// Checks one transfer. It is approved, or stopped whole; the amount plays
/// no part, nor does anything but the accounts handed in.
pub fn transfer_hook(ctx: &TransferHook, _amount: u64) -> (r: Result<(), GatekeeperError>)
    ensures
        r == match transfer_hook_error(*ctx) {
            Some(e) => Err::<(), GatekeeperError>(e),
            None => Ok::<(), GatekeeperError>(()),
        },
{
    if ctx.owner != ctx.source_token.owner {
        return Err(GatekeeperError::Unauthorized);
    }
    if ctx.source_blacklist_entry.is_some() {
        return Err(GatekeeperError::AddressBlacklisted);
    }
    if ctx.destination_blacklist_entry.is_some() {
        return Err(GatekeeperError::AddressBlacklisted);
    }
    Ok(())
}

/// What the gatekeeper does with a decoded instruction, or with data that
/// did not decode: a transfer check for `Execute`, a refusal for anything
/// else.
pub fn dispatch(ctx: &TransferHook, instruction: Option<HookInstruction>) -> (r: Result<
    (),
    GatekeeperError,
>)
    ensures
        r == match checked_amount(instruction) {
            Some(_) => match transfer_hook_error(*ctx) {
                Some(e) => Err::<(), GatekeeperError>(e),
                None => Ok::<(), GatekeeperError>(()),
            },
            None => Err::<(), GatekeeperError>(GatekeeperError::InvalidInstructionData),
        },
{
    match instruction {
        Some(HookInstruction::Execute { amount }) => transfer_hook(ctx, amount),
        Some(HookInstruction::InitializeExtraAccountMetaList) => Err(
            GatekeeperError::InvalidInstructionData,
        ),
        Some(HookInstruction::UpdateExtraAccountMetaList) => Err(
            GatekeeperError::InvalidInstructionData,
        ),
        None => Err(GatekeeperError::InvalidInstructionData),
    }
}

/// Handles an instruction that arrives in the transfer-hook interface's own
/// encoding: an `Execute` instruction is decoded and is a transfer check,
/// anything else is refused as invalid instruction data without being
/// decoded.
pub fn fallback(ctx: &TransferHook, data: &[u8]) -> (r: Result<(), GatekeeperError>)
    ensures
        r == if is_execute(data@) {
            match transfer_hook_error(*ctx) {
                Some(e) => Err::<(), GatekeeperError>(e),
                None => Ok::<(), GatekeeperError>(()),
            }
        } else {
            Err::<(), GatekeeperError>(GatekeeperError::InvalidInstructionData)
        },
{
    if !is_execute_data(data) {
        return Err(GatekeeperError::InvalidInstructionData);
    }
    let instruction = match unpack_instruction(data) {
        Ok(instruction) => Some(instruction),
        Err(_) => None,
    };
    dispatch(ctx, instruction)
}

} // verus!
