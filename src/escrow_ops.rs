use crate::address::{escrow_address, keys_equal, spec_escrow_address, Pubkey};
use crate::codec::zeros;
use crate::errors::{BondrError, ProgramFailure};
use crate::payload::{bad_payload, InitializeEscrow, ReleasePayment};
use crate::state::Escrow;
use vstd::bytes::*;
use vstd::prelude::*;

verus! {

/// The key that stands for "none": all zeros.
pub open spec fn is_default_key(k: Pubkey) -> bool {
    k@ == zeros(32)
}

pub fn default_key() -> (r: Pubkey)
    ensures
        is_default_key(r),
{
    let r: Pubkey = [0u8; 32];
    assert(r@ =~= zeros(32));
    r
}

/// A freshly opened escrow: not released, with the given parties, amount,
/// bump and multisig binding.
pub open spec fn escrow_opened(
    e: Escrow,
    sender: Pubkey,
    receiver: Pubkey,
    amount: u64,
    bump: u8,
    client_multisig: Option<Pubkey>,
) -> bool {
    &&& e.sender == sender
    &&& e.receiver == receiver
    &&& e.amount == amount
    &&& !e.is_released
    &&& e.bump == bump
    &&& match client_multisig {
        Some(ms) => e.has_multisig && e.client_multisig == ms,
        None => !e.has_multisig && is_default_key(e.client_multisig),
    }
}

impl Escrow {
    /// Checks that `pda` is the canonical escrow address of `sender` and
    /// `receiver` under the discriminant `bump`.
    pub fn validate_pda(
        bump: u8,
        pda: &Pubkey,
        sender: &Pubkey,
        receiver: &Pubkey,
        program_id: &Pubkey,
    ) -> (r: Result<(), ProgramFailure>)
        ensures
            r is Ok <==> pda@ == spec_escrow_address(sender@, receiver@, bump, program_id@),
            r matches Err(f) ==> f == ProgramFailure::Custom(BondrError::PdaMismatch),
    {
        let derived = escrow_address(sender, receiver, bump, program_id);
        if !keys_equal(&derived, pda) {
            return Err(ProgramFailure::Custom(BondrError::PdaMismatch));
        }
        Ok(())
    }

    /// The escrow record that the creation writes.
    pub fn initialize(
        sender: Pubkey,
        receiver: Pubkey,
        amount: u64,
        bump: u8,
        client_multisig: Option<Pubkey>,
    ) -> (r: Escrow)
        ensures
            escrow_opened(r, sender, receiver, amount, bump, client_multisig),
    {
        match client_multisig {
            Some(ms) => Escrow {
                sender,
                receiver,
                amount,
                is_released: false,
                bump,
                client_multisig: ms,
                has_multisig: true,
            },
            None => Escrow {
                sender,
                receiver,
                amount,
                is_released: false,
                bump,
                client_multisig: default_key(),
                has_multisig: false,
            },
        }
    }
}

/// The verdict of an escrow creation: the first check that fails, in the
/// order signature, emptiness, payload, amount, distinct parties, address.
pub open spec fn init_escrow_verdict(
    sender: Pubkey,
    sender_is_signer: bool,
    receiver: Pubkey,
    escrow_key: Pubkey,
    escrow_is_empty: bool,
    data: Seq<u8>,
    program_id: Pubkey,
) -> Result<(), ProgramFailure> {
    if !sender_is_signer {
        Err(ProgramFailure::MissingRequiredSignature)
    } else if !escrow_is_empty {
        Err(ProgramFailure::AccountAlreadyInitialized)
    } else if !(data.len() == 16 && data[10] <= 1) {
        Err(bad_payload())
    } else if spec_u64_from_le_bytes(data.subrange(0, 8)) == 0 {
        Err(ProgramFailure::Custom(BondrError::InvalidAmountZero))
    } else if sender == receiver {
        Err(ProgramFailure::Custom(BondrError::SelfTransfer))
    } else if escrow_key@ != spec_escrow_address(sender@, receiver@, data[8], program_id@) {
        Err(ProgramFailure::Custom(BondrError::PdaMismatch))
    } else {
        Ok(())
    }
}

/// Decides the creation of an escrow at `escrow_key` from `sender` to
/// `receiver`, and returns the record to store there once the storage is
/// allocated. The payload is an `InitializeEscrow`; when its multisig flag
/// is set, the escrow is bound to `client_multisig`.
pub fn init_escrow(
    sender: &Pubkey,
    sender_is_signer: bool,
    receiver: &Pubkey,
    escrow_key: &Pubkey,
    escrow_is_empty: bool,
    client_multisig: &Pubkey,
    data: &[u8],
    program_id: &Pubkey,
) -> (r: Result<Escrow, ProgramFailure>)
    ensures
        r is Ok <==> init_escrow_verdict(
            *sender,
            sender_is_signer,
            *receiver,
            *escrow_key,
            escrow_is_empty,
            data@,
            *program_id,
        ) is Ok,
        r matches Err(f) ==> init_escrow_verdict(
            *sender,
            sender_is_signer,
            *receiver,
            *escrow_key,
            escrow_is_empty,
            data@,
            *program_id,
        ) == Err::<(), ProgramFailure>(f),
        r matches Ok(e) ==> escrow_opened(
            e,
            *sender,
            *receiver,
            spec_u64_from_le_bytes(data@.subrange(0, 8)),
            data@[8],
            if data@[10] == 1 {
                Some(*client_multisig)
            } else {
                None
            },
        ),
{
    if !sender_is_signer {
        return Err(ProgramFailure::MissingRequiredSignature);
    }
    if !escrow_is_empty {
        return Err(ProgramFailure::AccountAlreadyInitialized);
    }
    let ix = InitializeEscrow::from_bytes(data)?;
    if ix.amount == 0 {
        return Err(ProgramFailure::Custom(BondrError::InvalidAmountZero));
    }
    if keys_equal(sender, receiver) {
        return Err(ProgramFailure::Custom(BondrError::SelfTransfer));
    }
    Escrow::validate_pda(ix.bump, escrow_key, sender, receiver, program_id)?;
    let multisig = if ix.is_multisig {
        Some(*client_multisig)
    } else {
        None
    };
    Ok(Escrow::initialize(*sender, *receiver, ix.amount, ix.bump, multisig))
}

/// The verdict of a release: the first check that fails, in the order
/// payload, signature, address, sender, multisig binding, state. The
/// payload's byte is the discriminant under which the escrow's address is
/// recomputed. An escrow bound to a multisig is released by its members'
/// approvals only, never by this operation.
pub open spec fn release_verdict(
    client: Pubkey,
    client_is_signer: bool,
    escrow_key: Pubkey,
    escrow: Escrow,
    data: Seq<u8>,
    program_id: Pubkey,
) -> Result<(), ProgramFailure> {
    if data.len() != 1 {
        Err(bad_payload())
    } else if !client_is_signer {
        Err(ProgramFailure::MissingRequiredSignature)
    } else if escrow_key@ != spec_escrow_address(escrow.sender@, escrow.receiver@, data[0], program_id@) {
        Err(ProgramFailure::Custom(BondrError::PdaMismatch))
    } else if escrow.sender != client {
        Err(ProgramFailure::Custom(BondrError::UnauthorizedSender))
    } else if escrow.has_multisig {
        Err(ProgramFailure::Custom(BondrError::MultisigBusy))
    } else if escrow.is_released {
        Err(ProgramFailure::Custom(BondrError::AlreadyReleased))
    } else {
        Ok(())
    }
}

/// Releases the escrow stored at `escrow_key`, which is bound to no
/// multisig, on the word of its sender. The payload is a `ReleasePayment`.
pub fn release_payment(
    client: &Pubkey,
    client_is_signer: bool,
    escrow_key: &Pubkey,
    escrow: &mut Escrow,
    data: &[u8],
    program_id: &Pubkey,
) -> (r: Result<(), ProgramFailure>)
    ensures
        r == release_verdict(*client, client_is_signer, *escrow_key, *old(escrow), data@, *program_id),
        r is Ok ==> *final(escrow) == (Escrow { is_released: true, ..*old(escrow) }),
        r is Err ==> *final(escrow) == *old(escrow),
{
    let ix = ReleasePayment::from_bytes(data)?;
    if !client_is_signer {
        return Err(ProgramFailure::MissingRequiredSignature);
    }
    let expected = escrow_address(&escrow.sender, &escrow.receiver, ix.reference_seed, program_id);
    if !keys_equal(&expected, escrow_key) {
        return Err(ProgramFailure::Custom(BondrError::PdaMismatch));
    }
    if !keys_equal(&escrow.sender, client) {
        return Err(ProgramFailure::Custom(BondrError::UnauthorizedSender));
    }
    if escrow.has_multisig {
        return Err(ProgramFailure::Custom(BondrError::MultisigBusy));
    }
    if escrow.is_released {
        return Err(ProgramFailure::Custom(BondrError::AlreadyReleased));
    }
    escrow.is_released = true;
    Ok(())
}

} // verus!
