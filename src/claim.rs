use crate::address::{keys_equal, Pubkey};
use crate::codec::zeros;
use crate::errors::{BondrError, ProgramFailure};
use crate::escrow_ops::{default_key, is_default_key};
use crate::multisig_ops::{approvals_met, count_approvals};
use crate::payload::{bad_payload, ClaimPayment};
use crate::state::{ClientMultisig, Escrow, UserStats};
use vstd::prelude::*;

verus! {

/// The transfer that a claim authorizes: `amount` out of the escrow's funds
/// to the receiver, signed by the escrow's authority, whose seeds are the
/// escrow's parties, the reference seed and the escrow's bump.
#[derive(Clone, Copy, Debug, PartialEq)]
pub struct TokenTransfer {
    pub amount: u64,
    pub sender: Pubkey,
    pub receiver: Pubkey,
    pub reference_seed: u8,
    pub bump: u8,
}

/// The verdict of a claim: the first check that fails, in the order
/// signature, payload, receiver, release, then, for an escrow bound to a
/// multisig, that the multisig handed over is the bound one and holds a
/// record, its pending escrow and its threshold.
pub open spec fn claim_verdict(
    freelancer: Pubkey,
    freelancer_is_signer: bool,
    escrow_key: Pubkey,
    escrow: Escrow,
    multisig_key: Pubkey,
    multisig: Option<ClientMultisig>,
    data: Seq<u8>,
) -> Result<(), ProgramFailure> {
    if !freelancer_is_signer {
        Err(ProgramFailure::MissingRequiredSignature)
    } else if data.len() != 2 {
        Err(bad_payload())
    } else if escrow.receiver != freelancer {
        Err(ProgramFailure::Custom(BondrError::UnauthorizedReceiver))
    } else if !escrow.is_released {
        Err(ProgramFailure::Custom(BondrError::NotReleased))
    } else if !escrow.has_multisig {
        Ok(())
    } else if multisig_key != escrow.client_multisig {
        Err(ProgramFailure::Custom(BondrError::PdaMismatch))
    } else {
        match multisig {
            Some(m) => if m.pending_escrow != escrow_key {
                Err(ProgramFailure::Custom(BondrError::MultisigPendingEscrowMismatch))
            } else if approvals_met(m) < m.threshold {
                Err(ProgramFailure::Custom(BondrError::MultisigThresholdNotMet))
            } else {
                Ok(())
            },
            None => Err(ProgramFailure::Custom(BondrError::MultisigPendingEscrowMismatch)),
        }
    }
}

/// The multisig after its cycle is closed: no pending escrow, no approvals,
/// the configuration kept.
pub open spec fn multisig_reset(m: ClientMultisig, after: ClientMultisig) -> bool {
    &&& is_default_key(after.pending_escrow)
    &&& after.approvals@ == zeros(5)
    &&& after.members == m.members
    &&& after.member_count == m.member_count
    &&& after.threshold == m.threshold
    &&& after.bump == m.bump
}

/// The receiver's stats after one more completed escrow: created with a
/// count of one where the record is still blank, else counted up, saturating.
pub open spec fn stats_upserted(s: UserStats, receiver: Pubkey, bump: u8, after: UserStats) -> bool {
    if is_default_key(s.user) {
        after == (UserStats { user: receiver, completed_escrows: 1, bump })
    } else {
        after == (UserStats { completed_escrows: s.completed_escrows.saturating_add(1), ..s })
    }
}

/// Settles the released escrow stored at `escrow_key` for its receiver
/// `freelancer`. `multisig` is the record stored at `multisig_key`, or
/// `None` when that account is empty; it is consulted only when the escrow
/// is bound to a multisig, and must then be the bound one. `stats` is the
/// receiver's stats record. The payload is a `ClaimPayment`. On success the
/// bound multisig's cycle is closed, the stats are counted up, and the
/// transfer to perform is returned; the escrow record is then to be closed.
pub fn claim_payment(
    freelancer: &Pubkey,
    freelancer_is_signer: bool,
    escrow_key: &Pubkey,
    escrow: &Escrow,
    multisig_key: &Pubkey,
    multisig: &mut Option<ClientMultisig>,
    stats: &mut UserStats,
    data: &[u8],
) -> (r: Result<TokenTransfer, ProgramFailure>)
    requires
        *old(multisig) matches Some(m) ==> m.wf(),
    ensures
        r is Ok <==> claim_verdict(
            *freelancer,
            freelancer_is_signer,
            *escrow_key,
            *escrow,
            *multisig_key,
            *old(multisig),
            data@,
        ) is Ok,
        r matches Err(f) ==> claim_verdict(
            *freelancer,
            freelancer_is_signer,
            *escrow_key,
            *escrow,
            *multisig_key,
            *old(multisig),
            data@,
        ) == Err::<(), ProgramFailure>(f),
        r matches Err(_) ==> *final(multisig) == *old(multisig) && *final(stats) == *old(stats),
        r matches Ok(t) ==> {
            &&& t == (TokenTransfer {
                amount: escrow.amount,
                sender: escrow.sender,
                receiver: escrow.receiver,
                reference_seed: data@[0],
                bump: escrow.bump,
            })
            &&& if escrow.has_multisig {
                &&& *old(multisig) matches Some(m)
                &&& *final(multisig) matches Some(after)
                &&& multisig_reset(m, after)
            } else {
                *final(multisig) == *old(multisig)
            }
            &&& stats_upserted(*old(stats), *freelancer, data@[1], *final(stats))
        },
{
    if !freelancer_is_signer {
        return Err(ProgramFailure::MissingRequiredSignature);
    }
    let ix = ClaimPayment::from_bytes(data)?;
    if !keys_equal(&escrow.receiver, freelancer) {
        return Err(ProgramFailure::Custom(BondrError::UnauthorizedReceiver));
    }
    if !escrow.is_released {
        return Err(ProgramFailure::Custom(BondrError::NotReleased));
    }
    if escrow.has_multisig {
        if !keys_equal(multisig_key, &escrow.client_multisig) {
            return Err(ProgramFailure::Custom(BondrError::PdaMismatch));
        }
        let m = match *multisig {
            Some(m) => m,
            None => {
                return Err(ProgramFailure::Custom(BondrError::MultisigPendingEscrowMismatch));
            },
        };
        if !keys_equal(&m.pending_escrow, escrow_key) {
            return Err(ProgramFailure::Custom(BondrError::MultisigPendingEscrowMismatch));
        }
        let met = count_approvals(&m);
        if met < m.threshold {
            return Err(ProgramFailure::Custom(BondrError::MultisigThresholdNotMet));
        }
        let cleared: [u8; 5] = [0u8; 5];
        assert(cleared@ =~= zeros(5));
        *multisig = Some(ClientMultisig { pending_escrow: default_key(), approvals: cleared, ..m });
    }
    let transfer = TokenTransfer {
        amount: escrow.amount,
        sender: escrow.sender,
        receiver: escrow.receiver,
        reference_seed: ix.reference_seed,
        bump: escrow.bump,
    };
    if keys_equal(&stats.user, &default_key()) {
        *stats = UserStats { user: *freelancer, completed_escrows: 1, bump: ix.receiver_stats_bump };
    } else {
        stats.completed_escrows = stats.completed_escrows.saturating_add(1);
    }
    Ok(transfer)
}

} // verus!
