use crate::address::{badge_address, keys_equal, spec_badge_address, Pubkey};
use crate::errors::{BondrError, ProgramFailure};
use crate::payload::{bad_payload, InitializeFreelancerBadge, UpdateFreelancerBadge};
use crate::state::{FreelancerBadge, ReputationTier};
use vstd::bytes::*;
use vstd::prelude::*;

verus! {

/// The verdict of a badge creation: the first check that fails, in the
/// order signature, emptiness, payload, address.
pub open spec fn init_badge_verdict(
    freelancer: Pubkey,
    freelancer_is_signer: bool,
    badge_key: Pubkey,
    badge_is_empty: bool,
    data: Seq<u8>,
    program_id: Pubkey,
) -> Result<(), ProgramFailure> {
    if !freelancer_is_signer {
        Err(ProgramFailure::MissingRequiredSignature)
    } else if !badge_is_empty {
        Err(ProgramFailure::AccountAlreadyInitialized)
    } else if data.len() != 1 {
        Err(bad_payload())
    } else if badge_key@ != spec_badge_address(freelancer@, data[0], program_id@) {
        Err(ProgramFailure::Custom(BondrError::PdaMismatch))
    } else {
        Ok(())
    }
}

/// Decides the creation of `freelancer`'s badge at `badge_key`, and returns
/// the record to store there once the storage is allocated: unranked, with
/// nothing completed. The payload is an `InitializeFreelancerBadge`.
pub fn init_freelancer_badge(
    freelancer: &Pubkey,
    freelancer_is_signer: bool,
    badge_key: &Pubkey,
    badge_is_empty: bool,
    data: &[u8],
    program_id: &Pubkey,
) -> (r: Result<FreelancerBadge, ProgramFailure>)
    ensures
        r is Ok <==> init_badge_verdict(
            *freelancer,
            freelancer_is_signer,
            *badge_key,
            badge_is_empty,
            data@,
            *program_id,
        ) is Ok,
        r matches Err(f) ==> init_badge_verdict(
            *freelancer,
            freelancer_is_signer,
            *badge_key,
            badge_is_empty,
            data@,
            *program_id,
        ) == Err::<(), ProgramFailure>(f),
        r matches Ok(b) ==> b == (FreelancerBadge {
            tier: ReputationTier::Unranked,
            completed_escrows: 0,
            total_value_completed: 0,
            freelancer: *freelancer,
            bump: data@[0],
        }),
{
    if !freelancer_is_signer {
        return Err(ProgramFailure::MissingRequiredSignature);
    }
    if !badge_is_empty {
        return Err(ProgramFailure::AccountAlreadyInitialized);
    }
    let ix = InitializeFreelancerBadge::from_bytes(data)?;
    let derived = badge_address(freelancer, ix.bump, program_id);
    if !keys_equal(&derived, badge_key) {
        return Err(ProgramFailure::Custom(BondrError::PdaMismatch));
    }
    Ok(
        FreelancerBadge {
            tier: ReputationTier::Unranked,
            completed_escrows: 0,
            total_value_completed: 0,
            freelancer: *freelancer,
            bump: ix.bump,
        },
    )
}

/// The verdict of a badge update: the first check that fails, in the order
/// signature, payload, owner, value.
pub open spec fn update_badge_verdict(
    freelancer: Pubkey,
    freelancer_is_signer: bool,
    badge: FreelancerBadge,
    data: Seq<u8>,
) -> Result<(), ProgramFailure> {
    if !freelancer_is_signer {
        Err(ProgramFailure::MissingRequiredSignature)
    } else if data.len() != 8 {
        Err(bad_payload())
    } else if badge.freelancer != freelancer {
        Err(ProgramFailure::Custom(BondrError::UnauthorizedSender))
    } else if spec_u64_from_le_bytes(data) == 0 {
        Err(ProgramFailure::Custom(BondrError::InvalidAmountZero))
    } else {
        Ok(())
    }
}

/// Counts one more completed escrow of the given value on the badge of its
/// owner `freelancer`, both counters saturating. The payload is an
/// `UpdateFreelancerBadge`.
pub fn update_freelancer_badge(
    freelancer: &Pubkey,
    freelancer_is_signer: bool,
    badge: &mut FreelancerBadge,
    data: &[u8],
) -> (r: Result<(), ProgramFailure>)
    ensures
        r == update_badge_verdict(*freelancer, freelancer_is_signer, *old(badge), data@),
        r is Ok ==> *final(badge) == (FreelancerBadge {
            completed_escrows: old(badge).completed_escrows.saturating_add(1),
            total_value_completed: old(badge).total_value_completed.saturating_add(
                spec_u64_from_le_bytes(data@),
            ),
            ..*old(badge)
        }),
        r is Err ==> *final(badge) == *old(badge),
{
    if !freelancer_is_signer {
        return Err(ProgramFailure::MissingRequiredSignature);
    }
    let ix = UpdateFreelancerBadge::from_bytes(data)?;
    if !keys_equal(&badge.freelancer, freelancer) {
        return Err(ProgramFailure::Custom(BondrError::UnauthorizedSender));
    }
    if ix.value == 0 {
        return Err(ProgramFailure::Custom(BondrError::InvalidAmountZero));
    }
    badge.completed_escrows = badge.completed_escrows.saturating_add(1);
    badge.total_value_completed = badge.total_value_completed.saturating_add(ix.value);
    Ok(())
}

/// The tier earned by a number of completed escrows: none below 3,
/// Verified from 3, Professional from 10, Elite from 25.
pub open spec fn spec_tier_for(completed: u32) -> Option<ReputationTier> {
    if completed < 3 {
        None
    } else if completed < 10 {
        Some(ReputationTier::Verified)
    } else if completed < 25 {
        Some(ReputationTier::Professional)
    } else {
        Some(ReputationTier::Elite)
    }
}

pub fn tier_for(completed: u32) -> (r: Option<ReputationTier>)
    ensures
        r == spec_tier_for(completed),
{
    if completed < 3 {
        None
    } else if completed < 10 {
        Some(ReputationTier::Verified)
    } else if completed < 25 {
        Some(ReputationTier::Professional)
    } else {
        Some(ReputationTier::Elite)
    }
}

/// The verdict of a reputation mint: the first check that fails, in the
/// order signature, owner, tier earned, tier already held.
pub open spec fn mint_verdict(
    freelancer: Pubkey,
    freelancer_is_signer: bool,
    badge: FreelancerBadge,
) -> Result<ReputationTier, ProgramFailure> {
    if !freelancer_is_signer {
        Err(ProgramFailure::MissingRequiredSignature)
    } else if badge.freelancer != freelancer {
        Err(ProgramFailure::Custom(BondrError::UnauthorizedSender))
    } else {
        match spec_tier_for(badge.completed_escrows) {
            None => Err(ProgramFailure::Custom(BondrError::InsufficientEscrows)),
            Some(t) => if badge.tier.spec_rank() >= t.spec_rank() {
                Err(ProgramFailure::Custom(BondrError::NFTAlreadyMinted))
            } else {
                Ok(t)
            },
        }
    }
}

/// Decides the mint of the reputation asset that `freelancer`'s badge has
/// earned, moves the badge to that tier, and returns the tier whose asset
/// is to be issued.
pub fn mint_rep_nft(freelancer: &Pubkey, freelancer_is_signer: bool, badge: &mut FreelancerBadge) -> (r:
    Result<ReputationTier, ProgramFailure>)
    ensures
        r == mint_verdict(*freelancer, freelancer_is_signer, *old(badge)),
        r matches Ok(t) ==> *final(badge) == (FreelancerBadge { tier: t, ..*old(badge) }),
        r is Err ==> *final(badge) == *old(badge),
{
    if !freelancer_is_signer {
        return Err(ProgramFailure::MissingRequiredSignature);
    }
    if !keys_equal(&badge.freelancer, freelancer) {
        return Err(ProgramFailure::Custom(BondrError::UnauthorizedSender));
    }
    let tier = match tier_for(badge.completed_escrows) {
        Some(t) => t,
        None => {
            return Err(ProgramFailure::Custom(BondrError::InsufficientEscrows));
        },
    };
    if badge.tier.rank() >= tier.rank() {
        return Err(ProgramFailure::Custom(BondrError::NFTAlreadyMinted));
    }
    badge.tier = tier;
    Ok(tier)
}

} // verus!
