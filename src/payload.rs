use crate::address::Pubkey;
use crate::codec::{read_flag, read_key, read_u64, DataLen};
use crate::errors::{BondrError, ProgramFailure};
use vstd::bytes::*;
use vstd::prelude::*;

verus! {

/// The failure of a payload whose bytes do not have its layout.
pub open spec fn bad_payload() -> ProgramFailure {
    ProgramFailure::Custom(BondrError::InvalidInstructionData)
}

/// Payload of the escrow creation: the amount at 0, the bump at 8, the
/// stats bump at 9, the multisig flag at 10, and five bytes of padding.
#[derive(Clone, Copy, Debug, PartialEq)]
pub struct InitializeEscrow {
    pub amount: u64,
    pub bump: u8,
    pub stats_bump: u8,
    pub is_multisig: bool,
}

impl DataLen for InitializeEscrow {
    const LEN: usize = 16;
}

impl InitializeEscrow {
    pub fn from_bytes(data: &[u8]) -> (r: Result<InitializeEscrow, ProgramFailure>)
        ensures
            r is Ok <==> (data@.len() == 16 && data@[10] <= 1),
            r matches Ok(p) ==> {
                &&& p.amount == spec_u64_from_le_bytes(data@.subrange(0, 8))
                &&& p.bump == data@[8]
                &&& p.stats_bump == data@[9]
                &&& p.is_multisig == (data@[10] == 1)
            },
            r matches Err(f) ==> f == bad_payload(),
    {
        if data.len() != 16 {
            return Err(ProgramFailure::Custom(BondrError::InvalidInstructionData));
        }
        match read_flag(data, 10) {
            Some(is_multisig) => Ok(
                InitializeEscrow { amount: read_u64(data, 0), bump: data[8], stats_bump: data[9], is_multisig },
            ),
            None => Err(ProgramFailure::Custom(BondrError::InvalidInstructionData)),
        }
    }
}

/// Payload of the release: the discriminant of the escrow's address.
#[derive(Clone, Copy, Debug, PartialEq)]
pub struct ReleasePayment {
    pub reference_seed: u8,
}

impl DataLen for ReleasePayment {
    const LEN: usize = 1;
}

impl ReleasePayment {
    pub fn from_bytes(data: &[u8]) -> (r: Result<ReleasePayment, ProgramFailure>)
        ensures
            r is Ok <==> data@.len() == 1,
            r matches Ok(p) ==> p.reference_seed == data@[0],
            r matches Err(f) ==> f == bad_payload(),
    {
        if data.len() != 1 {
            return Err(ProgramFailure::Custom(BondrError::InvalidInstructionData));
        }
        Ok(ReleasePayment { reference_seed: data[0] })
    }
}

/// Payload of the claim: the reference seed of the escrow's signing
/// authority, then the bump of the receiver's stats.
#[derive(Clone, Copy, Debug, PartialEq)]
pub struct ClaimPayment {
    pub reference_seed: u8,
    pub receiver_stats_bump: u8,
}

impl DataLen for ClaimPayment {
    const LEN: usize = 2;
}

impl ClaimPayment {
    pub fn from_bytes(data: &[u8]) -> (r: Result<ClaimPayment, ProgramFailure>)
        ensures
            r is Ok <==> data@.len() == 2,
            r matches Ok(p) ==> p.reference_seed == data@[0] && p.receiver_stats_bump == data@[1],
            r matches Err(f) ==> f == bad_payload(),
    {
        if data.len() != 2 {
            return Err(ProgramFailure::Custom(BondrError::InvalidInstructionData));
        }
        Ok(ClaimPayment { reference_seed: data[0], receiver_stats_bump: data[1] })
    }
}

/// Payload of an approval: empty.
#[derive(Clone, Copy, Debug, PartialEq)]
pub struct ApproveMultisigRelease {}

impl DataLen for ApproveMultisigRelease {
    const LEN: usize = 0;
}

impl ApproveMultisigRelease {
    pub fn from_bytes(data: &[u8]) -> (r: Result<ApproveMultisigRelease, ProgramFailure>)
        ensures
            r is Ok <==> data@.len() == 0,
            r matches Err(f) ==> f == bad_payload(),
    {
        if data.len() != 0 {
            return Err(ProgramFailure::Custom(BondrError::InvalidInstructionData));
        }
        Ok(ApproveMultisigRelease {  })
    }
}

/// Payload of the multisig creation: five member keys at 0, the member
/// count at 160, the threshold at 161 and the bump at 162.
#[derive(Clone, Copy, Debug, PartialEq)]
pub struct InitializeMultisigClient {
    pub members: [Pubkey; 5],
    pub member_count: u8,
    pub threshold: u8,
    pub bump: u8,
}

impl DataLen for InitializeMultisigClient {
    const LEN: usize = 163;
}

impl InitializeMultisigClient {
    pub fn from_bytes(data: &[u8]) -> (r: Result<InitializeMultisigClient, ProgramFailure>)
        ensures
            r is Ok <==> data@.len() == 163,
            r matches Ok(p) ==> {
                &&& forall|i: int|
                    0 <= i < 5 ==> #[trigger] p.members@[i]@ == data@.subrange(32 * i, 32 * i + 32)
                &&& p.member_count == data@[160]
                &&& p.threshold == data@[161]
                &&& p.bump == data@[162]
            },
            r matches Err(f) ==> f == bad_payload(),
    {
        if data.len() != 163 {
            return Err(ProgramFailure::Custom(BondrError::InvalidInstructionData));
        }
        let mut members: [Pubkey; 5] = [[0u8; 32]; 5];
        let mut i: usize = 0;
        while i < 5
            invariant
                i <= 5,
                data@.len() == 163,
                members@.len() == 5,
                forall|j: int| 0 <= j < i ==> #[trigger] members@[j]@ == data@.subrange(32 * j, 32 * j + 32),
            decreases 5 - i,
        {
            members[i] = read_key(data, 32 * i);
            i = i + 1;
        }
        Ok(InitializeMultisigClient { members, member_count: data[160], threshold: data[161], bump: data[162] })
    }
}

/// Payload of the badge creation: its bump.
#[derive(Clone, Copy, Debug, PartialEq)]
pub struct InitializeFreelancerBadge {
    pub bump: u8,
}

impl DataLen for InitializeFreelancerBadge {
    const LEN: usize = 1;
}

impl InitializeFreelancerBadge {
    pub fn from_bytes(data: &[u8]) -> (r: Result<InitializeFreelancerBadge, ProgramFailure>)
        ensures
            r is Ok <==> data@.len() == 1,
            r matches Ok(p) ==> p.bump == data@[0],
            r matches Err(f) ==> f == bad_payload(),
    {
        if data.len() != 1 {
            return Err(ProgramFailure::Custom(BondrError::InvalidInstructionData));
        }
        Ok(InitializeFreelancerBadge { bump: data[0] })
    }
}

/// Payload of the badge update: the value of the completed escrow.
#[derive(Clone, Copy, Debug, PartialEq)]
pub struct UpdateFreelancerBadge {
    pub value: u64,
}

impl DataLen for UpdateFreelancerBadge {
    const LEN: usize = 8;
}

impl UpdateFreelancerBadge {
    pub fn from_bytes(data: &[u8]) -> (r: Result<UpdateFreelancerBadge, ProgramFailure>)
        ensures
            r is Ok <==> data@.len() == 8,
            r matches Ok(p) ==> p.value == spec_u64_from_le_bytes(data@),
            r matches Err(f) ==> f == bad_payload(),
    {
        if data.len() != 8 {
            return Err(ProgramFailure::Custom(BondrError::InvalidInstructionData));
        }
        let value = read_u64(data, 0);
        assert(data@.subrange(0, 8) =~= data@);
        Ok(UpdateFreelancerBadge { value })
    }
}

/// Payload of the reputation mint: empty.
#[derive(Clone, Copy, Debug, PartialEq)]
pub struct MintReputationNft {}

impl DataLen for MintReputationNft {
    const LEN: usize = 0;
}

impl MintReputationNft {
    pub fn from_bytes(data: &[u8]) -> (r: Result<MintReputationNft, ProgramFailure>)
        ensures
            r is Ok <==> data@.len() == 0,
            r matches Err(f) ==> f == bad_payload(),
    {
        if data.len() != 0 {
            return Err(ProgramFailure::Custom(BondrError::InvalidInstructionData));
        }
        Ok(MintReputationNft {  })
    }
}

} // verus!
