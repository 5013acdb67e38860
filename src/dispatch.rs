use crate::errors::ProgramFailure;
use vstd::prelude::*;

verus! {

/// The operations, by their selector byte.
#[derive(Clone, Copy, Debug, PartialEq, Eq, Structural)]
pub enum BondrInstruction {
    InitializeEscrow,
    InitializeFreelancerBadge,
    InitializeMultisigClient,
    ReleasePayment,
    ClaimPayment,
    ApproveMultisigRelease,
    UpdateFreelancerBadge,
    MintReputationNft,
}

/// The operation that a selector byte names, if any.
pub open spec fn spec_instruction(b: u8) -> Option<BondrInstruction> {
    if b == 0 {
        Some(BondrInstruction::InitializeEscrow)
    } else if b == 1 {
        Some(BondrInstruction::InitializeFreelancerBadge)
    } else if b == 2 {
        Some(BondrInstruction::InitializeMultisigClient)
    } else if b == 3 {
        Some(BondrInstruction::ReleasePayment)
    } else if b == 4 {
        Some(BondrInstruction::ClaimPayment)
    } else if b == 5 {
        Some(BondrInstruction::ApproveMultisigRelease)
    } else if b == 6 {
        Some(BondrInstruction::UpdateFreelancerBadge)
    } else if b == 7 {
        Some(BondrInstruction::MintReputationNft)
    } else {
        None
    }
}

impl BondrInstruction {
    /// The operation named by a selector byte.
    pub fn try_from(value: &u8) -> (r: Result<BondrInstruction, ProgramFailure>)
        ensures
            match spec_instruction(*value) {
                Some(i) => r == Ok::<BondrInstruction, ProgramFailure>(i),
                None => r == Err::<BondrInstruction, ProgramFailure>(
                    ProgramFailure::InvalidInstructionData,
                ),
            },
    {
        match *value {
            0 => Ok(BondrInstruction::InitializeEscrow),
            1 => Ok(BondrInstruction::InitializeFreelancerBadge),
            2 => Ok(BondrInstruction::InitializeMultisigClient),
            3 => Ok(BondrInstruction::ReleasePayment),
            4 => Ok(BondrInstruction::ClaimPayment),
            5 => Ok(BondrInstruction::ApproveMultisigRelease),
            6 => Ok(BondrInstruction::UpdateFreelancerBadge),
            7 => Ok(BondrInstruction::MintReputationNft),
            _ => Err(ProgramFailure::InvalidInstructionData),
        }
    }

    /// The operation named by the leading byte of the call data; the rest
    /// of the data, from index 1, is its payload.
    pub fn from_instruction_data(data: &[u8]) -> (r: Result<BondrInstruction, ProgramFailure>)
        ensures
            data@.len() == 0 ==> r == Err::<BondrInstruction, ProgramFailure>(
                ProgramFailure::InvalidInstructionData,
            ),
            data@.len() > 0 ==> match spec_instruction(data@[0]) {
                Some(i) => r == Ok::<BondrInstruction, ProgramFailure>(i),
                None => r == Err::<BondrInstruction, ProgramFailure>(
                    ProgramFailure::InvalidInstructionData,
                ),
            },
    {
        if data.len() == 0 {
            return Err(ProgramFailure::InvalidInstructionData);
        }
        BondrInstruction::try_from(&data[0])
    }
}

} // verus!
