use vstd::prelude::*;

verus! {

/// The program's own failure codes.
#[derive(Clone, Copy, Debug, PartialEq, Eq, Structural)]
pub enum BondrError {
    InvalidInstructionData,
    PdaMismatch,
    InvalidOwner,
    InvalidAmount,
    InvalidAmountZero,
    SelfTransfer,
    InvalidReferenceSeed,
    AmountTooLarge,
    InsufficientBalance,
    MissingTokenAccounts,
    MissingTokenProgram,
    UnauthorizedSender,
    AlreadyReleased,
    NotReleased,
    InsufficientEscrows,
    NFTAlreadyMinted,
    InvalidMplKey,
    InvalidMultisigConfig,
    DuplicateMember,
    MultisigBusy,
    NotMultisigMember,
    AlreadyApproved,
    MultisigPendingEscrowMismatch,
    MultisigThresholdNotMet,
    UnauthorizedReceiver,
}

impl BondrError {
    /// The numeric code under which the host reports this error: its
    /// position in the declaration.
    pub open spec fn spec_code(self) -> u32 {
        match self {
            BondrError::InvalidInstructionData => 0,
            BondrError::PdaMismatch => 1,
            BondrError::InvalidOwner => 2,
            BondrError::InvalidAmount => 3,
            BondrError::InvalidAmountZero => 4,
            BondrError::SelfTransfer => 5,
            BondrError::InvalidReferenceSeed => 6,
            BondrError::AmountTooLarge => 7,
            BondrError::InsufficientBalance => 8,
            BondrError::MissingTokenAccounts => 9,
            BondrError::MissingTokenProgram => 10,
            BondrError::UnauthorizedSender => 11,
            BondrError::AlreadyReleased => 12,
            BondrError::NotReleased => 13,
            BondrError::InsufficientEscrows => 14,
            BondrError::NFTAlreadyMinted => 15,
            BondrError::InvalidMplKey => 16,
            BondrError::InvalidMultisigConfig => 17,
            BondrError::DuplicateMember => 18,
            BondrError::MultisigBusy => 19,
            BondrError::NotMultisigMember => 20,
            BondrError::AlreadyApproved => 21,
            BondrError::MultisigPendingEscrowMismatch => 22,
            BondrError::MultisigThresholdNotMet => 23,
            BondrError::UnauthorizedReceiver => 24,
        }
    }

    pub fn code(&self) -> (r: u32)
        ensures
            r == self.spec_code(),
    {
        match self {
            BondrError::InvalidInstructionData => 0,
            BondrError::PdaMismatch => 1,
            BondrError::InvalidOwner => 2,
            BondrError::InvalidAmount => 3,
            BondrError::InvalidAmountZero => 4,
            BondrError::SelfTransfer => 5,
            BondrError::InvalidReferenceSeed => 6,
            BondrError::AmountTooLarge => 7,
            BondrError::InsufficientBalance => 8,
            BondrError::MissingTokenAccounts => 9,
            BondrError::MissingTokenProgram => 10,
            BondrError::UnauthorizedSender => 11,
            BondrError::AlreadyReleased => 12,
            BondrError::NotReleased => 13,
            BondrError::InsufficientEscrows => 14,
            BondrError::NFTAlreadyMinted => 15,
            BondrError::InvalidMplKey => 16,
            BondrError::InvalidMultisigConfig => 17,
            BondrError::DuplicateMember => 18,
            BondrError::MultisigBusy => 19,
            BondrError::NotMultisigMember => 20,
            BondrError::AlreadyApproved => 21,
            BondrError::MultisigPendingEscrowMismatch => 22,
            BondrError::MultisigThresholdNotMet => 23,
            BondrError::UnauthorizedReceiver => 24,
        }
    }
}

/// Why an operation was refused: one of the program's own errors, or one of
/// the host's generic failures.
#[derive(Clone, Copy, Debug, PartialEq, Eq, Structural)]
pub enum ProgramFailure {
    Custom(BondrError),
    /// The operation selector is missing or unknown.
    InvalidInstructionData,
    /// A record's payload does not have the layout of its type.
    InvalidAccountData,
    /// A party whose consent is required did not sign.
    MissingRequiredSignature,
    /// The record to be created already holds data.
    AccountAlreadyInitialized,
}

} // verus!
