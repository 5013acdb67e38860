use bondr::address::{escrow_address, escrow_authority, Pubkey};
use bondr::claim::{claim_payment, TokenTransfer};
use bondr::errors::{BondrError, ProgramFailure};
use bondr::escrow_ops::{init_escrow, release_payment};
use bondr::multisig_ops::{approve_multisig_release, count_approvals, init_multisig_client};
use bondr::state::{ClientMultisig, Escrow, UserStats};

const PROGRAM: Pubkey = [9u8; 32];
const SENDER: Pubkey = [1u8; 32];
const RECEIVER: Pubkey = [2u8; 32];
const MULTISIG: Pubkey = [7u8; 32];

fn init_data(amount: u64, bump: u8, is_multisig: bool) -> Vec<u8> {
    let mut d = amount.to_le_bytes().to_vec();
    d.push(bump);
    d.push(0);
    d.push(if is_multisig { 1 } else { 0 });
    d.extend_from_slice(&[0u8; 5]);
    d
}

fn open_escrow(amount: u64, bump: u8, is_multisig: bool) -> (Pubkey, Escrow) {
    let key = escrow_address(&SENDER, &RECEIVER, bump, &PROGRAM);
    let e = init_escrow(
        &SENDER,
        true,
        &RECEIVER,
        &key,
        true,
        &MULTISIG,
        &init_data(amount, bump, is_multisig),
        &PROGRAM,
    )
    .unwrap();
    (key, e)
}

fn three_member_multisig(pending: Pubkey) -> ClientMultisig {
    ClientMultisig {
        members: [[11u8; 32], [12u8; 32], [13u8; 32], [0u8; 32], [0u8; 32]],
        member_count: 3,
        threshold: 2,
        approvals: [0u8; 5],
        pending_escrow: pending,
        bump: 250,
    }
}

#[test]
fn initialize_opens_exact_record() {
    let (key, e) = open_escrow(500, 254, false);
    assert_eq!(key, escrow_address(&SENDER, &RECEIVER, 254, &PROGRAM));
    assert_eq!(e.sender, SENDER);
    assert_eq!(e.receiver, RECEIVER);
    assert_eq!(e.amount, 500);
    assert!(!e.is_released);
    assert_eq!(e.bump, 254);
    assert!(!e.has_multisig);
    assert_eq!(e.client_multisig, [0u8; 32]);
}

#[test]
fn initialize_binds_multisig_when_asked() {
    let (_, e) = open_escrow(42, 3, true);
    assert!(e.has_multisig);
    assert_eq!(e.client_multisig, MULTISIG);
}

#[test]
fn initialize_rejects_zero_amount() {
    let key = escrow_address(&SENDER, &RECEIVER, 254, &PROGRAM);
    let r = init_escrow(&SENDER, true, &RECEIVER, &key, true, &MULTISIG, &init_data(0, 254, false), &PROGRAM);
    assert_eq!(r, Err(ProgramFailure::Custom(BondrError::InvalidAmountZero)));
}

#[test]
fn initialize_rejects_self_transfer() {
    let key = escrow_address(&SENDER, &SENDER, 254, &PROGRAM);
    let r = init_escrow(&SENDER, true, &SENDER, &key, true, &MULTISIG, &init_data(10, 254, false), &PROGRAM);
    assert_eq!(r, Err(ProgramFailure::Custom(BondrError::SelfTransfer)));
}

#[test]
fn initialize_rejects_wrong_address() {
    let key = escrow_address(&SENDER, &RECEIVER, 253, &PROGRAM);
    let r = init_escrow(&SENDER, true, &RECEIVER, &key, true, &MULTISIG, &init_data(10, 254, false), &PROGRAM);
    assert_eq!(r, Err(ProgramFailure::Custom(BondrError::PdaMismatch)));
}

#[test]
fn initialize_checks_signature_storage_and_payload() {
    let key = escrow_address(&SENDER, &RECEIVER, 254, &PROGRAM);
    let data = init_data(10, 254, false);
    let r = init_escrow(&SENDER, false, &RECEIVER, &key, true, &MULTISIG, &data, &PROGRAM);
    assert_eq!(r, Err(ProgramFailure::MissingRequiredSignature));
    let r = init_escrow(&SENDER, true, &RECEIVER, &key, false, &MULTISIG, &data, &PROGRAM);
    assert_eq!(r, Err(ProgramFailure::AccountAlreadyInitialized));
    let r = init_escrow(&SENDER, true, &RECEIVER, &key, true, &MULTISIG, &data[..15], &PROGRAM);
    assert_eq!(r, Err(ProgramFailure::Custom(BondrError::InvalidInstructionData)));
    let mut bad_flag = data.clone();
    bad_flag[10] = 2;
    let r = init_escrow(&SENDER, true, &RECEIVER, &key, true, &MULTISIG, &bad_flag, &PROGRAM);
    assert_eq!(r, Err(ProgramFailure::Custom(BondrError::InvalidInstructionData)));
}

#[test]
fn release_by_other_than_sender_is_refused() {
    let (key, mut e) = open_escrow(500, 254, false);
    let r = release_payment(&RECEIVER, true, &key, &mut e, &[254], &PROGRAM);
    assert_eq!(r, Err(ProgramFailure::Custom(BondrError::UnauthorizedSender)));
    assert!(!e.is_released);
}

#[test]
fn release_twice_is_refused() {
    let (key, mut e) = open_escrow(500, 254, false);
    assert_eq!(release_payment(&SENDER, true, &key, &mut e, &[254], &PROGRAM), Ok(()));
    assert!(e.is_released);
    let r = release_payment(&SENDER, true, &key, &mut e, &[254], &PROGRAM);
    assert_eq!(r, Err(ProgramFailure::Custom(BondrError::AlreadyReleased)));
    assert!(e.is_released);
}

#[test]
fn release_checks_address_signature_and_payload() {
    let (key, mut e) = open_escrow(500, 254, false);
    let r = release_payment(&SENDER, true, &key, &mut e, &[253], &PROGRAM);
    assert_eq!(r, Err(ProgramFailure::Custom(BondrError::PdaMismatch)));
    let r = release_payment(&SENDER, false, &key, &mut e, &[254], &PROGRAM);
    assert_eq!(r, Err(ProgramFailure::MissingRequiredSignature));
    let r = release_payment(&SENDER, true, &key, &mut e, &[], &PROGRAM);
    assert_eq!(r, Err(ProgramFailure::Custom(BondrError::InvalidInstructionData)));
    assert!(!e.is_released);
}

#[test]
fn multisig_threshold_two_of_three() {
    let (key, mut e) = open_escrow(500, 254, true);
    let mut m = three_member_multisig(key);
    let first = [11u8; 32];
    let second = [12u8; 32];

    assert_eq!(approve_multisig_release(&first, true, &mut m, &key, &mut e, &[]), Ok(()));
    assert_eq!(m.approvals, [1, 0, 0, 0, 0]);
    assert_eq!(count_approvals(&m), 1);
    assert!(!e.is_released);

    assert_eq!(approve_multisig_release(&second, true, &mut m, &key, &mut e, &[]), Ok(()));
    assert_eq!(m.approvals, [1, 1, 0, 0, 0]);
    assert_eq!(count_approvals(&m), 2);
    assert!(e.is_released);

    let r = approve_multisig_release(&first, true, &mut m, &key, &mut e, &[]);
    assert_eq!(r, Err(ProgramFailure::Custom(BondrError::AlreadyApproved)));
    assert_eq!(m.approvals, [1, 1, 0, 0, 0]);

    let stranger = [99u8; 32];
    let r = approve_multisig_release(&stranger, true, &mut m, &key, &mut e, &[]);
    assert_eq!(r, Err(ProgramFailure::Custom(BondrError::NotMultisigMember)));
}

#[test]
fn approval_for_another_escrow_is_refused() {
    let (key, mut e) = open_escrow(500, 254, true);
    let mut m = three_member_multisig([5u8; 32]);
    let r = approve_multisig_release(&[11u8; 32], true, &mut m, &key, &mut e, &[]);
    assert_eq!(r, Err(ProgramFailure::Custom(BondrError::MultisigPendingEscrowMismatch)));
    assert_eq!(m.approvals, [0u8; 5]);
    assert!(!e.is_released);
}

#[test]
fn inactive_member_slots_do_not_count() {
    let (key, mut e) = open_escrow(500, 254, true);
    let mut m = three_member_multisig(key);
    m.approvals = [0, 0, 0, 1, 1];
    assert_eq!(count_approvals(&m), 0);
    assert_eq!(approve_multisig_release(&[13u8; 32], true, &mut m, &key, &mut e, &[]), Ok(()));
    assert_eq!(count_approvals(&m), 1);
    assert!(!e.is_released);
}

#[test]
fn claim_before_release_is_refused() {
    let (key, e) = open_escrow(500, 254, false);
    let mut ms: Option<ClientMultisig> = None;
    let mut stats = UserStats { user: [0u8; 32], completed_escrows: 0, bump: 0 };
    let r = claim_payment(&RECEIVER, true, &key, &e, &MULTISIG, &mut ms, &mut stats, &[1, 200]);
    assert_eq!(r, Err(ProgramFailure::Custom(BondrError::NotReleased)));
    assert_eq!(stats, UserStats { user: [0u8; 32], completed_escrows: 0, bump: 0 });
}

#[test]
fn claim_by_other_than_receiver_is_refused() {
    let (key, mut e) = open_escrow(500, 254, false);
    release_payment(&SENDER, true, &key, &mut e, &[254], &PROGRAM).unwrap();
    let mut ms: Option<ClientMultisig> = None;
    let mut stats = UserStats { user: [0u8; 32], completed_escrows: 0, bump: 0 };
    let r = claim_payment(&SENDER, true, &key, &e, &MULTISIG, &mut ms, &mut stats, &[1, 200]);
    assert_eq!(r, Err(ProgramFailure::Custom(BondrError::UnauthorizedReceiver)));
}

#[test]
fn claim_after_multisig_release_settles() {
    let (key, mut e) = open_escrow(500, 254, true);
    let mut m = three_member_multisig(key);
    approve_multisig_release(&[11u8; 32], true, &mut m, &key, &mut e, &[]).unwrap();
    approve_multisig_release(&[13u8; 32], true, &mut m, &key, &mut e, &[]).unwrap();
    assert!(e.is_released);

    let mut ms = Some(m);
    let mut stats = UserStats { user: [0u8; 32], completed_escrows: 0, bump: 0 };
    let t = claim_payment(&RECEIVER, true, &key, &e, &MULTISIG, &mut ms, &mut stats, &[7, 200]).unwrap();
    assert_eq!(
        t,
        TokenTransfer { amount: 500, sender: SENDER, receiver: RECEIVER, reference_seed: 7, bump: 254 }
    );
    let after = ms.unwrap();
    assert_eq!(after.pending_escrow, [0u8; 32]);
    assert_eq!(after.approvals, [0u8; 5]);
    assert_eq!(after.members, m.members);
    assert_eq!(after.threshold, 2);
    assert_eq!(stats, UserStats { user: RECEIVER, completed_escrows: 1, bump: 200 });

    // The reset multisig no longer stands behind this escrow.
    let r = claim_payment(&RECEIVER, true, &key, &e, &MULTISIG, &mut ms, &mut stats, &[7, 200]);
    assert_eq!(r, Err(ProgramFailure::Custom(BondrError::MultisigPendingEscrowMismatch)));
    assert_eq!(stats.completed_escrows, 1);
}

#[test]
fn claim_below_threshold_is_refused() {
    let (key, mut e) = open_escrow(500, 254, true);
    e.is_released = true;
    let mut m = three_member_multisig(key);
    m.approvals = [1, 0, 0, 0, 0];
    let mut ms = Some(m);
    let mut stats = UserStats { user: [0u8; 32], completed_escrows: 0, bump: 0 };
    let r = claim_payment(&RECEIVER, true, &key, &e, &MULTISIG, &mut ms, &mut stats, &[7, 200]);
    assert_eq!(r, Err(ProgramFailure::Custom(BondrError::MultisigThresholdNotMet)));
    assert_eq!(ms.unwrap().approvals, [1, 0, 0, 0, 0]);
    assert_eq!(ms.unwrap().pending_escrow, key);
}

#[test]
fn claim_counts_up_existing_stats_saturating() {
    let (key, mut e) = open_escrow(500, 254, false);
    release_payment(&SENDER, true, &key, &mut e, &[254], &PROGRAM).unwrap();
    let mut ms: Option<ClientMultisig> = None;
    let mut stats = UserStats { user: RECEIVER, completed_escrows: 4, bump: 17 };
    claim_payment(&RECEIVER, true, &key, &e, &MULTISIG, &mut ms, &mut stats, &[1, 200]).unwrap();
    assert_eq!(stats, UserStats { user: RECEIVER, completed_escrows: 5, bump: 17 });
    assert!(ms.is_none());

    let mut full = UserStats { user: RECEIVER, completed_escrows: u32::MAX, bump: 17 };
    claim_payment(&RECEIVER, true, &key, &e, &MULTISIG, &mut ms, &mut full, &[1, 200]).unwrap();
    assert_eq!(full.completed_escrows, u32::MAX);
}

#[test]
fn closed_escrow_no_longer_decodes() {
    assert_eq!(Escrow::from_bytes(&[]), Err(ProgramFailure::InvalidAccountData));
}

#[test]
fn multisig_creation_validates_configuration() {
    let client = [11u8; 32];
    let key = bondr::address::multisig_address(&client, 250, &PROGRAM);
    let payload = |members: [[u8; 32]; 5], count: u8, threshold: u8| {
        let mut d = Vec::new();
        for m in members.iter() {
            d.extend_from_slice(m);
        }
        d.push(count);
        d.push(threshold);
        d.push(250);
        d
    };
    let members = [[11u8; 32], [12u8; 32], [13u8; 32], [0u8; 32], [0u8; 32]];
    let m = init_multisig_client(&client, true, &key, true, &payload(members, 3, 2), &PROGRAM).unwrap();
    assert_eq!(m.members, members);
    assert_eq!(m.member_count, 3);
    assert_eq!(m.threshold, 2);
    assert_eq!(m.approvals, [0u8; 5]);
    assert_eq!(m.pending_escrow, [0u8; 32]);
    assert_eq!(m.bump, 250);

    let config = Err(ProgramFailure::Custom(BondrError::InvalidMultisigConfig));
    assert_eq!(init_multisig_client(&client, true, &key, true, &payload(members, 0, 1), &PROGRAM), config);
    assert_eq!(init_multisig_client(&client, true, &key, true, &payload(members, 6, 1), &PROGRAM), config);
    assert_eq!(init_multisig_client(&client, true, &key, true, &payload(members, 3, 0), &PROGRAM), config);
    assert_eq!(init_multisig_client(&client, true, &key, true, &payload(members, 3, 4), &PROGRAM), config);
    let absent = [[12u8; 32], [13u8; 32], [11u8; 32], [0u8; 32], [0u8; 32]];
    assert_eq!(init_multisig_client(&client, true, &key, true, &payload(absent, 2, 1), &PROGRAM), config);

    let twice = [[11u8; 32], [12u8; 32], [12u8; 32], [0u8; 32], [0u8; 32]];
    assert_eq!(
        init_multisig_client(&client, true, &key, true, &payload(twice, 3, 2), &PROGRAM),
        Err(ProgramFailure::Custom(BondrError::DuplicateMember))
    );
    let other_key = bondr::address::multisig_address(&client, 249, &PROGRAM);
    assert_eq!(
        init_multisig_client(&client, true, &other_key, true, &payload(members, 3, 2), &PROGRAM),
        Err(ProgramFailure::Custom(BondrError::PdaMismatch))
    );
}

#[test]
fn address_derivation_is_deterministic_and_separates_parties() {
    let a = escrow_address(&SENDER, &RECEIVER, 254, &PROGRAM);
    assert_eq!(a, escrow_address(&SENDER, &RECEIVER, 254, &PROGRAM));
    assert_ne!(a, escrow_address(&RECEIVER, &SENDER, 254, &PROGRAM));
    assert_ne!(a, escrow_address(&SENDER, &RECEIVER, 253, &PROGRAM));
    assert_ne!(a, escrow_address(&SENDER, &RECEIVER, 254, &[8u8; 32]));
    assert_ne!(a, SENDER);
    assert_ne!(a, PROGRAM);

    let auth = escrow_authority(&SENDER, &RECEIVER, 1, 254, &PROGRAM);
    assert_eq!(auth, escrow_authority(&SENDER, &RECEIVER, 1, 254, &PROGRAM));
    assert_ne!(auth, escrow_authority(&SENDER, &RECEIVER, 2, 254, &PROGRAM));
    assert_ne!(auth, a);
}

// Open point of the protocol: creating a multisig-bound escrow records the
// multisig inside the escrow only. Nothing here sets the multisig's pending
// escrow, so a fresh multisig refuses approvals for the new escrow until
// some other step binds it.
#[test]
fn escrow_creation_does_not_bind_pending_escrow() {
    let (key, mut e) = open_escrow(500, 254, true);
    assert_eq!(e.client_multisig, MULTISIG);
    let mut fresh = three_member_multisig([0u8; 32]);
    let r = approve_multisig_release(&[11u8; 32], true, &mut fresh, &key, &mut e, &[]);
    assert_eq!(r, Err(ProgramFailure::Custom(BondrError::MultisigPendingEscrowMismatch)));
    assert!(!e.is_released);
}

#[test]
fn approval_checks_signature_and_payload() {
    let (key, mut e) = open_escrow(500, 254, true);
    let mut m = three_member_multisig(key);
    let r = approve_multisig_release(&[11u8; 32], false, &mut m, &key, &mut e, &[]);
    assert_eq!(r, Err(ProgramFailure::MissingRequiredSignature));
    let r = approve_multisig_release(&[11u8; 32], true, &mut m, &key, &mut e, &[0]);
    assert_eq!(r, Err(ProgramFailure::Custom(BondrError::InvalidInstructionData)));
    assert_eq!(m.approvals, [0u8; 5]);
}

#[test]
fn release_of_multisig_bound_escrow_is_refused() {
    let (key, mut e) = open_escrow(500, 254, true);
    let r = release_payment(&SENDER, true, &key, &mut e, &[254], &PROGRAM);
    assert_eq!(r, Err(ProgramFailure::Custom(BondrError::MultisigBusy)));
    assert!(!e.is_released);
}

#[test]
fn claim_of_bound_escrow_needs_its_multisig() {
    let (key, mut e) = open_escrow(500, 254, true);
    let mut m = three_member_multisig(key);
    approve_multisig_release(&[11u8; 32], true, &mut m, &key, &mut e, &[]).unwrap();
    approve_multisig_release(&[12u8; 32], true, &mut m, &key, &mut e, &[]).unwrap();
    assert!(e.is_released);
    let mut stats = UserStats { user: [0u8; 32], completed_escrows: 0, bump: 0 };

    let mut none: Option<ClientMultisig> = None;
    let r = claim_payment(&RECEIVER, true, &key, &e, &MULTISIG, &mut none, &mut stats, &[7, 200]);
    assert_eq!(r, Err(ProgramFailure::Custom(BondrError::MultisigPendingEscrowMismatch)));

    let mut other = Some(m);
    let r = claim_payment(&RECEIVER, true, &key, &e, &[6u8; 32], &mut other, &mut stats, &[7, 200]);
    assert_eq!(r, Err(ProgramFailure::Custom(BondrError::PdaMismatch)));
    assert_eq!(other.unwrap().approvals, [1, 1, 0, 0, 0]);
    assert_eq!(stats.completed_escrows, 0);
}

#[test]
fn claim_of_unbound_escrow_leaves_any_multisig_alone() {
    let (key, mut e) = open_escrow(500, 254, false);
    release_payment(&SENDER, true, &key, &mut e, &[254], &PROGRAM).unwrap();
    let mut m = three_member_multisig([5u8; 32]);
    m.approvals = [1, 0, 0, 0, 0];
    let mut ms = Some(m);
    let mut stats = UserStats { user: [0u8; 32], completed_escrows: 0, bump: 0 };
    claim_payment(&RECEIVER, true, &key, &e, &MULTISIG, &mut ms, &mut stats, &[1, 200]).unwrap();
    assert_eq!(ms, Some(m));
    assert_eq!(stats.completed_escrows, 1);
}

// Open point of the protocol: the escrow's address is derived at creation
// from the tag, the two parties and the bump, while the authority that signs
// the transfer at claim time also hashes the reference seed. The two are
// distinct identities, so the escrow's token account must be held by the
// authority, not by the escrow record's own address.
#[test]
fn signing_authority_is_not_the_escrow_address() {
    let address = escrow_address(&SENDER, &RECEIVER, 254, &PROGRAM);
    for reference_seed in [0u8, 1, 254] {
        assert_ne!(escrow_authority(&SENDER, &RECEIVER, reference_seed, 254, &PROGRAM), address);
    }
}
