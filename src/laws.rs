//! Properties that relate the operations' contracts across calls and inputs.
use crate::address::{escrow_tag, spec_escrow_address, spec_escrow_authority, Pubkey};
use crate::claim::{claim_verdict, multisig_reset};
use crate::errors::{BondrError, ProgramFailure};
use crate::escrow_ops::{escrow_opened, init_escrow_verdict, release_verdict};
use crate::multisig_ops::{
    approve_verdict, approved, is_first_index, is_member, lemma_first_index_exists, member_index,
};
use crate::state::{
    badge_layout, escrow_layout, escrow_shape, multisig_layout, user_stats_layout, ClientMultisig,
    Escrow, FreelancerBadge, UserStats,
};
use vstd::bytes::*;
use vstd::prelude::*;

verus! {

/// A creation from a signing sender, into an empty record at the canonical
/// address, with a well-formed payload of nonzero amount and two distinct
/// parties, succeeds; and the record it opens is determined by its inputs.
pub proof fn law_initialize_opens(
    sender: Pubkey,
    receiver: Pubkey,
    escrow_key: Pubkey,
    data: Seq<u8>,
    program_id: Pubkey,
    client_multisig: Option<Pubkey>,
    e1: Escrow,
    e2: Escrow,
)
    requires
        data.len() == 16,
        data[10] <= 1,
        spec_u64_from_le_bytes(data.subrange(0, 8)) > 0,
        sender != receiver,
        escrow_key@ == spec_escrow_address(sender@, receiver@, data[8], program_id@),
        escrow_opened(
            e1,
            sender,
            receiver,
            spec_u64_from_le_bytes(data.subrange(0, 8)),
            data[8],
            client_multisig,
        ),
        escrow_opened(
            e2,
            sender,
            receiver,
            spec_u64_from_le_bytes(data.subrange(0, 8)),
            data[8],
            client_multisig,
        ),
    ensures
        init_escrow_verdict(sender, true, receiver, escrow_key, true, data, program_id) is Ok,
        !e1.is_released,
        e1.amount == spec_u64_from_le_bytes(data.subrange(0, 8)),
        e1 == e2,
{
    assert(e1.client_multisig =~= e2.client_multisig);
}

/// A creation with a zero amount fails with the zero-amount error, and one
/// with a nonzero amount between a party and itself fails with the
/// self-transfer error; either way no record is opened.
pub proof fn law_initialize_rejects(
    sender: Pubkey,
    receiver: Pubkey,
    escrow_key: Pubkey,
    data: Seq<u8>,
    program_id: Pubkey,
)
    requires
        data.len() == 16,
        data[10] <= 1,
    ensures
        spec_u64_from_le_bytes(data.subrange(0, 8)) == 0 ==> init_escrow_verdict(
            sender,
            true,
            receiver,
            escrow_key,
            true,
            data,
            program_id,
        ) == Err::<(), ProgramFailure>(ProgramFailure::Custom(BondrError::InvalidAmountZero)),
        spec_u64_from_le_bytes(data.subrange(0, 8)) != 0 ==> init_escrow_verdict(
            sender,
            true,
            sender,
            escrow_key,
            true,
            data,
            program_id,
        ) == Err::<(), ProgramFailure>(ProgramFailure::Custom(BondrError::SelfTransfer)),
{
}

/// A release asked for by anyone but the stored sender fails with the
/// unauthorized-sender error; a release of an escrow bound to a multisig
/// fails, leaving it to the members' approvals; and once a release has
/// succeeded, a second release of the record it left fails with the
/// already-released error.
pub proof fn law_release_once(
    client: Pubkey,
    escrow_key: Pubkey,
    escrow: Escrow,
    data: Seq<u8>,
    program_id: Pubkey,
)
    requires
        data.len() == 1,
        escrow_key@ == spec_escrow_address(escrow.sender@, escrow.receiver@, data[0], program_id@),
    ensures
        client != escrow.sender ==> release_verdict(client, true, escrow_key, escrow, data, program_id)
            == Err::<(), ProgramFailure>(ProgramFailure::Custom(BondrError::UnauthorizedSender)),
        escrow.has_multisig ==> release_verdict(client, true, escrow_key, escrow, data, program_id) is Err,
        release_verdict(client, true, escrow_key, escrow, data, program_id) is Ok ==> !escrow.has_multisig,
        release_verdict(client, true, escrow_key, escrow, data, program_id) is Ok ==> release_verdict(
            client,
            true,
            escrow_key,
            Escrow { is_released: true, ..escrow },
            data,
            program_id,
        ) == Err::<(), ProgramFailure>(ProgramFailure::Custom(BondrError::AlreadyReleased)),
{
}

/// Once a member's approval is recorded, a second approval by the same
/// member of the same pending escrow fails with the already-approved error.
pub proof fn law_approve_once(
    member: Pubkey,
    multisig: ClientMultisig,
    escrow_key: Pubkey,
    data: Seq<u8>,
    after: ClientMultisig,
)
    requires
        multisig.wf(),
        approve_verdict(member, true, multisig, escrow_key, data) is Ok,
        approved(multisig, member, after),
    ensures
        approve_verdict(member, true, after, escrow_key, data) == Err::<(), ProgramFailure>(
            ProgramFailure::Custom(BondrError::AlreadyApproved),
        ),
{
    let w = choose|w: int| 0 <= w < multisig.member_count && multisig.members@[w] == member;
    lemma_first_index_exists(multisig, member, w);
    let i = member_index(multisig, member);
    assert(is_first_index(after, member, i));
    lemma_first_index_exists(after, member, i);
    let k = member_index(after, member);
    assert(is_member(after, member));
    assert(i == k) by {
        if k < i {
            assert(after.members@[k] != member);
        }
        if i < k {
            assert(after.members@[i] != member);
        }
    }
}

/// A claim, by the receiver, of an escrow that is not released fails with
/// the not-released error.
pub proof fn law_claim_needs_release(
    freelancer: Pubkey,
    escrow_key: Pubkey,
    escrow: Escrow,
    multisig_key: Pubkey,
    multisig: Option<ClientMultisig>,
    data: Seq<u8>,
)
    requires
        data.len() == 2,
        escrow.receiver == freelancer,
        !escrow.is_released,
    ensures
        claim_verdict(freelancer, true, escrow_key, escrow, multisig_key, multisig, data) == Err::<
            (),
            ProgramFailure,
        >(ProgramFailure::Custom(BondrError::NotReleased)),
{
}

/// A claim of an escrow bound to a multisig fails unless the bound
/// multisig's record is handed over: without a record, or with another
/// multisig, it is refused.
pub proof fn law_claim_needs_bound_multisig(
    freelancer: Pubkey,
    escrow_key: Pubkey,
    escrow: Escrow,
    multisig_key: Pubkey,
    multisig: Option<ClientMultisig>,
    data: Seq<u8>,
)
    requires
        escrow.has_multisig,
        multisig is None || multisig_key != escrow.client_multisig,
    ensures
        claim_verdict(freelancer, true, escrow_key, escrow, multisig_key, multisig, data) is Err,
{
}

/// After a claim closes a multisig's cycle, the multisig no longer counts
/// toward any escrow at a nonzero address: a claim of a bound escrow
/// against it fails. And a closed escrow, whose storage is empty, no longer
/// decodes, so a second claim of it fails.
pub proof fn law_claim_once(
    freelancer: Pubkey,
    escrow_key: Pubkey,
    escrow: Escrow,
    multisig_key: Pubkey,
    m: ClientMultisig,
    after: ClientMultisig,
    data: Seq<u8>,
)
    requires
        escrow.has_multisig,
        multisig_reset(m, after),
        escrow_key@ != after.pending_escrow@,
    ensures
        claim_verdict(freelancer, true, escrow_key, escrow, multisig_key, Some(after), data) is Err,
        !escrow_shape(Seq::<u8>::empty()),
{
}

/// The bytes hashed for an escrow's signing authority: the tag, the two
/// parties, the reference seed and the bump, one after the other.
pub open spec fn authority_preimage(sender: Seq<u8>, receiver: Seq<u8>, reference_seed: u8, bump: u8) -> Seq<u8> {
    escrow_tag() + sender + receiver + seq![reference_seed] + seq![bump]
}

/// Address derivation is deterministic, and the bytes it hashes determine
/// the sender, the receiver, the reference seed and the bump: two distinct
/// tuples of 32-byte keys never hash the same input, so they can share an
/// authority only through a collision of the digest.
pub proof fn law_authority_derivation(
    s1: Pubkey,
    r1: Pubkey,
    ref1: u8,
    b1: u8,
    s2: Pubkey,
    r2: Pubkey,
    ref2: u8,
    b2: u8,
    program_id: Pubkey,
)
    ensures
        (s1 == s2 && r1 == r2 && ref1 == ref2 && b1 == b2) ==> spec_escrow_authority(
            s1@,
            r1@,
            ref1,
            b1,
            program_id@,
        ) == spec_escrow_authority(s2@, r2@, ref2, b2, program_id@),
        authority_preimage(s1@, r1@, ref1, b1) == authority_preimage(s2@, r2@, ref2, b2) ==> (s1
            == s2 && r1 == r2 && ref1 == ref2 && b1 == b2),
{
    let p1 = authority_preimage(s1@, r1@, ref1, b1);
    let p2 = authority_preimage(s2@, r2@, ref2, b2);
    if p1 == p2 {
        assert(p1.subrange(6, 38) =~= s1@);
        assert(p2.subrange(6, 38) =~= s2@);
        assert(p1.subrange(38, 70) =~= r1@);
        assert(p2.subrange(38, 70) =~= r2@);
        assert(s1 =~= s2);
        assert(r1 =~= r2);
        assert(p1[70] == ref1);
        assert(p2[70] == ref2);
        assert(p1[71] == b1);
        assert(p2[71] == b2);
    }
}

/// A stored form determines its escrow: two escrows laid out as the same
/// bytes are equal, so decoding what was encoded gives the escrow back.
pub proof fn law_escrow_layout_determines(e1: Escrow, e2: Escrow, s: Seq<u8>)
    requires
        escrow_layout(e1, s),
        escrow_layout(e2, s),
    ensures
        e1 == e2,
{
    assert(e1.sender =~= e2.sender);
    assert(e1.receiver =~= e2.receiver);
    assert(e1.client_multisig =~= e2.client_multisig);
}

/// A stored form determines its multisig.
pub proof fn law_multisig_layout_determines(m1: ClientMultisig, m2: ClientMultisig, s: Seq<u8>)
    requires
        multisig_layout(m1, s),
        multisig_layout(m2, s),
    ensures
        m1 == m2,
{
    assert forall|i: int| 0 <= i < 5 implies m1.members@[i] == m2.members@[i] by {
        assert(m1.members@[i]@ == s.subrange(32 * i, 32 * i + 32));
        assert(m1.members@[i] =~= m2.members@[i]);
    }
    assert(m1.members =~= m2.members);
    assert(m1.approvals =~= m2.approvals);
    assert(m1.pending_escrow =~= m2.pending_escrow);
}

/// A stored form determines its user stats.
pub proof fn law_user_stats_layout_determines(u1: UserStats, u2: UserStats, s: Seq<u8>)
    requires
        user_stats_layout(u1, s),
        user_stats_layout(u2, s),
    ensures
        u1 == u2,
{
    assert(u1.user =~= u2.user);
}

/// A stored form determines its badge.
pub proof fn law_badge_layout_determines(b1: FreelancerBadge, b2: FreelancerBadge, s: Seq<u8>)
    requires
        badge_layout(b1, s),
        badge_layout(b2, s),
    ensures
        b1 == b2,
{
    assert(b1.freelancer =~= b2.freelancer);
    assert(b1.tier == b2.tier);
}

} // verus!
