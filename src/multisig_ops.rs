use crate::address::{keys_equal, lemma_key_view_eq, multisig_address, spec_multisig_address, Pubkey};
use crate::codec::zeros;
use crate::errors::{BondrError, ProgramFailure};
use crate::escrow_ops::{default_key, is_default_key};
use crate::payload::{bad_payload, ApproveMultisigRelease, InitializeMultisigClient};
use crate::state::{ClientMultisig, Escrow, MAX_MULTISIG_MEMBERS};
use vstd::prelude::*;

verus! {

/// How many bytes of `s` are 1.
pub open spec fn count_approved(s: Seq<u8>) -> nat
    decreases s.len(),
{
    if s.len() == 0 {
        0
    } else {
        count_approved(s.drop_last()) + if s.last() == 1 {
            1nat
        } else {
            0nat
        }
    }
}

/// The approvals recorded among the active members.
pub open spec fn approvals_met(m: ClientMultisig) -> nat {
    count_approved(m.approvals@.take(m.member_count as int))
}

/// `key` is one of the active members.
pub open spec fn is_member(m: ClientMultisig, key: Pubkey) -> bool {
    exists|i: int| 0 <= i < m.member_count && m.members@[i] == key
}

/// `i` is the first active index at which `key` stands.
pub open spec fn is_first_index(m: ClientMultisig, key: Pubkey, i: int) -> bool {
    &&& 0 <= i < m.member_count
    &&& m.members@[i] == key
    &&& forall|j: int| 0 <= j < i ==> m.members@[j] != key
}

/// The approval index of a member.
pub open spec fn member_index(m: ClientMultisig, key: Pubkey) -> int {
    choose|i: int| is_first_index(m, key, i)
}

/// A member has a first index.
pub proof fn lemma_first_index_exists(m: ClientMultisig, key: Pubkey, w: int)
    requires
        0 <= w < m.member_count,
        m.members@[w] == key,
    ensures
        is_first_index(m, key, member_index(m, key)),
    decreases w,
{
    if exists|j: int| 0 <= j < w && m.members@[j] == key {
        let j = choose|j: int| 0 <= j < w && m.members@[j] == key;
        lemma_first_index_exists(m, key, j);
    } else {
        assert(is_first_index(m, key, w));
    }
}

pub proof fn lemma_first_index_unique(m: ClientMultisig, key: Pubkey, i: int, k: int)
    requires
        is_first_index(m, key, i),
        is_first_index(m, key, k),
    ensures
        i == k,
{
}

/// Counts the approvals among the first `member_count` slots.
pub fn count_approvals(m: &ClientMultisig) -> (r: u8)
    requires
        m.wf(),
    ensures
        r == approvals_met(*m),
        r <= m.member_count,
{
    let n = m.member_count as usize;
    let mut count: u8 = 0;
    let mut i: usize = 0;
    while i < n
        invariant
            n == m.member_count,
            n <= 5,
            m.approvals@.len() == 5,
            i <= n,
            count == count_approved(m.approvals@.take(i as int)),
            count <= i,
        decreases n - i,
    {
        assert(m.approvals@.take(i + 1).drop_last() =~= m.approvals@.take(i as int));
        if m.approvals[i] == 1 {
            count = count + 1;
        }
        i = i + 1;
    }
    count
}

/// The first active index holding `key`, if any.
pub fn find_member(m: &ClientMultisig, key: &Pubkey) -> (r: Option<usize>)
    requires
        m.wf(),
    ensures
        r is None <==> !is_member(*m, *key),
        r matches Some(i) ==> is_first_index(*m, *key, i as int),
{
    let n = m.member_count as usize;
    let mut i: usize = 0;
    while i < n
        invariant
            n == m.member_count,
            n <= 5,
            m.members@.len() == 5,
            i <= n,
            forall|j: int| 0 <= j < i ==> m.members@[j] != *key,
        decreases n - i,
    {
        if keys_equal(&m.members[i], key) {
            return Some(i);
        }
        i = i + 1;
    }
    None
}

/// The verdict of an approval: the first check that fails, in the order
/// signature, payload, pending escrow, membership, earlier approval.
pub open spec fn approve_verdict(
    member: Pubkey,
    member_is_signer: bool,
    multisig: ClientMultisig,
    escrow_key: Pubkey,
    data: Seq<u8>,
) -> Result<(), ProgramFailure> {
    if !member_is_signer {
        Err(ProgramFailure::MissingRequiredSignature)
    } else if data.len() != 0 {
        Err(bad_payload())
    } else if multisig.pending_escrow != escrow_key {
        Err(ProgramFailure::Custom(BondrError::MultisigPendingEscrowMismatch))
    } else if !is_member(multisig, member) {
        Err(ProgramFailure::Custom(BondrError::NotMultisigMember))
    } else if multisig.approvals@[member_index(multisig, member)] == 1 {
        Err(ProgramFailure::Custom(BondrError::AlreadyApproved))
    } else {
        Ok(())
    }
}

/// The multisig after `member`'s approval is recorded.
pub open spec fn approved(m: ClientMultisig, member: Pubkey, after: ClientMultisig) -> bool {
    &&& after.approvals@ == m.approvals@.update(member_index(m, member), 1u8)
    &&& after.members == m.members
    &&& after.member_count == m.member_count
    &&& after.threshold == m.threshold
    &&& after.pending_escrow == m.pending_escrow
    &&& after.bump == m.bump
}

/// Records `member`'s approval of the escrow stored at `escrow_key`, and
/// releases that escrow when the approvals reach the threshold. The payload
/// is an `ApproveMultisigRelease`.
pub fn approve_multisig_release(
    member: &Pubkey,
    member_is_signer: bool,
    multisig: &mut ClientMultisig,
    escrow_key: &Pubkey,
    escrow: &mut Escrow,
    data: &[u8],
) -> (r: Result<(), ProgramFailure>)
    requires
        old(multisig).wf(),
    ensures
        r == approve_verdict(*member, member_is_signer, *old(multisig), *escrow_key, data@),
        r is Ok ==> {
            &&& approved(*old(multisig), *member, *final(multisig))
            &&& *final(escrow) == (Escrow {
                is_released: old(escrow).is_released || approvals_met(*final(multisig))
                    >= old(multisig).threshold,
                ..*old(escrow)
            })
        },
        r is Err ==> *final(multisig) == *old(multisig) && *final(escrow) == *old(escrow),
{
    if !member_is_signer {
        return Err(ProgramFailure::MissingRequiredSignature);
    }
    let _ix = ApproveMultisigRelease::from_bytes(data)?;
    if !keys_equal(&multisig.pending_escrow, escrow_key) {
        return Err(ProgramFailure::Custom(BondrError::MultisigPendingEscrowMismatch));
    }
    let idx = match find_member(multisig, member) {
        Some(i) => i,
        None => {
            return Err(ProgramFailure::Custom(BondrError::NotMultisigMember));
        },
    };
    proof {
        lemma_first_index_unique(*multisig, *member, idx as int, member_index(*multisig, *member));
    }
    if multisig.approvals[idx] == 1 {
        return Err(ProgramFailure::Custom(BondrError::AlreadyApproved));
    }
    multisig.approvals[idx] = 1;
    let met = count_approvals(multisig);
    if met >= multisig.threshold {
        escrow.is_released = true;
    }
    Ok(())
}

/// Two active members share a key.
pub open spec fn has_duplicate(members: Seq<Pubkey>, count: int) -> bool {
    exists|i: int, j: int| 0 <= i < j < count && members[i] == members[j]
}

/// The five member keys of a multisig creation payload.
pub open spec fn payload_members(data: Seq<u8>) -> Seq<Seq<u8>> {
    Seq::new(5, |i: int| data.subrange(32 * i, 32 * i + 32))
}

/// The verdict of a multisig creation: the first check that fails, in the
/// order signature, emptiness, payload, address, member count, threshold,
/// creator among the members, distinct members.
pub open spec fn init_multisig_verdict(
    client: Pubkey,
    client_is_signer: bool,
    multisig_key: Pubkey,
    multisig_is_empty: bool,
    data: Seq<u8>,
    program_id: Pubkey,
) -> Result<(), ProgramFailure> {
    let count = data[160] as int;
    let members = payload_members(data);
    if !client_is_signer {
        Err(ProgramFailure::MissingRequiredSignature)
    } else if !multisig_is_empty {
        Err(ProgramFailure::AccountAlreadyInitialized)
    } else if data.len() != 163 {
        Err(bad_payload())
    } else if multisig_key@ != spec_multisig_address(client@, data[162], program_id@) {
        Err(ProgramFailure::Custom(BondrError::PdaMismatch))
    } else if count == 0 || count > 5 {
        Err(ProgramFailure::Custom(BondrError::InvalidMultisigConfig))
    } else if data[161] == 0 || data[161] > count {
        Err(ProgramFailure::Custom(BondrError::InvalidMultisigConfig))
    } else if !(exists|i: int| 0 <= i < count && members[i] == client@) {
        Err(ProgramFailure::Custom(BondrError::InvalidMultisigConfig))
    } else if exists|i: int, j: int| 0 <= i < j < count && members[i] == members[j] {
        Err(ProgramFailure::Custom(BondrError::DuplicateMember))
    } else {
        Ok(())
    }
}

/// A freshly created multisig: the configuration of the payload, no
/// approvals and no pending escrow.
pub open spec fn multisig_created(m: ClientMultisig, data: Seq<u8>) -> bool {
    &&& forall|i: int| 0 <= i < 5 ==> #[trigger] m.members@[i]@ == data.subrange(32 * i, 32 * i + 32)
    &&& m.member_count == data[160]
    &&& m.threshold == data[161]
    &&& m.bump == data[162]
    &&& m.approvals@ == zeros(5)
    &&& is_default_key(m.pending_escrow)
}

/// A multisig whose configuration holds: between one and five members, all
/// distinct, a threshold between one and the member count, and `client`
/// among the members.
pub open spec fn multisig_valid(m: ClientMultisig, client: Pubkey) -> bool {
    &&& 1 <= m.member_count <= 5
    &&& 1 <= m.threshold <= m.member_count
    &&& is_member(m, client)
    &&& !has_duplicate(m.members@, m.member_count as int)
}

/// Decides the creation of `client`'s multisig at `multisig_key`, and
/// returns the record to store there once the storage is allocated. The
/// payload is an `InitializeMultisigClient`.
#[verifier::loop_isolation(false)]
pub fn init_multisig_client(
    client: &Pubkey,
    client_is_signer: bool,
    multisig_key: &Pubkey,
    multisig_is_empty: bool,
    data: &[u8],
    program_id: &Pubkey,
) -> (r: Result<ClientMultisig, ProgramFailure>)
    ensures
        r is Ok <==> init_multisig_verdict(
            *client,
            client_is_signer,
            *multisig_key,
            multisig_is_empty,
            data@,
            *program_id,
        ) is Ok,
        r matches Err(f) ==> init_multisig_verdict(
            *client,
            client_is_signer,
            *multisig_key,
            multisig_is_empty,
            data@,
            *program_id,
        ) == Err::<(), ProgramFailure>(f),
        r matches Ok(m) ==> multisig_created(m, data@) && multisig_valid(m, *client),
{
    if !client_is_signer {
        return Err(ProgramFailure::MissingRequiredSignature);
    }
    if !multisig_is_empty {
        return Err(ProgramFailure::AccountAlreadyInitialized);
    }
    let ix = InitializeMultisigClient::from_bytes(data)?;
    let ghost members = payload_members(data@);
    proof {
        assert forall|i: int| 0 <= i < 5 implies #[trigger] ix.members@[i]@ == members[i] by {
            assert(ix.members@[i]@ =~= members[i]);
        }
        assert forall|i: int, j: int| 0 <= i < 5 && 0 <= j < 5 implies (#[trigger] members[i] == #[trigger] members[j]) == (ix.members@[i] == ix.members@[j]) by {
            lemma_key_view_eq(ix.members@[i], ix.members@[j]);
        }
        assert(members.len() == 5);
        assert forall|i: int| 0 <= i < 5 implies (#[trigger] members[i] == client@) == (ix.members@[i] == *client) by {
            lemma_key_view_eq(ix.members@[i], *client);
        }
    }
    let derived = multisig_address(client, ix.bump, program_id);
    if !keys_equal(&derived, multisig_key) {
        return Err(ProgramFailure::Custom(BondrError::PdaMismatch));
    }
    if ix.member_count == 0 || ix.member_count as usize > MAX_MULTISIG_MEMBERS {
        return Err(ProgramFailure::Custom(BondrError::InvalidMultisigConfig));
    }
    if ix.threshold == 0 || ix.threshold > ix.member_count {
        return Err(ProgramFailure::Custom(BondrError::InvalidMultisigConfig));
    }
    let n = ix.member_count as usize;
    let mut found = false;
    let mut i: usize = 0;
    while i < n
        invariant
            n == ix.member_count,
            1 <= n <= 5,
            ix.members@.len() == 5,
            i <= n,
            found <==> exists|j: int| 0 <= j < i && ix.members@[j] == *client,
        decreases n - i,
    {
        if keys_equal(&ix.members[i], client) {
            found = true;
        }
        i = i + 1;
    }
    if !found {
        return Err(ProgramFailure::Custom(BondrError::InvalidMultisigConfig));
    }
    proof {
        let w = choose|j: int| 0 <= j < n && ix.members@[j] == *client;
        assert(members[w] == client@);
    }
    let mut a: usize = 0;
    while a < n
        invariant
            n == ix.member_count,
            1 <= n <= 5,
            ix.members@.len() == 5,
            a <= n,
            forall|p: int, q: int| 0 <= p < a && p < q < n ==> ix.members@[p] != ix.members@[q],
        decreases n - a,
    {
        let mut b: usize = a + 1;
        while b < n
            invariant
                n == ix.member_count,
                1 <= n <= 5,
                ix.members@.len() == 5,
                a < n,
                a + 1 <= b <= n,
                forall|p: int, q: int| 0 <= p < a && p < q < n ==> ix.members@[p] != ix.members@[q],
                forall|q: int| a < q < b ==> ix.members@[a as int] != ix.members@[q],
            decreases n - b,
        {
            if keys_equal(&ix.members[a], &ix.members[b]) {
                assert(members[a as int] == members[b as int]);
                return Err(ProgramFailure::Custom(BondrError::DuplicateMember));
            }
            b = b + 1;
        }
        a = a + 1;
    }
    let approvals: [u8; 5] = [0u8; 5];
    assert(approvals@ =~= zeros(5));
    let m = ClientMultisig {
        members: ix.members,
        member_count: ix.member_count,
        threshold: ix.threshold,
        approvals,
        pending_escrow: default_key(),
        bump: ix.bump,
    };
    proof {
        assert(!has_duplicate(m.members@, m.member_count as int));
    }
    Ok(m)
}

} // verus!
