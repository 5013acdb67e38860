use crate::address::Pubkey;
use crate::codec::{
    flag_byte, push_key, push_u32, push_u64, push_zeros, read_flag, read_key, read_u32, read_u64, zeros,
    DataLen,
};
use crate::errors::ProgramFailure;
use vstd::bytes::*;
use vstd::prelude::*;

verus! {

pub const MAX_MULTISIG_MEMBERS: usize = 5;

/// A payment held for `receiver` until it is released and claimed.
#[derive(Clone, Copy, Debug, PartialEq)]
pub struct Escrow {
    pub sender: Pubkey,
    pub receiver: Pubkey,
    pub amount: u64,
    pub is_released: bool,
    pub bump: u8,
    /// The bound multisig, or all zeros when there is none.
    pub client_multisig: Pubkey,
    pub has_multisig: bool,
}

impl DataLen for Escrow {
    const LEN: usize = 112;
}

/// The stored form of an escrow: the sender at 0, the receiver at 32, the
/// amount at 64, the released flag at 72, the bump at 73, the multisig at
/// 74, its flag at 106, and five bytes of padding.
pub open spec fn escrow_layout(e: Escrow, s: Seq<u8>) -> bool {
    &&& s.len() == 112
    &&& s.subrange(0, 32) == e.sender@
    &&& s.subrange(32, 64) == e.receiver@
    &&& spec_u64_from_le_bytes(s.subrange(64, 72)) == e.amount
    &&& s[72] == flag_byte(e.is_released)
    &&& s[73] == e.bump
    &&& s.subrange(74, 106) == e.client_multisig@
    &&& s[106] == flag_byte(e.has_multisig)
}

/// Bytes that decode to an escrow.
pub open spec fn escrow_shape(s: Seq<u8>) -> bool {
    s.len() == 112 && s[72] <= 1 && s[106] <= 1
}

impl Escrow {
    /// Decodes a stored escrow.
    pub fn from_bytes(data: &[u8]) -> (r: Result<Escrow, ProgramFailure>)
        ensures
            r is Ok <==> escrow_shape(data@),
            r matches Ok(e) ==> escrow_layout(e, data@),
            r matches Err(f) ==> f == ProgramFailure::InvalidAccountData,
    {
        if data.len() != 112 {
            return Err(ProgramFailure::InvalidAccountData);
        }
        let is_released = match read_flag(data, 72) {
            Some(b) => b,
            None => {
                return Err(ProgramFailure::InvalidAccountData);
            },
        };
        let has_multisig = match read_flag(data, 106) {
            Some(b) => b,
            None => {
                return Err(ProgramFailure::InvalidAccountData);
            },
        };
        Ok(Escrow {
            sender: read_key(data, 0),
            receiver: read_key(data, 32),
            amount: read_u64(data, 64),
            is_released,
            bump: data[73],
            client_multisig: read_key(data, 74),
            has_multisig,
        })
    }

    /// Encodes the escrow in its stored form, with zero padding.
    pub fn to_bytes(&self) -> (r: Vec<u8>)
        ensures
            escrow_layout(*self, r@),
            r@.subrange(107, 112) == zeros(5),
    {
        let mut out: Vec<u8> = Vec::new();
        push_key(&mut out, &self.sender);
        push_key(&mut out, &self.receiver);
        push_u64(&mut out, self.amount);
        out.push(if self.is_released { 1u8 } else { 0u8 });
        out.push(self.bump);
        push_key(&mut out, &self.client_multisig);
        out.push(if self.has_multisig { 1u8 } else { 0u8 });
        push_zeros(&mut out, 5);
        proof {
            lemma_auto_spec_u64_to_from_le_bytes();
            assert(out@.subrange(0, 32) =~= self.sender@);
            assert(out@.subrange(32, 64) =~= self.receiver@);
            assert(out@.subrange(64, 72) =~= spec_u64_to_le_bytes(self.amount));
            assert(out@.subrange(74, 106) =~= self.client_multisig@);
            assert(out@.subrange(107, 112) =~= zeros(5));
        }
        out
    }
}

/// An N-of-M approval ledger of a client, reusable across escrows.
#[derive(Clone, Copy, Debug, PartialEq)]
pub struct ClientMultisig {
    /// The members, in approval-index order; only the first `member_count`
    /// are active.
    pub members: [Pubkey; 5],
    pub member_count: u8,
    /// How many approvals release the pending escrow.
    pub threshold: u8,
    /// 1 where the member at that index approved, 0 otherwise.
    pub approvals: [u8; 5],
    /// The escrow under approval, or all zeros when there is none.
    pub pending_escrow: Pubkey,
    pub bump: u8,
}

impl DataLen for ClientMultisig {
    const LEN: usize = 200;
}

/// The stored form of a multisig: five member keys at 0, the member count
/// at 160, the threshold at 161, five approval bytes at 162, the pending
/// escrow at 167 and the bump at 199.
pub open spec fn multisig_layout(m: ClientMultisig, s: Seq<u8>) -> bool {
    &&& s.len() == 200
    &&& forall|i: int|
        0 <= i < 5 ==> #[trigger] m.members@[i]@ == s.subrange(32 * i, 32 * i + 32)
    &&& s[160] == m.member_count
    &&& s[161] == m.threshold
    &&& s.subrange(162, 167) == m.approvals@
    &&& s.subrange(167, 199) == m.pending_escrow@
    &&& s[199] == m.bump
}

/// Bytes that decode to a multisig: the member count fits the member array
/// and every approval byte is 0 or 1.
pub open spec fn multisig_shape(s: Seq<u8>) -> bool {
    &&& s.len() == 200
    &&& s[160] <= 5
    &&& forall|i: int| 162 <= i < 167 ==> s[i] <= 1
}

impl ClientMultisig {
    /// The member count fits the member array.
    pub open spec fn wf(self) -> bool {
        self.member_count <= 5
    }

    /// Decodes a stored multisig.
    pub fn from_bytes(data: &[u8]) -> (r: Result<ClientMultisig, ProgramFailure>)
        ensures
            r is Ok <==> multisig_shape(data@),
            r matches Ok(m) ==> multisig_layout(m, data@) && m.wf(),
            r matches Err(f) ==> f == ProgramFailure::InvalidAccountData,
    {
        if data.len() != 200 || data[160] as usize > MAX_MULTISIG_MEMBERS {
            return Err(ProgramFailure::InvalidAccountData);
        }
        let mut members: [Pubkey; 5] = [[0u8; 32]; 5];
        let mut i: usize = 0;
        while i < 5
            invariant
                i <= 5,
                data@.len() == 200,
                members@.len() == 5,
                forall|j: int| 0 <= j < i ==> #[trigger] members@[j]@ == data@.subrange(32 * j, 32 * j + 32),
            decreases 5 - i,
        {
            members[i] = read_key(data, 32 * i);
            i = i + 1;
        }
        let mut approvals: [u8; 5] = [0u8; 5];
        let mut k: usize = 0;
        while k < 5
            invariant
                k <= 5,
                data@.len() == 200,
                approvals@.len() == 5,
                data@[160] <= 5,
                forall|j: int| 0 <= j < k ==> approvals@[j] == data@[162 + j],
                forall|j: int| 162 <= j < 162 + k ==> data@[j] <= 1,
            decreases 5 - k,
        {
            if data[162 + k] > 1 {
                return Err(ProgramFailure::InvalidAccountData);
            }
            approvals[k] = data[162 + k];
            k = k + 1;
        }
        assert(approvals@ =~= data@.subrange(162, 167));
        Ok(ClientMultisig {
            members,
            member_count: data[160],
            threshold: data[161],
            approvals,
            pending_escrow: read_key(data, 167),
            bump: data[199],
        })
    }

    /// Encodes the multisig in its stored form.
    pub fn to_bytes(&self) -> (r: Vec<u8>)
        ensures
            multisig_layout(*self, r@),
    {
        let mut out: Vec<u8> = Vec::new();
        let mut i: usize = 0;
        while i < 5
            invariant
                i <= 5,
                self.members@.len() == 5,
                out@.len() == 32 * i,
                forall|j: int| 0 <= j < i ==> #[trigger] self.members@[j]@ == out@.subrange(32 * j, 32 * j + 32),
            decreases 5 - i,
        {
            let ghost before = out@;
            push_key(&mut out, &self.members[i]);
            assert forall|j: int| 0 <= j <= i implies #[trigger] self.members@[j]@ == out@.subrange(32 * j, 32 * j + 32) by {
                if j < i {
                    assert(out@.subrange(32 * j, 32 * j + 32) =~= before.subrange(32 * j, 32 * j + 32));
                } else {
                    assert(out@.subrange(32 * j, 32 * j + 32) =~= self.members@[j]@);
                }
            }
            i = i + 1;
        }
        let ghost keys = out@;
        out.push(self.member_count);
        out.push(self.threshold);
        let mut k: usize = 0;
        while k < 5
            invariant
                k <= 5,
                self.approvals@.len() == 5,
                out@.len() == 162 + k,
                out@.subrange(0, 160) == keys,
                out@[160] == self.member_count,
                out@[161] == self.threshold,
                forall|j: int| 0 <= j < k ==> out@[162 + j] == self.approvals@[j],
            decreases 5 - k,
        {
            out.push(self.approvals[k]);
            assert(out@.subrange(0, 160) =~= keys);
            k = k + 1;
        }
        push_key(&mut out, &self.pending_escrow);
        out.push(self.bump);
        proof {
            assert(out@.subrange(0, 160) =~= keys);
            assert forall|j: int| 0 <= j < 5 implies #[trigger] self.members@[j]@ == out@.subrange(32 * j, 32 * j + 32) by {
                assert(out@.subrange(32 * j, 32 * j + 32) =~= keys.subrange(32 * j, 32 * j + 32));
            }
            assert(out@.subrange(162, 167) =~= self.approvals@);
            assert(out@.subrange(167, 199) =~= self.pending_escrow@);
        }
        out
    }
}

/// Completed-escrow counter of a receiving identity.
#[derive(Clone, Copy, Debug, PartialEq)]
pub struct UserStats {
    pub user: Pubkey,
    pub completed_escrows: u32,
    pub bump: u8,
}

impl DataLen for UserStats {
    const LEN: usize = 40;
}

/// The stored form of user stats: the user at 0, the counter at 32, the
/// bump at 36, and three bytes of padding.
pub open spec fn user_stats_layout(u: UserStats, s: Seq<u8>) -> bool {
    &&& s.len() == 40
    &&& s.subrange(0, 32) == u.user@
    &&& spec_u32_from_le_bytes(s.subrange(32, 36)) == u.completed_escrows
    &&& s[36] == u.bump
}

impl UserStats {
    /// Decodes stored user stats.
    pub fn from_bytes(data: &[u8]) -> (r: Result<UserStats, ProgramFailure>)
        ensures
            r is Ok <==> data@.len() == 40,
            r matches Ok(u) ==> user_stats_layout(u, data@),
            r matches Err(f) ==> f == ProgramFailure::InvalidAccountData,
    {
        if data.len() != 40 {
            return Err(ProgramFailure::InvalidAccountData);
        }
        Ok(UserStats { user: read_key(data, 0), completed_escrows: read_u32(data, 32), bump: data[36] })
    }

    /// Encodes the stats in their stored form, with zero padding.
    pub fn to_bytes(&self) -> (r: Vec<u8>)
        ensures
            user_stats_layout(*self, r@),
            r@.subrange(37, 40) == zeros(3),
    {
        let mut out: Vec<u8> = Vec::new();
        push_key(&mut out, &self.user);
        push_u32(&mut out, self.completed_escrows);
        out.push(self.bump);
        push_zeros(&mut out, 3);
        proof {
            lemma_auto_spec_u32_to_from_le_bytes();
            assert(out@.subrange(0, 32) =~= self.user@);
            assert(out@.subrange(32, 36) =~= spec_u32_to_le_bytes(self.completed_escrows));
            assert(out@.subrange(37, 40) =~= zeros(3));
        }
        out
    }
}

/// The reputation tiers, in increasing order.
#[derive(Clone, Copy, PartialEq, Eq, PartialOrd, Ord, Debug, Structural)]
pub enum ReputationTier {
    Unranked,
    Verified,
    Professional,
    Elite,
}

impl DataLen for ReputationTier {
    const LEN: usize = 1;
}

impl ReputationTier {
    /// The tier's position in the order, which is also its stored byte.
    pub open spec fn spec_rank(self) -> u8 {
        match self {
            ReputationTier::Unranked => 0,
            ReputationTier::Verified => 1,
            ReputationTier::Professional => 2,
            ReputationTier::Elite => 3,
        }
    }

    pub fn rank(&self) -> (r: u8)
        ensures
            r == self.spec_rank(),
    {
        match self {
            ReputationTier::Unranked => 0,
            ReputationTier::Verified => 1,
            ReputationTier::Professional => 2,
            ReputationTier::Elite => 3,
        }
    }

    /// The tier stored as `b`, if any.
    pub fn from_rank(b: u8) -> (r: Option<ReputationTier>)
        ensures
            r is Some <==> b <= 3,
            r matches Some(t) ==> t.spec_rank() == b,
    {
        if b == 0 {
            Some(ReputationTier::Unranked)
        } else if b == 1 {
            Some(ReputationTier::Verified)
        } else if b == 2 {
            Some(ReputationTier::Professional)
        } else if b == 3 {
            Some(ReputationTier::Elite)
        } else {
            None
        }
    }
}

/// A freelancer's reputation record.
#[derive(Clone, Copy, Debug, PartialEq)]
pub struct FreelancerBadge {
    pub tier: ReputationTier,
    pub completed_escrows: u32,
    pub total_value_completed: u64,
    pub freelancer: Pubkey,
    pub bump: u8,
}

impl DataLen for FreelancerBadge {
    const LEN: usize = 56;
}

/// The stored form of a badge: the tier at 0, three bytes of padding, the
/// counter at 4, the total value at 8, the freelancer at 16, the bump at 48,
/// and seven bytes of padding.
pub open spec fn badge_layout(b: FreelancerBadge, s: Seq<u8>) -> bool {
    &&& s.len() == 56
    &&& s[0] == b.tier.spec_rank()
    &&& spec_u32_from_le_bytes(s.subrange(4, 8)) == b.completed_escrows
    &&& spec_u64_from_le_bytes(s.subrange(8, 16)) == b.total_value_completed
    &&& s.subrange(16, 48) == b.freelancer@
    &&& s[48] == b.bump
}

impl FreelancerBadge {
    /// Decodes a stored badge.
    pub fn from_bytes(data: &[u8]) -> (r: Result<FreelancerBadge, ProgramFailure>)
        ensures
            r is Ok <==> (data@.len() == 56 && data@[0] <= 3),
            r matches Ok(b) ==> badge_layout(b, data@),
            r matches Err(f) ==> f == ProgramFailure::InvalidAccountData,
    {
        if data.len() != 56 {
            return Err(ProgramFailure::InvalidAccountData);
        }
        let tier = match ReputationTier::from_rank(data[0]) {
            Some(t) => t,
            None => {
                return Err(ProgramFailure::InvalidAccountData);
            },
        };
        Ok(FreelancerBadge {
            tier,
            completed_escrows: read_u32(data, 4),
            total_value_completed: read_u64(data, 8),
            freelancer: read_key(data, 16),
            bump: data[48],
        })
    }

    /// Encodes the badge in its stored form, with zero padding.
    pub fn to_bytes(&self) -> (r: Vec<u8>)
        ensures
            badge_layout(*self, r@),
    {
        let mut out: Vec<u8> = Vec::new();
        out.push(self.tier.rank());
        push_zeros(&mut out, 3);
        push_u32(&mut out, self.completed_escrows);
        push_u64(&mut out, self.total_value_completed);
        push_key(&mut out, &self.freelancer);
        out.push(self.bump);
        push_zeros(&mut out, 7);
        proof {
            lemma_auto_spec_u32_to_from_le_bytes();
            lemma_auto_spec_u64_to_from_le_bytes();
            assert(out@.subrange(4, 8) =~= spec_u32_to_le_bytes(self.completed_escrows));
            assert(out@.subrange(8, 16) =~= spec_u64_to_le_bytes(self.total_value_completed));
            assert(out@.subrange(16, 48) =~= self.freelancer@);
        }
        out
    }
}

} // verus!
