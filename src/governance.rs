use vstd::prelude::*;
use vstd::utf8::encode_utf8;
use crate::address::Address;
use crate::error::MemeTokenError;
use crate::events::{ProposalCreated, VoteCast};
use vstd::arithmetic::div_mod::{lemma_div_multiples_vanish, lemma_fundamental_div_mod, lemma_mod_pos_bound};

verus! {

/// Length of a proposal's voting window, in seconds (three days).
pub const PROPOSAL_VOTING_PERIOD: i64 = 3 * 24 * 60 * 60;

/// Most proposals each list of the governance configuration can hold.
pub const MAX_PROPOSALS: usize = 100;

/// Most voters a proposal can record.
pub const MAX_VOTERS: usize = 1000;

/// Most bytes a proposal's description can take, in UTF-8.
pub const MAX_DESCRIPTION_LEN: usize = 200;

/// Basis points in a whole.
pub const BPS_DENOMINATOR: u64 = 10000;

/// The parameter a proposal would change, with its new value in basis points.
#[derive(Clone, Copy, Debug, PartialEq, Eq, Structural)]
pub enum ProposalType {
    UpdateFees { new_fee_bps: u16 },
    UpdateBurnRate { new_burn_bps: u16 },
    UpdateRewardRate { new_reward_bps: u16 },
    UpdateMaxWallet { new_max_wallet_bps: u16 },
    UpdateMaxTransaction { new_max_tx_bps: u16 },
}

#[derive(Clone, Copy, Debug, PartialEq, Eq, Structural)]
pub enum ProposalStatus {
    Active,
    Succeeded,
    Failed,
    Executed,
}

/// Governance settings and the proposals made so far.
#[derive(Clone, Debug)]
pub struct GovernanceConfig {
    pub proposals: Vec<Address>,
    pub executed_proposals: Vec<Address>,
    pub proposal_count: u64,
    /// Share of the total supply, in basis points, a proposer must hold.
    pub min_proposal_threshold_bps: u16,
    /// Share of the total supply, in basis points, that must take part in a vote.
    pub min_quorum_bps: u16,
}

#[derive(Clone, Debug)]
pub struct Proposal {
    pub id: u64,
    pub proposer: Address,
    pub description: String,
    pub proposal_type: ProposalType,
    pub status: ProposalStatus,
    pub start_time: i64,
    pub end_time: i64,
    pub for_votes: u64,
    pub against_votes: u64,
    pub executed: bool,
    /// Everyone who has voted, each once.
    pub voters: Vec<Address>,
}

/// The accounts of a proposal's creation. `proposal_key` is the address
/// under which the new proposal is stored.
pub struct CreateProposal {
    pub proposer: Address,
    pub proposer_token_amount: u64,
    pub total_supply: u64,
    pub governance_config: GovernanceConfig,
    pub proposal_key: Address,
}

/// The accounts of a vote: the voter, the voter's balance now, and the proposal.
pub struct Vote {
    pub voter: Address,
    pub voter_token_amount: u64,
    pub proposal: Proposal,
}

impl GovernanceConfig {
    pub open spec fn wf(&self) -> bool {
        &&& self.proposals.len() <= MAX_PROPOSALS
        &&& self.executed_proposals.len() <= MAX_PROPOSALS
        &&& self.min_proposal_threshold_bps <= BPS_DENOMINATOR
        &&& self.min_quorum_bps <= BPS_DENOMINATOR
    }
}

/// Whether `balance` is a large enough share of `supply` to propose:
/// `balance * 10000 / supply >= threshold_bps`.
pub open spec fn meets_proposal_threshold(balance: int, supply: int, threshold_bps: int) -> bool {
    balance * BPS_DENOMINATOR / supply >= threshold_bps
}

/// Why creating a proposal fails, if it does.
pub open spec fn create_error(
    config: GovernanceConfig,
    balance: u64,
    supply: u64,
    description: Seq<char>,
    now: i64,
) -> Option<MemeTokenError> {
    if !meets_proposal_threshold(balance as int, supply as int, config.min_proposal_threshold_bps as int) {
        Some(MemeTokenError::InsufficientProposalTokens)
    } else if encode_utf8(description).len() > MAX_DESCRIPTION_LEN {
        Some(MemeTokenError::CapacityExceeded)
    } else if config.proposals.len() >= MAX_PROPOSALS {
        Some(MemeTokenError::CapacityExceeded)
    } else if now + PROPOSAL_VOTING_PERIOD > i64::MAX || config.proposal_count == u64::MAX {
        Some(MemeTokenError::ArithmeticOverflow)
    } else {
        None
    }
}

/// Whether `who` has already voted on `p`.
pub open spec fn has_voted(p: Proposal, who: Seq<u8>) -> bool {
    exists|i: int| 0 <= i < p.voters.len() && (#[trigger] p.voters@[i])@ == who
}

/// Whether `now` lies in the voting window of `p`, both ends included.
pub open spec fn in_window(p: Proposal, now: i64) -> bool {
    p.start_time <= now <= p.end_time
}

/// Why a vote fails, if it does; the first failing check decides.
pub open spec fn vote_error(p: Proposal, voter: Seq<u8>, weight: u64, support: bool, now: i64) -> Option<
    MemeTokenError,
> {
    if !in_window(p, now) {
        Some(MemeTokenError::InvalidVotingPeriod)
    } else if has_voted(p, voter) {
        Some(MemeTokenError::AlreadyVoted)
    } else if (if support {
        p.for_votes + weight
    } else {
        p.against_votes + weight
    }) > u64::MAX {
        Some(MemeTokenError::ArithmeticOverflow)
    } else if p.voters.len() >= MAX_VOTERS {
        Some(MemeTokenError::CapacityExceeded)
    } else {
        None
    }
}

/// `post` is `pre` with one vote of `weight` from `voter` counted.
pub open spec fn voted(pre: Proposal, post: Proposal, voter: Address, weight: u64, support: bool) -> bool {
    &&& post.id == pre.id
    &&& post.proposer == pre.proposer
    &&& post.description == pre.description
    &&& post.proposal_type == pre.proposal_type
    &&& post.status == pre.status
    &&& post.start_time == pre.start_time
    &&& post.end_time == pre.end_time
    &&& post.executed == pre.executed
    &&& post.voters@ == pre.voters@.push(voter)
    &&& if support {
        post.for_votes == pre.for_votes + weight && post.against_votes == pre.against_votes
    } else {
        post.for_votes == pre.for_votes && post.against_votes == pre.against_votes + weight
    }
}

/// How a vote that has closed ends: it succeeds when more voted for than
/// against and the turnout reaches the quorum share of the supply.
pub open spec fn closed_outcome(for_votes: int, against_votes: int, supply: int, quorum_bps: int) -> ProposalStatus {
    if for_votes > against_votes && (for_votes + against_votes) * BPS_DENOMINATOR / supply >= quorum_bps {
        ProposalStatus::Succeeded
    } else {
        ProposalStatus::Failed
    }
}

impl Proposal {
    /// The proposal's invariant: a bounded voter list, each voter once.
    pub open spec fn wf(&self) -> bool {
        &&& self.voters.len() <= MAX_VOTERS
        &&& forall|i: int, j: int|
            0 <= i < j < self.voters.len() ==> (#[trigger] self.voters@[i])@
                != (#[trigger] self.voters@[j])@
    }

    /// Whether `who` is among the voters.
    fn has_voter(&self, who: &Address) -> (r: bool)
        ensures
            r == has_voted(*self, who@),
    {
        let mut i: usize = 0;
        while i < self.voters.len()
            invariant
                0 <= i <= self.voters.len(),
                forall|j: int| 0 <= j < i ==> (#[trigger] self.voters@[j])@ != who@,
            decreases self.voters.len() - i,
        {
            if self.voters[i].same_as(who) {
                return true;
            }
            i = i + 1;
        }
        false
    }

    /// The status the proposal reaches under the quorum rule, once its
    /// window has closed (`now > end_time`); `None` while it is open.
    pub fn outcome(&self, total_supply: u64, min_quorum_bps: u16, now: i64) -> (r: Option<ProposalStatus>)
        requires
            total_supply > 0,
        ensures
            now <= self.end_time ==> r is None,
            now > self.end_time ==> r == Some(
                closed_outcome(
                    self.for_votes as int,
                    self.against_votes as int,
                    total_supply as int,
                    min_quorum_bps as int,
                ),
            ),
    {
        if now <= self.end_time {
            return None;
        }
        let turnout: u128 = self.for_votes as u128 + self.against_votes as u128;
        let share: u128 = turnout * (BPS_DENOMINATOR as u128) / (total_supply as u128);
        if self.for_votes > self.against_votes && share >= min_quorum_bps as u128 {
            Some(ProposalStatus::Succeeded)
        } else {
            Some(ProposalStatus::Failed)
        }
    }
}

/// Once a voter's vote has been counted, any further vote from the same
/// voter on that proposal inside its window fails with `AlreadyVoted`,
/// whatever side it takes and whatever balance it carries.
pub proof fn lemma_second_vote_rejected(
    pre: Proposal,
    post: Proposal,
    voter: Address,
    weight: u64,
    support: bool,
    later_weight: u64,
    later_support: bool,
    later_now: i64,
)
    requires
        voted(pre, post, voter, weight, support),
        in_window(post, later_now),
    ensures
        vote_error(post, voter@, later_weight, later_support, later_now)
            == Some(MemeTokenError::AlreadyVoted),
{
    let last = pre.voters.len() as int;
    assert(post.voters@[last] == voter);
    assert(has_voted(post, voter@));
}

/// A proposer holding exactly `supply * threshold_bps / 10000` may propose,
/// and one unit less may not, where that share is a whole number of tokens
/// and nothing else stands in the way (a description within bounds, room for
/// the proposal, a window and a counter that fit their types).
pub proof fn lemma_proposal_threshold_boundary(
    config: GovernanceConfig,
    supply: u64,
    description: Seq<char>,
    now: i64,
)
    requires
        supply > 0,
        config.wf(),
        (supply * config.min_proposal_threshold_bps) % (BPS_DENOMINATOR as int) == 0,
        encode_utf8(description).len() <= MAX_DESCRIPTION_LEN,
        config.proposals.len() < MAX_PROPOSALS,
        config.proposal_count < u64::MAX,
        now + PROPOSAL_VOTING_PERIOD <= i64::MAX,
    ensures
        ({
            let boundary = supply * config.min_proposal_threshold_bps / (BPS_DENOMINATOR as int);
            &&& create_error(config, boundary as u64, supply, description, now) is None
            &&& boundary >= 1 ==> create_error(config, (boundary - 1) as u64, supply, description, now)
                == Some(MemeTokenError::InsufficientProposalTokens)
        }),
{
    let s = supply as int;
    let t = config.min_proposal_threshold_bps as int;
    let d = BPS_DENOMINATOR as int;
    let b = s * t / d;
    lemma_fundamental_div_mod(s * t, d);
    assert(b * d == s * t);
    assert(0 <= b <= s) by (nonlinear_arith)
        requires b * d == s * t, 0 <= t <= d, d == 10000, s > 0;
    lemma_div_multiples_vanish(t, s);
    assert(b * d / s == t);
    if b >= 1 {
        let x = (b - 1) * d;
        assert(x == s * t - d) by (nonlinear_arith)
            requires b * d == s * t, x == (b - 1) * d;
        lemma_fundamental_div_mod(x, s);
        lemma_mod_pos_bound(x, s);
        let q = x / s;
        assert(q < t) by (nonlinear_arith)
            requires x == s * q + x % s, x % s >= 0, x == s * t - d, d > 0, s > 0;
    }
}

/// The window includes its last second and nothing after it: a fresh voter
/// is counted at `end_time` and refused with `InvalidVotingPeriod` one
/// second later.
pub proof fn lemma_window_boundary(p: Proposal, voter: Address, weight: u64, support: bool)
    requires
        p.start_time <= p.end_time < i64::MAX,
        !has_voted(p, voter@),
        p.voters.len() < MAX_VOTERS,
        (if support {
            p.for_votes + weight
        } else {
            p.against_votes + weight
        }) <= u64::MAX,
    ensures
        vote_error(p, voter@, weight, support, p.end_time) is None,
        vote_error(p, voter@, weight, support, (p.end_time + 1) as i64)
            == Some(MemeTokenError::InvalidVotingPeriod),
{
}

/// Opens a new proposal for the proposer of `ctx` at `now`: it takes the next
/// id, is active, and can be voted on from `now` to
/// `now + PROPOSAL_VOTING_PERIOD`. Its address is recorded among the
/// proposals and the counter moves on. Returns the proposal and the event
/// that announces it.
pub fn create_proposal(
    ctx: &mut CreateProposal,
    description: String,
    proposal_type: ProposalType,
    now: i64,
) -> (r: Result<(Proposal, ProposalCreated), MemeTokenError>)
    requires
        old(ctx).total_supply > 0,
    ensures
        old(ctx).governance_config.wf() ==> final(ctx).governance_config.wf(),
        match r {
            Ok((p, ev)) => {
                let gc = old(ctx).governance_config;
                &&& create_error(
                    gc,
                    old(ctx).proposer_token_amount,
                    old(ctx).total_supply,
                    description@,
                    now,
                ) is None
                &&& p.id == gc.proposal_count
                &&& p.proposer == old(ctx).proposer
                &&& p.description == description
                &&& p.proposal_type == proposal_type
                &&& p.status == ProposalStatus::Active
                &&& p.start_time == now
                &&& p.end_time == now + PROPOSAL_VOTING_PERIOD
                &&& p.for_votes == 0
                &&& p.against_votes == 0
                &&& !p.executed
                &&& p.voters@.len() == 0
                &&& ev == (ProposalCreated {
                    proposal_id: p.id,
                    proposer: p.proposer,
                    proposal_type,
                    start_time: p.start_time,
                    end_time: p.end_time,
                })
                &&& final(ctx).governance_config.proposals@ == gc.proposals@.push(old(ctx).proposal_key)
                &&& final(ctx).governance_config.proposal_count == gc.proposal_count + 1
                &&& final(ctx).governance_config.executed_proposals == gc.executed_proposals
                &&& final(ctx).governance_config.min_proposal_threshold_bps == gc.min_proposal_threshold_bps
                &&& final(ctx).governance_config.min_quorum_bps == gc.min_quorum_bps
                &&& final(ctx).proposer == old(ctx).proposer
                &&& final(ctx).proposer_token_amount == old(ctx).proposer_token_amount
                &&& final(ctx).total_supply == old(ctx).total_supply
                &&& final(ctx).proposal_key == old(ctx).proposal_key
            },
            Err(e) => {
                &&& create_error(
                    old(ctx).governance_config,
                    old(ctx).proposer_token_amount,
                    old(ctx).total_supply,
                    description@,
                    now,
                ) == Some(e)
                &&& *final(ctx) == *old(ctx)
            },
        },
{
    let gc = &ctx.governance_config;
    let share: u128 = (ctx.proposer_token_amount as u128) * (BPS_DENOMINATOR as u128) / (
    ctx.total_supply as u128);
    if share < gc.min_proposal_threshold_bps as u128 {
        return Err(MemeTokenError::InsufficientProposalTokens);
    }
    if description.as_str().as_bytes().len() > MAX_DESCRIPTION_LEN {
        return Err(MemeTokenError::CapacityExceeded);
    }
    if gc.proposals.len() >= MAX_PROPOSALS {
        return Err(MemeTokenError::CapacityExceeded);
    }
    if now as i128 + PROPOSAL_VOTING_PERIOD as i128 > i64::MAX as i128 || gc.proposal_count
        == u64::MAX {
        return Err(MemeTokenError::ArithmeticOverflow);
    }
    let proposal = Proposal {
        id: gc.proposal_count,
        proposer: ctx.proposer,
        description,
        proposal_type,
        status: ProposalStatus::Active,
        start_time: now,
        end_time: now + PROPOSAL_VOTING_PERIOD,
        for_votes: 0,
        against_votes: 0,
        executed: false,
        voters: Vec::new(),
    };
    let event = ProposalCreated {
        proposal_id: proposal.id,
        proposer: proposal.proposer,
        proposal_type,
        start_time: proposal.start_time,
        end_time: proposal.end_time,
    };
    ctx.governance_config.proposals.push(ctx.proposal_key);
    ctx.governance_config.proposal_count = ctx.governance_config.proposal_count + 1;
    Ok((proposal, event))
}

/// Counts the vote of the voter of `ctx` at `now`, weighted by the voter's
/// balance, for the proposal when `support` holds and against it otherwise.
/// Returns the event that announces the vote.
pub fn vote(ctx: &mut Vote, support: bool, now: i64) -> (r: Result<VoteCast, MemeTokenError>)
    ensures
        final(ctx).voter == old(ctx).voter,
        final(ctx).voter_token_amount == old(ctx).voter_token_amount,
        old(ctx).proposal.wf() ==> final(ctx).proposal.wf(),
        match r {
            Ok(ev) => {
                &&& vote_error(
                    old(ctx).proposal,
                    old(ctx).voter@,
                    old(ctx).voter_token_amount,
                    support,
                    now,
                ) is None
                &&& voted(
                    old(ctx).proposal,
                    final(ctx).proposal,
                    old(ctx).voter,
                    old(ctx).voter_token_amount,
                    support,
                )
                &&& ev == (VoteCast {
                    proposal_id: old(ctx).proposal.id,
                    voter: old(ctx).voter,
                    vote_amount: old(ctx).voter_token_amount,
                    support,
                    timestamp: now,
                })
            },
            Err(e) => {
                &&& vote_error(
                    old(ctx).proposal,
                    old(ctx).voter@,
                    old(ctx).voter_token_amount,
                    support,
                    now,
                ) == Some(e)
                &&& *final(ctx) == *old(ctx)
            },
        },
{
    if now < ctx.proposal.start_time || now > ctx.proposal.end_time {
        return Err(MemeTokenError::InvalidVotingPeriod);
    }
    if ctx.proposal.has_voter(&ctx.voter) {
        return Err(MemeTokenError::AlreadyVoted);
    }
    let weight = ctx.voter_token_amount;
    let tally = if support {
        ctx.proposal.for_votes
    } else {
        ctx.proposal.against_votes
    };
    let new_tally: u64 = match tally.checked_add(weight) {
        Some(v) => v,
        None => return Err(MemeTokenError::ArithmeticOverflow),
    };
    if ctx.proposal.voters.len() >= MAX_VOTERS {
        return Err(MemeTokenError::CapacityExceeded);
    }
    if support {
        ctx.proposal.for_votes = new_tally;
    } else {
        ctx.proposal.against_votes = new_tally;
    }
    ctx.proposal.voters.push(ctx.voter);
    Ok(VoteCast {
        proposal_id: ctx.proposal.id,
        voter: ctx.voter,
        vote_amount: weight,
        support,
        timestamp: now,
    })
}

} // verus!
