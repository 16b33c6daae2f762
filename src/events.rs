use vstd::prelude::*;
use crate::address::Address;
use crate::governance::ProposalType;

verus! {

/// A transfer with its fee, burn and price impact.
#[derive(Clone, Copy, Debug)]
pub struct TokenTransfer {
    pub from: Address,
    pub to: Address,
    pub amount: u64,
    pub fee: u64,
    pub burned: u64,
    pub timestamp: i64,
    pub price_impact_bps: i16,
}

/// Announces a new proposal and its voting window.
#[derive(Clone, Copy, Debug)]
pub struct ProposalCreated {
    pub proposal_id: u64,
    pub proposer: Address,
    pub proposal_type: ProposalType,
    pub start_time: i64,
    pub end_time: i64,
}

/// Announces a counted vote.
#[derive(Clone, Copy, Debug)]
pub struct VoteCast {
    pub proposal_id: u64,
    pub voter: Address,
    pub vote_amount: u64,
    pub support: bool,
    pub timestamp: i64,
}

} // verus!
