use vstd::prelude::*;
use vstd::std_specs::convert::{FromSpec, TryFromSpec};
use crate::encoding::bytes_eq;
use crate::numeric::{
    checked_pow10, floor_sqrt, is_floor_sqrt, isqrt, lemma_floor_sqrt_is_root,
    lemma_floor_sqrt_monotone, lemma_pow10_monotone, pow10,
};

verus! {

/// The longest name or metadata text, in bytes, is one below this.
pub const MAX_TEXT_BYTES: usize = 500;

/// Why a voting instruction was refused.
#[derive(Clone, Copy, Debug, PartialEq, Eq, Structural)]
pub enum QuadraticVotingError {
    DefaultError,
    Overflow,
    Underflow,
    InvalidVoteType,
    InvalidDao,
    UnauthorizedProposalCreation,
    InvalidMint,
    InvalidTokenAccount,
    StringTooLong,
    ProposalNotActive,
}

/// A vote against or for a proposal; stored as 0 and 1.
#[derive(Clone, Copy, Debug, PartialEq, Eq, Structural)]
pub enum VoteType {
    No,
    Yes,
}

/// Where a proposal stands: open for votes, or decided.
#[derive(Clone, Copy, Debug, PartialEq, Eq, Structural)]
pub enum ProposalState {
    Active,
    Passed,
    Rejected,
}

/// An organisation whose token holders vote: its authority, the mint whose
/// tokens count, its name, and how many proposals it has seen.
#[derive(Clone, Debug, PartialEq, Eq)]
pub struct Dao {
    pub authority: [u8; 32],
    pub mint: [u8; 32],
    pub name: String,
    pub proposal_count: u64,
    pub bump: u8,
}

/// A proposal of a DAO, with the credits cast for and against it.
#[derive(Clone, Debug, PartialEq, Eq)]
pub struct Proposal {
    pub authority: [u8; 32],
    pub dao: [u8; 32],
    pub proposal_id: u64,
    pub metadata: String,
    pub yes_vote_count: u64,
    pub no_vote_count: u64,
    pub state: ProposalState,
    pub bump: u8,
}

/// The record of one vote: who cast it, for which side, with how many
/// credits.
#[derive(Clone, Copy, Debug, PartialEq, Eq)]
pub struct Vote {
    pub authority: [u8; 32],
    pub vote_type: u8,
    pub vote_credits: u64,
    pub bump: u8,
}

/// Who founds a DAO, over which mint, at which bump.
#[derive(Clone, Debug, PartialEq, Eq)]
pub struct InitDao {
    pub creator: [u8; 32],
    pub mint: [u8; 32],
    pub dao_bump: u8,
}

/// Who opens a proposal in which DAO, at which bump.
#[derive(Clone, Debug, PartialEq, Eq)]
pub struct InitProposal {
    pub creator: [u8; 32],
    pub dao_key: [u8; 32],
    pub dao: Dao,
    pub proposal_bump: u8,
}

/// Who closes the vote on which proposal of which DAO.
#[derive(Clone, Debug, PartialEq, Eq)]
pub struct FinalizeProposal {
    pub creator: [u8; 32],
    pub dao_key: [u8; 32],
    pub dao: Dao,
    pub proposal: Proposal,
}

/// Who votes on which proposal, and with how many tokens of which mint.
#[derive(Clone, Debug, PartialEq, Eq)]
pub struct CastVote {
    pub voter: [u8; 32],
    pub mint: [u8; 32],
    pub mint_decimals: u8,
    pub dao: Dao,
    pub proposal: Proposal,
    pub voter_token_amount: u64,
    pub vote_bump: u8,
}

/// The length of a text in bytes, as UTF-8.
pub open spec fn byte_len(text: Seq<char>) -> usize {
    vstd::utf8::encode_utf8(text).len() as usize
}

impl QuadraticVotingError {
    pub open spec fn spec_message(&self) -> Seq<char> {
        match self {
            QuadraticVotingError::DefaultError => "DefaultError"@,
            QuadraticVotingError::Overflow => "Overflow detected."@,
            QuadraticVotingError::Underflow => "Underflow detected."@,
            QuadraticVotingError::InvalidVoteType => "Invalid vote type."@,
            QuadraticVotingError::InvalidDao => "Invalid DAO."@,
            QuadraticVotingError::UnauthorizedProposalCreation =>
                "Only the DAO authority can create proposals."@,
            QuadraticVotingError::InvalidMint => "Invalid mint."@,
            QuadraticVotingError::InvalidTokenAccount => "Invalid token accoung."@,
            QuadraticVotingError::StringTooLong => "String too long."@,
            QuadraticVotingError::ProposalNotActive => "Proposal voting not active."@,
        }
    }

    /// The text that goes with the error.
    pub fn message(&self) -> (text: &'static str)
        ensures
            text@ == self.spec_message(),
    {
        match self {
            QuadraticVotingError::DefaultError => "DefaultError",
            QuadraticVotingError::Overflow => "Overflow detected.",
            QuadraticVotingError::Underflow => "Underflow detected.",
            QuadraticVotingError::InvalidVoteType => "Invalid vote type.",
            QuadraticVotingError::InvalidDao => "Invalid DAO.",
            QuadraticVotingError::UnauthorizedProposalCreation =>
                "Only the DAO authority can create proposals.",
            QuadraticVotingError::InvalidMint => "Invalid mint.",
            QuadraticVotingError::InvalidTokenAccount => "Invalid token accoung.",
            QuadraticVotingError::StringTooLong => "String too long.",
            QuadraticVotingError::ProposalNotActive => "Proposal voting not active.",
        }
    }
}

impl TryFrom<u8> for VoteType {
    type Error = QuadraticVotingError;

    fn try_from(value: u8) -> (result: Result<VoteType, QuadraticVotingError>) {
        match value {
            0 => Ok(VoteType::No),
            1 => Ok(VoteType::Yes),
            _ => Err(QuadraticVotingError::InvalidVoteType),
        }
    }
}

impl vstd::std_specs::convert::TryFromSpecImpl<u8> for VoteType {
    open spec fn obeys_try_from_spec() -> bool {
        true
    }

    open spec fn try_from_spec(value: u8) -> Result<VoteType, QuadraticVotingError> {
        if value == 0 {
            Ok(VoteType::No)
        } else if value == 1 {
            Ok(VoteType::Yes)
        } else {
            Err(QuadraticVotingError::InvalidVoteType)
        }
    }
}

impl From<VoteType> for u8 {
    fn from(v: VoteType) -> (code: u8) {
        match v {
            VoteType::No => 0,
            VoteType::Yes => 1,
        }
    }
}

impl vstd::std_specs::convert::FromSpecImpl<VoteType> for u8 {
    open spec fn obeys_from_spec() -> bool {
        true
    }

    open spec fn from_spec(v: VoteType) -> u8 {
        match v {
            VoteType::No => 0u8,
            VoteType::Yes => 1u8,
        }
    }
}

/// Reading a vote back from its stored form gives the vote.
pub proof fn lemma_vote_type_round_trip(v: VoteType)
    ensures
        <VoteType as TryFromSpec<u8>>::try_from_spec(<u8 as FromSpec<VoteType>>::from_spec(v))
            == Ok::<VoteType, QuadraticVotingError>(v),
{
}

/// The credits that a token balance buys: the square root, rounded down, of
/// the balance in whole tokens. There are none where ten to the `decimals`
/// exceeds 128 bits.
pub open spec fn vote_credits_of(amount: u64, decimals: u8) -> Result<u64, QuadraticVotingError> {
    if pow10(decimals as nat) > u128::MAX {
        Err(QuadraticVotingError::Overflow)
    } else {
        Ok(floor_sqrt(amount as nat / pow10(decimals as nat)) as u64)
    }
}

/// Voting power is quadratic: the credits squared never exceed the balance
/// in whole tokens, and one credit more would.
pub proof fn lemma_vote_credits_quadratic(amount: u64, decimals: u8)
    requires
        vote_credits_of(amount, decimals) is Ok,
    ensures
        is_floor_sqrt(
            amount as nat / pow10(decimals as nat),
            vote_credits_of(amount, decimals)->Ok_0 as nat,
        ),
{
    let whole = amount as nat / pow10(decimals as nat);
    lemma_pow10_monotone(0, decimals as nat);
    lemma_floor_sqrt_is_root(whole);
    lemma_credits_fit(amount, decimals);
}

/// A larger balance never buys fewer credits.
pub proof fn lemma_vote_credits_monotone(small: u64, large: u64, decimals: u8)
    requires
        small <= large,
        vote_credits_of(small, decimals) is Ok,
    ensures
        vote_credits_of(large, decimals) is Ok,
        vote_credits_of(small, decimals)->Ok_0 <= vote_credits_of(large, decimals)->Ok_0,
{
    let scale = pow10(decimals as nat);
    lemma_pow10_monotone(0, decimals as nat);
    assert(small as nat / scale <= large as nat / scale) by (nonlinear_arith)
        requires
            small <= large,
            scale >= 1,
    ;
    lemma_floor_sqrt_is_root(small as nat / scale);
    lemma_floor_sqrt_is_root(large as nat / scale);
    lemma_floor_sqrt_monotone(
        small as nat / scale,
        large as nat / scale,
        floor_sqrt(small as nat / scale),
        floor_sqrt(large as nat / scale),
    );
    lemma_credits_fit(small, decimals);
    lemma_credits_fit(large, decimals);
}

/// The root of a balance fits in 32 bits.
proof fn lemma_credits_fit(amount: u64, decimals: u8)
    ensures
        floor_sqrt(amount as nat / pow10(decimals as nat)) <= 0xFFFF_FFFF,
{
    let scale = pow10(decimals as nat);
    let whole = amount as nat / scale;
    let root = floor_sqrt(whole);
    lemma_pow10_monotone(0, decimals as nat);
    lemma_floor_sqrt_is_root(whole);
    assert(whole <= amount) by (nonlinear_arith)
        requires
            whole == amount as nat / scale,
            scale >= 1,
    ;
    if root > 0xFFFF_FFFF {
        assert(root * root >= 0x1_0000_0000int * 0x1_0000_0000int) by (nonlinear_arith)
            requires
                root >= 0x1_0000_0000int,
        ;
    }
}

/// Computes the credits that a token balance buys.
pub fn vote_credits(amount: u64, decimals: u8) -> (result: Result<u64, QuadraticVotingError>)
    ensures
        result == vote_credits_of(amount, decimals),
        result is Ok ==> result->Ok_0 <= 0xFFFF_FFFF,
{
    let scale: u128 = match checked_pow10(decimals as u32) {
        Some(scale) => scale,
        None => {
            return Err(QuadraticVotingError::Overflow);
        },
    };
    proof {
        lemma_pow10_monotone(0, decimals as nat);
    }
    let normalized: u128 = match (amount as u128).checked_div(scale) {
        Some(whole) => whole,
        None => {
            return Err(QuadraticVotingError::Overflow);
        },
    };
    let root = isqrt(normalized);
    proof {
        assert(normalized <= amount) by (nonlinear_arith)
            requires
                normalized == amount as int / scale as int,
                scale >= 1,
        ;
        if root > 0xFFFF_FFFF {
            assert(root * root >= 0x1_0000_0000int * 0x1_0000_0000int) by (nonlinear_arith)
                requires
                    root >= 0x1_0000_0000int,
            ;
        }
    }
    Ok(root as u64)
}

impl Dao {
    /// The same DAO with one proposal more.
    pub open spec fn with_next_proposal(&self) -> Dao {
        Dao {
            authority: self.authority,
            mint: self.mint,
            name: self.name,
            proposal_count: (self.proposal_count + 1) as u64,
            bump: self.bump,
        }
    }
}

impl Proposal {
    /// The same proposal in another state.
    pub open spec fn with_state(&self, state: ProposalState) -> Proposal {
        Proposal {
            authority: self.authority,
            dao: self.dao,
            proposal_id: self.proposal_id,
            metadata: self.metadata,
            yes_vote_count: self.yes_vote_count,
            no_vote_count: self.no_vote_count,
            state,
            bump: self.bump,
        }
    }

    /// The same proposal with `credits` added to the side that `vote` takes.
    pub open spec fn with_vote(&self, vote: VoteType, credits: u64) -> Proposal {
        Proposal {
            authority: self.authority,
            dao: self.dao,
            proposal_id: self.proposal_id,
            metadata: self.metadata,
            yes_vote_count: if vote == VoteType::Yes {
                (self.yes_vote_count + credits) as u64
            } else {
                self.yes_vote_count
            },
            no_vote_count: if vote == VoteType::No {
                (self.no_vote_count + credits) as u64
            } else {
                self.no_vote_count
            },
            state: self.state,
            bump: self.bump,
        }
    }

    /// How an active proposal is decided: it passes with strictly more
    /// credits for than against, and is rejected otherwise, a tie included.
    pub open spec fn decision(&self) -> ProposalState {
        if self.yes_vote_count > self.no_vote_count {
            ProposalState::Passed
        } else {
            ProposalState::Rejected
        }
    }
}

/// The DAO that founding gives: none where the name takes 500 bytes or more.
pub open spec fn init_dao_result(ctx: InitDao, name: String) -> Result<Dao, QuadraticVotingError> {
    if byte_len(name@) >= MAX_TEXT_BYTES {
        Err(QuadraticVotingError::StringTooLong)
    } else {
        Ok(
            Dao {
                authority: ctx.creator,
                mint: ctx.mint,
                name,
                proposal_count: 0,
                bump: ctx.dao_bump,
            },
        )
    }
}

/// Founds a DAO under `name`.
pub fn init_dao(ctx: &InitDao, name: String) -> (result: Result<Dao, QuadraticVotingError>)
    ensures
        result == init_dao_result(*ctx, name),
{
    if name.as_str().len() >= MAX_TEXT_BYTES {
        return Err(QuadraticVotingError::StringTooLong);
    }
    Ok(Dao { authority: ctx.creator, mint: ctx.mint, name, proposal_count: 0, bump: ctx.dao_bump })
}

/// The proposal that opening gives: none for anyone but the DAO's
/// authority, none where the metadata takes 500 bytes or more. It is
/// numbered by the DAO's count and starts active with no votes.
pub open spec fn init_proposal_result(ctx: InitProposal, metadata: String) -> Result<
    Proposal,
    QuadraticVotingError,
> {
    if ctx.dao.authority@ != ctx.creator@ {
        Err(QuadraticVotingError::UnauthorizedProposalCreation)
    } else if byte_len(metadata@) >= MAX_TEXT_BYTES {
        Err(QuadraticVotingError::StringTooLong)
    } else {
        Ok(
            Proposal {
                authority: ctx.creator,
                dao: ctx.dao_key,
                proposal_id: ctx.dao.proposal_count,
                metadata,
                yes_vote_count: 0,
                no_vote_count: 0,
                state: ProposalState::Active,
                bump: ctx.proposal_bump,
            },
        )
    }
}

/// Opens a proposal and counts it in its DAO. A refusal changes nothing.
pub fn init_proposal(ctx: &mut InitProposal, metadata: String) -> (result: Result<
    Proposal,
    QuadraticVotingError,
>)
    requires
        old(ctx).dao.proposal_count < u64::MAX,
    ensures
        result == init_proposal_result(*old(ctx), metadata),
        result is Err ==> *final(ctx) == *old(ctx),
        result is Ok ==> final(ctx).dao == old(ctx).dao.with_next_proposal(),
        final(ctx).creator == old(ctx).creator,
        final(ctx).dao_key == old(ctx).dao_key,
        final(ctx).proposal_bump == old(ctx).proposal_bump,
{
    if !bytes_eq(ctx.dao.authority.as_slice(), ctx.creator.as_slice()) {
        return Err(QuadraticVotingError::UnauthorizedProposalCreation);
    }
    if metadata.as_str().len() >= MAX_TEXT_BYTES {
        return Err(QuadraticVotingError::StringTooLong);
    }
    let proposal = Proposal {
        authority: ctx.creator,
        dao: ctx.dao_key,
        proposal_id: ctx.dao.proposal_count,
        metadata,
        yes_vote_count: 0,
        no_vote_count: 0,
        state: ProposalState::Active,
        bump: ctx.proposal_bump,
    };
    ctx.dao.proposal_count = ctx.dao.proposal_count + 1;
    Ok(proposal)
}

/// The vote that casting records: none where the mint is not the DAO's,
/// the proposal is not active, the vote is neither 0 nor 1, or the credits
/// cannot be computed.
pub open spec fn cast_vote_result(ctx: CastVote, vote_type: u8) -> Result<
    Vote,
    QuadraticVotingError,
> {
    if ctx.dao.mint@ != ctx.mint@ {
        Err(QuadraticVotingError::InvalidMint)
    } else if ctx.proposal.state != ProposalState::Active {
        Err(QuadraticVotingError::ProposalNotActive)
    } else if vote_type > 1 {
        Err(QuadraticVotingError::InvalidVoteType)
    } else {
        match vote_credits_of(ctx.voter_token_amount, ctx.mint_decimals) {
            Err(e) => Err(e),
            Ok(credits) => Ok(
                Vote {
                    authority: ctx.voter,
                    vote_type,
                    vote_credits: credits,
                    bump: ctx.vote_bump,
                },
            ),
        }
    }
}

/// Whether the tally has room for the vote: a vote that is recorded must
/// not carry its side's count past the largest `u64`.
pub open spec fn tally_fits(ctx: CastVote, vote_type: u8) -> bool {
    match cast_vote_result(ctx, vote_type) {
        Err(_) => true,
        Ok(vote) => if vote_type == 0 {
            ctx.proposal.no_vote_count + vote.vote_credits <= u64::MAX
        } else {
            ctx.proposal.yes_vote_count + vote.vote_credits <= u64::MAX
        },
    }
}

/// Casts a vote: the voter's credits are added to the side chosen, and the
/// vote is returned for the record. A refusal changes nothing.
pub fn cast_vote(ctx: &mut CastVote, vote_type: u8) -> (result: Result<Vote, QuadraticVotingError>)
    requires
        tally_fits(*old(ctx), vote_type),
    ensures
        result == cast_vote_result(*old(ctx), vote_type),
        result is Err ==> *final(ctx) == *old(ctx),
        result is Ok ==> final(ctx).proposal == old(ctx).proposal.with_vote(
            if vote_type == 0 {
                VoteType::No
            } else {
                VoteType::Yes
            },
            result->Ok_0.vote_credits,
        ),
        final(ctx).voter == old(ctx).voter,
        final(ctx).mint == old(ctx).mint,
        final(ctx).mint_decimals == old(ctx).mint_decimals,
        final(ctx).dao == old(ctx).dao,
        final(ctx).voter_token_amount == old(ctx).voter_token_amount,
        final(ctx).vote_bump == old(ctx).vote_bump,
{
    if !bytes_eq(ctx.dao.mint.as_slice(), ctx.mint.as_slice()) {
        return Err(QuadraticVotingError::InvalidMint);
    }
    match ctx.proposal.state {
        ProposalState::Active => {},
        _ => {
            return Err(QuadraticVotingError::ProposalNotActive);
        },
    }
    let vote_type_enum = match VoteType::try_from(vote_type) {
        Ok(v) => v,
        Err(e) => {
            return Err(e);
        },
    };
    let vote_credits = match vote_credits(ctx.voter_token_amount, ctx.mint_decimals) {
        Ok(credits) => credits,
        Err(e) => {
            return Err(e);
        },
    };
    match vote_type_enum {
        VoteType::No => {
            ctx.proposal.no_vote_count = ctx.proposal.no_vote_count + vote_credits;
        },
        VoteType::Yes => {
            ctx.proposal.yes_vote_count = ctx.proposal.yes_vote_count + vote_credits;
        },
    }
    Ok(
        Vote {
            authority: ctx.voter,
            vote_type: u8::from(vote_type_enum),
            vote_credits,
            bump: ctx.vote_bump,
        },
    )
}

/// The state that closing the vote gives: none for anyone but the DAO's
/// authority, for a proposal of another DAO, or for one already decided.
pub open spec fn finalize_proposal_result(ctx: FinalizeProposal) -> Result<
    ProposalState,
    QuadraticVotingError,
> {
    if ctx.dao.authority@ != ctx.creator@ {
        Err(QuadraticVotingError::UnauthorizedProposalCreation)
    } else if ctx.proposal.dao@ != ctx.dao_key@ {
        Err(QuadraticVotingError::InvalidDao)
    } else if ctx.proposal.state != ProposalState::Active {
        Err(QuadraticVotingError::ProposalNotActive)
    } else {
        Ok(ctx.proposal.decision())
    }
}

/// Closes the vote on a proposal and records its decision. A refusal
/// changes nothing.
pub fn finalize_proposal(ctx: &mut FinalizeProposal) -> (result: Result<(), QuadraticVotingError>)
    ensures
        match finalize_proposal_result(*old(ctx)) {
            Err(e) => result == Err::<(), QuadraticVotingError>(e) && *final(ctx) == *old(ctx),
            Ok(state) => result == Ok::<(), QuadraticVotingError>(()) && final(ctx).proposal
                == old(ctx).proposal.with_state(state),
        },
        final(ctx).creator == old(ctx).creator,
        final(ctx).dao_key == old(ctx).dao_key,
        final(ctx).dao == old(ctx).dao,
{
    if !bytes_eq(ctx.dao.authority.as_slice(), ctx.creator.as_slice()) {
        return Err(QuadraticVotingError::UnauthorizedProposalCreation);
    }
    if !bytes_eq(ctx.proposal.dao.as_slice(), ctx.dao_key.as_slice()) {
        return Err(QuadraticVotingError::InvalidDao);
    }
    match ctx.proposal.state {
        ProposalState::Active => {},
        _ => {
            return Err(QuadraticVotingError::ProposalNotActive);
        },
    }
    if ctx.proposal.yes_vote_count > ctx.proposal.no_vote_count {
        ctx.proposal.state = ProposalState::Passed;
    } else {
        ctx.proposal.state = ProposalState::Rejected;
    }
    Ok(())
}

/// A proposal is decided once: after a vote was closed, the proposal is no
/// longer active, and closing it again is refused.
pub proof fn lemma_finalized_once(ctx: FinalizeProposal, state: ProposalState)
    requires
        finalize_proposal_result(ctx) == Ok::<ProposalState, QuadraticVotingError>(state),
    ensures
        state != ProposalState::Active,
        finalize_proposal_result(
            FinalizeProposal {
                creator: ctx.creator,
                dao_key: ctx.dao_key,
                dao: ctx.dao,
                proposal: ctx.proposal.with_state(state),
            },
        ) == Err::<ProposalState, QuadraticVotingError>(QuadraticVotingError::ProposalNotActive),
{
}

} // verus!
