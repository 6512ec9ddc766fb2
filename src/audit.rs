use vstd::prelude::*;

use crate::address::Address;
use vstd::string::StringSliceAdditionalSpecFns;

verus! {

/// Longest chant identifier, in bytes.
pub const MAX_CHANT_ID: usize = 32;

/// Longest question, in bytes.
pub const MAX_QUESTION: usize = 500;

/// Longest idea text, in bytes.
pub const MAX_IDEA_TEXT: usize = 1000;

/// Longest author or voter identifier, in bytes.
pub const MAX_AUTHOR_ID: usize = 32;

/// Most ideas in one cell.
pub const MAX_IDEAS_PER_CELL: usize = 10;

/// Most allocations in one vote.
pub const MAX_ALLOCATIONS: usize = 10;

/// Most advancing ideas in one tier result.
pub const MAX_ADVANCING: usize = 200;

/// The points every vote hands out in total.
pub const VOTE_POINTS: u16 = 10;

/// Why a write to the deliberation audit log is refused.
#[derive(Debug, Clone, Copy, PartialEq, Eq, Structural)]
pub enum AuditError {
    StringTooLong,
    InvalidCellSize,
    Unauthorized,
    IndexMismatch,
    TooManyItems,
    InvalidPointTotal,
    InvalidPhase,
    CounterOverflow,
}

/// Stages of a deliberation.
#[derive(Debug, Clone, Copy, PartialEq, Eq, Structural)]
pub enum Phase {
    Submission,
    Voting,
    Accumulating,
    Completed,
}

#[derive(Debug, Clone, Copy, PartialEq, Eq, Structural)]
pub enum IdeaStatus {
    Submitted,
    InVoting,
    Advancing,
    Eliminated,
    Winner,
}

#[derive(Debug, Clone, Copy, PartialEq, Eq, Structural)]
pub enum CellStatus {
    Voting,
    Completed,
}

/// The stored code of a phase.
pub open spec fn phase_value(p: Phase) -> u8 {
    match p {
        Phase::Submission => 0,
        Phase::Voting => 1,
        Phase::Accumulating => 2,
        Phase::Completed => 3,
    }
}

impl Phase {
    pub fn code(self) -> (r: u8)
        ensures
            r == phase_value(self),
    {
        match self {
            Phase::Submission => 0,
            Phase::Voting => 1,
            Phase::Accumulating => 2,
            Phase::Completed => 3,
        }
    }
}

impl IdeaStatus {
    pub fn code(self) -> (r: u8)
        ensures
            r == match self {
                IdeaStatus::Submitted => 0u8,
                IdeaStatus::InVoting => 1u8,
                IdeaStatus::Advancing => 2u8,
                IdeaStatus::Eliminated => 3u8,
                IdeaStatus::Winner => 4u8,
            },
    {
        match self {
            IdeaStatus::Submitted => 0,
            IdeaStatus::InVoting => 1,
            IdeaStatus::Advancing => 2,
            IdeaStatus::Eliminated => 3,
            IdeaStatus::Winner => 4,
        }
    }
}

impl CellStatus {
    pub fn code(self) -> (r: u8)
        ensures
            r == match self {
                CellStatus::Voting => 0u8,
                CellStatus::Completed => 1u8,
            },
    {
        match self {
            CellStatus::Voting => 0,
            CellStatus::Completed => 1,
        }
    }
}

/// One deliberation, as recorded.
#[derive(Debug, Clone)]
pub struct Chant {
    pub authority: Address,
    pub chant_id: String,
    pub question: String,
    pub cell_size: u8,
    pub continuous_flow: bool,
    pub phase: u8,
    pub current_tier: u8,
    pub idea_count: u16,
    pub cell_count: u16,
    pub created_at: i64,
}

#[derive(Debug, Clone)]
pub struct Idea {
    pub chant: Address,
    pub index: u16,
    pub text: String,
    pub author_id: String,
    pub status: u8,
    pub tier: u8,
    pub total_xp: u16,
    pub created_at: i64,
}

#[derive(Debug, Clone)]
pub struct Cell {
    pub chant: Address,
    pub index: u16,
    pub tier: u8,
    pub batch: u8,
    pub status: u8,
    pub idea_indices: Vec<u16>,
    pub voter_count: u8,
    pub created_at: i64,
}

/// Points given to one idea.
#[derive(Debug, Clone, Copy)]
pub struct Allocation {
    pub idea_index: u16,
    pub points: u8,
}

#[derive(Debug, Clone)]
pub struct VoteRecord {
    pub cell: Address,
    pub voter_id: String,
    pub allocations: Vec<Allocation>,
    pub voted_at: i64,
}

#[derive(Debug, Clone, Copy)]
pub struct XpEntry {
    pub idea_index: u16,
    pub total_xp: u16,
}

#[derive(Debug, Clone)]
pub struct TierResult {
    pub chant: Address,
    pub tier: u8,
    pub advancing_indices: Vec<u16>,
    pub xp_totals: Vec<XpEntry>,
    pub completed_at: i64,
}

/// The declared winning idea, with a digest of its text.
#[derive(Debug, Clone)]
pub struct Champion {
    pub chant: Address,
    pub idea_index: u16,
    pub text_hash: [u8; 32],
    pub total_tiers: u8,
    pub total_voters: u16,
    pub declared_at: i64,
}

/// Length in bytes of stored text.
pub open spec fn text_len(s: Seq<char>) -> int {
    vstd::utf8::encode_utf8(s).len() as usize as int
}

/// The points of a vote, summed.
pub open spec fn total_points(allocations: Seq<Allocation>) -> int
    decreases allocations.len(),
{
    if allocations.len() == 0 {
        0
    } else {
        total_points(allocations.drop_last()) + allocations.last().points
    }
}

fn byte_len(s: &String) -> (r: usize)
    ensures
        r == text_len(s@),
{
    s.as_str().len()
}

/// Why a new chant is refused, if it is.
pub open spec fn initialize_error(chant_id: Seq<char>, question: Seq<char>, cell_size: u8) -> Option<
    AuditError,
> {
    if text_len(chant_id) > MAX_CHANT_ID || text_len(question) > MAX_QUESTION {
        Some(AuditError::StringTooLong)
    } else if !(3 <= cell_size <= 7) {
        Some(AuditError::InvalidCellSize)
    } else {
        None
    }
}

/// Opens the record of a deliberation, in the submission phase.
pub fn initialize_chant(
    authority: Address,
    chant_id: String,
    question: String,
    cell_size: u8,
    continuous_flow: bool,
    now: i64,
) -> (r: Result<Chant, AuditError>)
    ensures
        match initialize_error(chant_id@, question@, cell_size) {
            Some(e) => r == Err::<Chant, AuditError>(e),
            None => r matches Ok(c) && c.authority == authority && c.chant_id == chant_id
                && c.question == question && c.cell_size == cell_size && c.continuous_flow
                == continuous_flow && c.phase == phase_value(Phase::Submission) && c.current_tier
                == 0 && c.idea_count == 0 && c.cell_count == 0 && c.created_at == now,
        },
{
    if byte_len(&chant_id) > MAX_CHANT_ID {
        return Err(AuditError::StringTooLong);
    }
    if byte_len(&question) > MAX_QUESTION {
        return Err(AuditError::StringTooLong);
    }
    if cell_size < 3 || cell_size > 7 {
        return Err(AuditError::InvalidCellSize);
    }
    Ok(
        Chant {
            authority,
            chant_id,
            question,
            cell_size,
            continuous_flow,
            phase: Phase::Submission.code(),
            current_tier: 0,
            idea_count: 0,
            cell_count: 0,
            created_at: now,
        },
    )
}

/// Why an idea is refused, if it is.
pub open spec fn record_idea_error(
    chant: Chant,
    authority: Address,
    idea_index: u16,
    text: Seq<char>,
    author_id: Seq<char>,
) -> Option<AuditError> {
    if text_len(text) > MAX_IDEA_TEXT || text_len(author_id) > MAX_AUTHOR_ID {
        Some(AuditError::StringTooLong)
    } else if authority != chant.authority {
        Some(AuditError::Unauthorized)
    } else if idea_index != chant.idea_count {
        Some(AuditError::IndexMismatch)
    } else if chant.idea_count == u16::MAX {
        Some(AuditError::CounterOverflow)
    } else {
        None
    }
}

/// Records the next submitted idea; ideas are numbered in order from zero.
pub fn record_idea(
    chant: &mut Chant,
    chant_key: Address,
    authority: Address,
    idea_index: u16,
    text: String,
    author_id: String,
    now: i64,
) -> (r: Result<Idea, AuditError>)
    ensures
        match record_idea_error(*old(chant), authority, idea_index, text@, author_id@) {
            Some(e) => r == Err::<Idea, AuditError>(e) && *final(chant) == *old(chant),
            None => {
                &&& *final(chant) == (Chant {
                    idea_count: (old(chant).idea_count + 1) as u16,
                    ..*old(chant)
                })
                &&& r matches Ok(i) && i.chant == chant_key && i.index == idea_index && i.text
                    == text && i.author_id == author_id && i.status == 0 && i.tier == 0
                    && i.total_xp == 0 && i.created_at == now
            },
        },
{
    if byte_len(&text) > MAX_IDEA_TEXT {
        return Err(AuditError::StringTooLong);
    }
    if byte_len(&author_id) > MAX_AUTHOR_ID {
        return Err(AuditError::StringTooLong);
    }
    if !authority.same(&chant.authority) {
        return Err(AuditError::Unauthorized);
    }
    if idea_index != chant.idea_count {
        return Err(AuditError::IndexMismatch);
    }
    if chant.idea_count == u16::MAX {
        return Err(AuditError::CounterOverflow);
    }
    chant.idea_count = chant.idea_count + 1;
    Ok(
        Idea {
            chant: chant_key,
            index: idea_index,
            text,
            author_id,
            status: IdeaStatus::Submitted.code(),
            tier: 0,
            total_xp: 0,
            created_at: now,
        },
    )
}

/// Why a cell is refused, if it is.
pub open spec fn record_cell_error(
    chant: Chant,
    authority: Address,
    cell_index: u16,
    n_ideas: int,
) -> Option<AuditError> {
    if n_ideas > MAX_IDEAS_PER_CELL {
        Some(AuditError::TooManyItems)
    } else if authority != chant.authority {
        Some(AuditError::Unauthorized)
    } else if cell_index != chant.cell_count {
        Some(AuditError::IndexMismatch)
    } else if chant.cell_count == u16::MAX {
        Some(AuditError::CounterOverflow)
    } else {
        None
    }
}

/// Records the next voting cell; cells are numbered in order from zero.
pub fn record_cell(
    chant: &mut Chant,
    chant_key: Address,
    authority: Address,
    cell_index: u16,
    tier: u8,
    batch: u8,
    idea_indices: Vec<u16>,
    now: i64,
) -> (r: Result<Cell, AuditError>)
    ensures
        match record_cell_error(*old(chant), authority, cell_index, idea_indices@.len() as int) {
            Some(e) => r == Err::<Cell, AuditError>(e) && *final(chant) == *old(chant),
            None => {
                &&& *final(chant) == (Chant {
                    cell_count: (old(chant).cell_count + 1) as u16,
                    ..*old(chant)
                })
                &&& r matches Ok(c) && c.chant == chant_key && c.index == cell_index && c.tier
                    == tier && c.batch == batch && c.status == 0 && c.idea_indices@
                    == idea_indices@ && c.voter_count == 0 && c.created_at == now
            },
        },
{
    if idea_indices.len() > MAX_IDEAS_PER_CELL {
        return Err(AuditError::TooManyItems);
    }
    if !authority.same(&chant.authority) {
        return Err(AuditError::Unauthorized);
    }
    if cell_index != chant.cell_count {
        return Err(AuditError::IndexMismatch);
    }
    if chant.cell_count == u16::MAX {
        return Err(AuditError::CounterOverflow);
    }
    chant.cell_count = chant.cell_count + 1;
    Ok(
        Cell {
            chant: chant_key,
            index: cell_index,
            tier,
            batch,
            status: CellStatus::Voting.code(),
            idea_indices,
            voter_count: 0,
            created_at: now,
        },
    )
}

/// Adds up the points of a vote.
pub fn sum_points(allocations: &Vec<Allocation>) -> (r: u16)
    requires
        allocations@.len() <= MAX_ALLOCATIONS,
    ensures
        r == total_points(allocations@),
{
    let mut total: u16 = 0;
    let mut i: usize = 0;
    while i < allocations.len()
        invariant
            0 <= i <= allocations@.len() <= MAX_ALLOCATIONS,
            total == total_points(allocations@.subrange(0, i as int)),
            total <= 255 * i,
        decreases allocations@.len() - i,
    {
        assert(allocations@.subrange(0, i + 1).drop_last() =~= allocations@.subrange(0, i as int));
        total = total + allocations[i].points as u16;
        i = i + 1;
    }
    assert(allocations@.subrange(0, i as int) =~= allocations@);
    total
}

/// Why a vote is refused, if it is.
pub open spec fn record_vote_error(
    chant: Chant,
    cell: Cell,
    authority: Address,
    voter_id: Seq<char>,
    allocations: Seq<Allocation>,
) -> Option<AuditError> {
    if text_len(voter_id) > MAX_AUTHOR_ID {
        Some(AuditError::StringTooLong)
    } else if allocations.len() > MAX_ALLOCATIONS {
        Some(AuditError::TooManyItems)
    } else if authority != chant.authority {
        Some(AuditError::Unauthorized)
    } else if total_points(allocations) != VOTE_POINTS {
        Some(AuditError::InvalidPointTotal)
    } else if cell.voter_count == u8::MAX {
        Some(AuditError::CounterOverflow)
    } else {
        None
    }
}

/// Records one voter's allocation of exactly ten points within a cell.
pub fn record_vote(
    chant: &Chant,
    cell: &mut Cell,
    cell_key: Address,
    authority: Address,
    voter_id: String,
    allocations: Vec<Allocation>,
    now: i64,
) -> (r: Result<VoteRecord, AuditError>)
    ensures
        match record_vote_error(*chant, *old(cell), authority, voter_id@, allocations@) {
            Some(e) => r == Err::<VoteRecord, AuditError>(e) && *final(cell) == *old(cell),
            None => {
                &&& *final(cell) == (Cell {
                    voter_count: (old(cell).voter_count + 1) as u8,
                    ..*old(cell)
                })
                &&& r matches Ok(v) && v.cell == cell_key && v.voter_id == voter_id
                    && v.allocations@ == allocations@ && v.voted_at == now
            },
        },
{
    if byte_len(&voter_id) > MAX_AUTHOR_ID {
        return Err(AuditError::StringTooLong);
    }
    if allocations.len() > MAX_ALLOCATIONS {
        return Err(AuditError::TooManyItems);
    }
    if !authority.same(&chant.authority) {
        return Err(AuditError::Unauthorized);
    }
    if sum_points(&allocations) != VOTE_POINTS {
        return Err(AuditError::InvalidPointTotal);
    }
    if cell.voter_count == u8::MAX {
        return Err(AuditError::CounterOverflow);
    }
    cell.voter_count = cell.voter_count + 1;
    Ok(VoteRecord { cell: cell_key, voter_id, allocations, voted_at: now })
}

/// Why a tier result is refused, if it is.
pub open spec fn record_tier_result_error(chant: Chant, authority: Address, n_advancing: int) -> Option<
    AuditError,
> {
    if n_advancing > MAX_ADVANCING {
        Some(AuditError::TooManyItems)
    } else if authority != chant.authority {
        Some(AuditError::Unauthorized)
    } else {
        None
    }
}

/// Records which ideas advance out of a tier and moves the chant to that tier.
pub fn record_tier_result(
    chant: &mut Chant,
    chant_key: Address,
    authority: Address,
    tier: u8,
    advancing_indices: Vec<u16>,
    xp_totals: Vec<XpEntry>,
    now: i64,
) -> (r: Result<TierResult, AuditError>)
    ensures
        match record_tier_result_error(*old(chant), authority, advancing_indices@.len() as int) {
            Some(e) => r == Err::<TierResult, AuditError>(e) && *final(chant) == *old(chant),
            None => {
                &&& *final(chant) == (Chant { current_tier: tier, ..*old(chant) })
                &&& r matches Ok(t) && t.chant == chant_key && t.tier == tier
                    && t.advancing_indices@ == advancing_indices@ && t.xp_totals@ == xp_totals@
                    && t.completed_at == now
            },
        },
{
    if advancing_indices.len() > MAX_ADVANCING {
        return Err(AuditError::TooManyItems);
    }
    if !authority.same(&chant.authority) {
        return Err(AuditError::Unauthorized);
    }
    chant.current_tier = tier;
    Ok(TierResult { chant: chant_key, tier, advancing_indices, xp_totals, completed_at: now })
}

/// Why a champion declaration is refused, if it is.
pub open spec fn declare_champion_error(chant: Chant, authority: Address, idea_index: u16) -> Option<
    AuditError,
> {
    if authority != chant.authority {
        Some(AuditError::Unauthorized)
    } else if idea_index >= chant.idea_count {
        Some(AuditError::IndexMismatch)
    } else {
        None
    }
}

/// Declares a recorded idea the winner and completes the chant.
pub fn declare_champion(
    chant: &mut Chant,
    chant_key: Address,
    authority: Address,
    idea_index: u16,
    text_hash: [u8; 32],
    total_tiers: u8,
    total_voters: u16,
    now: i64,
) -> (r: Result<Champion, AuditError>)
    ensures
        match declare_champion_error(*old(chant), authority, idea_index) {
            Some(e) => r == Err::<Champion, AuditError>(e) && *final(chant) == *old(chant),
            None => {
                &&& *final(chant) == (Chant {
                    phase: phase_value(Phase::Completed),
                    ..*old(chant)
                })
                &&& r matches Ok(c) && c.chant == chant_key && c.idea_index == idea_index
                    && c.text_hash == text_hash && c.total_tiers == total_tiers && c.total_voters
                    == total_voters && c.declared_at == now
            },
        },
{
    if !authority.same(&chant.authority) {
        return Err(AuditError::Unauthorized);
    }
    if idea_index >= chant.idea_count {
        return Err(AuditError::IndexMismatch);
    }
    chant.phase = Phase::Completed.code();
    Ok(
        Champion {
            chant: chant_key,
            idea_index,
            text_hash,
            total_tiers,
            total_voters,
            declared_at: now,
        },
    )
}

/// Sets the chant's phase to any valid phase code, returning the previous one.
pub fn update_phase(chant: &mut Chant, authority: Address, new_phase: u8) -> (r: Result<
    u8,
    AuditError,
>)
    ensures
        authority != old(chant).authority ==> r == Err::<u8, AuditError>(AuditError::Unauthorized)
            && *final(chant) == *old(chant),
        authority == old(chant).authority && new_phase > 3 ==> r == Err::<u8, AuditError>(
            AuditError::InvalidPhase,
        ) && *final(chant) == *old(chant),
        authority == old(chant).authority && new_phase <= 3 ==> r == Ok::<u8, AuditError>(
            old(chant).phase,
        ) && *final(chant) == (Chant { phase: new_phase, ..*old(chant) }),
{
    if !authority.same(&chant.authority) {
        return Err(AuditError::Unauthorized);
    }
    if new_phase > 3 {
        return Err(AuditError::InvalidPhase);
    }
    let old_phase = chant.phase;
    chant.phase = new_phase;
    Ok(old_phase)
}

impl Chant {
    /// Bytes reserved for a stored chant.
    pub fn space(chant_id: &str, question: &str) -> (r: usize)
        requires
            chant_id.spec_bytes().len() + question.spec_bytes().len() <= usize::MAX - 65,
        ensures
            r == 65 + chant_id.spec_bytes().len() + question.spec_bytes().len(),
    {
        8 + 32 + 4 + chant_id.len() + 4 + question.len() + 1 + 1 + 1 + 1 + 2 + 2 + 8 + 1
    }
}

impl Idea {
    /// Bytes reserved for a stored idea.
    pub fn space(text: &str, author_id: &str) -> (r: usize)
        requires
            text.spec_bytes().len() + author_id.spec_bytes().len() <= usize::MAX - 63,
        ensures
            r == 63 + text.spec_bytes().len() + author_id.spec_bytes().len(),
    {
        8 + 32 + 2 + 4 + text.len() + 4 + author_id.len() + 1 + 1 + 2 + 8 + 1
    }
}

impl Cell {
    /// Bytes reserved for a stored cell.
    pub fn space(idea_indices: &[u16]) -> (r: usize)
        requires
            59 + 2 * idea_indices@.len() <= usize::MAX,
        ensures
            r == 59 + 2 * idea_indices@.len(),
    {
        8 + 32 + 2 + 1 + 1 + 1 + 4 + 2 * idea_indices.len() + 1 + 8 + 1
    }
}

impl VoteRecord {
    /// Bytes reserved for a stored vote.
    pub fn space(voter_id: &str, allocations: &[Allocation]) -> (r: usize)
        requires
            57 + voter_id.spec_bytes().len() + 3 * allocations@.len() <= usize::MAX,
        ensures
            r == 57 + voter_id.spec_bytes().len() + 3 * allocations@.len(),
    {
        8 + 32 + 4 + voter_id.len() + 4 + 3 * allocations.len() + 8 + 1
    }
}

impl TierResult {
    /// Bytes reserved for a stored tier result.
    pub fn space(advancing: &[u16], xp_totals: &[XpEntry]) -> (r: usize)
        requires
            58 + 2 * advancing@.len() + 4 * xp_totals@.len() <= usize::MAX,
        ensures
            r == 58 + 2 * advancing@.len() + 4 * xp_totals@.len(),
    {
        8 + 32 + 1 + 4 + 2 * advancing.len() + 4 + 4 * xp_totals.len() + 8 + 1
    }
}

impl Champion {
    /// Bytes reserved for a stored champion.
    pub const SPACE: usize = 8 + 32 + 2 + 32 + 1 + 2 + 8 + 1;
}

} // verus!
