use vstd::prelude::*;
use crate::block::{Block, BlockHead, BlockView, byte_len, next_height, seed_of, within_limits};
use crate::config::{MAX_NAME_LENGTH, MAX_SOLUTION_TIME};
use crate::gamepad::GamePad;

verus! {

/// Why a mining request is refused.
#[derive(Clone, Copy, Debug, PartialEq, Eq, Structural)]
pub enum ClientError {
    /// The miner name is longer than the chain allows.
    NameTooLong,
    /// No block is being mined, or it was already submitted.
    NoMiningBlock,
    /// The seed does not match the one `start_mine` gave.
    SeedMismatch,
    /// The solution has more frames than the chain allows.
    SolutionTooLong,
}

/// A ticket text of a peer to join, or none to start a new topic.
pub fn ticket_option(ticket_str: String) -> (t: Option<String>)
    ensures
        ticket_str@.len() == 0 ==> t is None,
        ticket_str@.len() > 0 ==> t == Some(ticket_str),
{
    if ticket_str.as_str().as_bytes().len() == 0 {
        proof {
            assert(ticket_str@.len() == 0) by {
                if ticket_str@.len() > 0 {
                    vstd::utf8::encode_utf8_first_scalar(ticket_str@);
                }
            }
        }
        None
    } else {
        Some(ticket_str)
    }
}

/// Copies a block field by field.
pub fn duplicate_block(b: &Block) -> (c: Block)
    ensures
        c@ == b@,
{
    let solution = b.solution.clone();
    proof {
        assert(solution@ =~= b.solution@);
    }
    Block {
        prev_hash: b.prev_hash,
        block_height: b.block_height,
        timestamp: b.timestamp,
        miner_name: b.miner_name.clone(),
        solution,
    }
}

/// What a submission of `seed` and `solution` gives, given the block being
/// mined and the text of its predecessor hash: the sealed block when a block
/// is being mined, the seed is its seed and the solution fits.
pub open spec fn submit_outcome(mining: Option<(BlockView, Seq<char>)>, seed: u32, solution: Seq<GamePad>) -> Result<BlockView, ClientError> {
    match mining {
        None => Err(ClientError::NoMiningBlock),
        Some((b, text)) => if seed_of(b, text) != seed {
            Err(ClientError::SeedMismatch)
        } else if solution.len() > MAX_SOLUTION_TIME {
            Err(ClientError::SolutionTooLong)
        } else {
            Ok(BlockView { solution, ..b })
        },
    }
}

/// A miner's state: its name and the block it is mining, with the text of
/// that block's predecessor hash.
pub struct MiningSession {
    miner_name: String,
    mining_block: Option<(Block, String)>,
    /// Clock readings taken so far, counted modulo 2^64; the block being
    /// mined carries the last one.
    clock_reads: u64,
}

/// The reading number that follows `n`, counting modulo 2^64.
pub open spec fn next_reading(n: u64) -> u64 {
    if n == u64::MAX { 0 } else { (n + 1) as u64 }
}

impl MiningSession {
    #[verifier::type_invariant]
    spec fn block_carries_last_reading(self) -> bool {
        self.mining_block matches Some((b, _)) ==> (b.timestamp.reading() matches Some(r)
            && next_reading(r) == self.clock_reads)
    }

    /// The number the next clock reading gets.
    pub closed spec fn clock_reads(&self) -> u64 {
        self.clock_reads
    }

    pub closed spec fn name(&self) -> Seq<char> {
        self.miner_name@
    }

    /// The block being mined and the text of its predecessor hash, if any.
    pub closed spec fn mining(&self) -> Option<(BlockView, Seq<char>)> {
        match self.mining_block {
            None => None,
            Some((b, t)) => Some((b@, t@)),
        }
    }

    /// A session for `miner_name`; a name longer than the chain allows is refused.
    pub fn new(miner_name: String) -> (res: Result<MiningSession, ClientError>)
        ensures
            byte_len(miner_name@) > MAX_NAME_LENGTH ==> res == Err::<MiningSession, ClientError>(ClientError::NameTooLong),
            byte_len(miner_name@) <= MAX_NAME_LENGTH ==> (res matches Ok(s) && s.name() == miner_name@ && s.mining() is None),
    {
        if miner_name.as_str().as_bytes().len() > MAX_NAME_LENGTH {
            return Err(ClientError::NameTooLong);
        }
        Ok(MiningSession { miner_name, mining_block: None, clock_reads: 0 })
    }

    /// Starts mining a block on top of `head`, whose hash has the text
    /// `prev_hash_text`, and returns the seed its gameplay must be played
    /// under. The block replaces any block mined before.
    pub fn start_mine(&mut self, head: BlockHead, prev_hash_text: String) -> (res: Result<u32, ClientError>)
        ensures
            final(self).name() == old(self).name(),
            byte_len(old(self).name()) > MAX_NAME_LENGTH ==> {
                &&& res == Err::<u32, ClientError>(ClientError::NameTooLong)
                &&& final(self).mining() == old(self).mining()
            },
            byte_len(old(self).name()) <= MAX_NAME_LENGTH ==> (res matches Ok(seed) && final(self).mining() matches Some((b, t)) && {
                &&& t == prev_hash_text@
                &&& b.prev_hash == head.hash@
                &&& b.block_height == next_height(head.height)
                &&& b.miner_name == old(self).name()
                &&& b.solution.len() == 0
                &&& seed == seed_of(b, t)
                &&& b.timestamp.reading() == Some(old(self).clock_reads())
                &&& final(self).clock_reads() == next_reading(old(self).clock_reads())
                &&& (old(self).mining() matches Some((p, _)) ==> b.timestamp.reading() is Some
                    && b.timestamp.reading() != p.timestamp.reading())
            }),
            res is Err ==> final(self).clock_reads() == old(self).clock_reads(),
    {
        proof {
            use_type_invariant(&*self);
        }
        let reading = self.clock_reads;
        let block = match Block::new_read(head, self.miner_name.clone(), reading) {
            Ok(b) => b,
            Err(_) => return Err(ClientError::NameTooLong),
        };
        let seed = block.calc_seed(prev_hash_text.as_str());
        self.mining_block = None;
        self.clock_reads = if reading == u64::MAX { 0 } else { reading + 1 };
        self.mining_block = Some((block, prev_hash_text));
        Ok(seed)
    }

    /// The block to submit: the block being mined, sealed with `solution`,
    /// if `seed` is the seed `start_mine` gave. The session is unchanged; call
    /// `finish_submit` once the chain took the block.
    pub fn submit_mine(&self, seed: u32, solution: Vec<GamePad>) -> (res: Result<Block, ClientError>)
        ensures
            match submit_outcome(self.mining(), seed, solution@) {
                Ok(v) => res matches Ok(b) && b@ == v,
                Err(e) => res == Err::<Block, ClientError>(e),
            },
    {
        match &self.mining_block {
            None => Err(ClientError::NoMiningBlock),
            Some((mined, text)) => {
                let mut block = duplicate_block(mined);
                if block.calc_seed(text.as_str()) != seed {
                    return Err(ClientError::SeedMismatch);
                }
                match block.seal(solution) {
                    Ok(()) => Ok(block),
                    Err(_) => Err(ClientError::SolutionTooLong),
                }
            },
        }
    }

    /// The chain took the submitted block: nothing is being mined any more.
    pub fn finish_submit(&mut self)
        ensures
            final(self).name() == old(self).name(),
            final(self).mining() is None,
            final(self).clock_reads() == old(self).clock_reads(),
    {
        self.mining_block = None;
    }
}

/// A submission is accepted exactly when it carries the seed of the block
/// being mined and a solution within the limit, and then it is that block
/// sealed with the solution.
pub proof fn lemma_submit_with_started_seed(b: BlockView, text: Seq<char>, seed: u32, solution: Seq<GamePad>)
    ensures
        submit_outcome(Some((b, text)), seed, solution) is Ok
            <==> seed == seed_of(b, text) && solution.len() <= MAX_SOLUTION_TIME,
        submit_outcome(Some((b, text)), seed, solution) matches Ok(v)
            ==> v.solution == solution && v.prev_hash == b.prev_hash && v.block_height == b.block_height
                && v.timestamp == b.timestamp && v.miner_name == b.miner_name,
{
}

/// Nothing can be submitted once the block was submitted, or before mining starts.
pub proof fn lemma_no_submit_without_block(seed: u32, solution: Seq<GamePad>)
    ensures
        submit_outcome(None, seed, solution) == Err::<BlockView, ClientError>(ClientError::NoMiningBlock),
{
}

/// A block a session seals fits the chain's limits, as the block check on
/// reading it back demands, when its miner name fits.
pub proof fn lemma_submitted_block_within_limits(b: BlockView, text: Seq<char>, seed: u32, solution: Seq<GamePad>)
    requires
        byte_len(b.miner_name) <= MAX_NAME_LENGTH,
    ensures
        submit_outcome(Some((b, text)), seed, solution) matches Ok(v) ==> within_limits(v),
{
}

} // verus!
