use vstd::prelude::*;
use crate::hash::{BlobHash, empty_hash_spec};
use crate::config::{MAX_NAME_LENGTH, MAX_SOLUTION_TIME};
use crate::digest::{sha256, sha256_spec};
use crate::gamepad::GamePad;
use crate::text::{debug_quoted, debug_text, decimal_text, u128_decimal};
use crate::timestamp::Timestamp;
use vstd::utf8::encode_utf8;

verus! {

/// The tip of the local chain: the hash of the highest block and its height.
#[derive(Clone, Copy, Debug)]
pub struct BlockHead {
    pub hash: BlobHash,
    pub height: u128,
}

impl BlockHead {
    /// Whether this head is the marker of a chain that holds no block yet.
    pub open spec fn spec_no_blocks(self) -> bool {
        self.hash@ == empty_hash_spec() && self.height == u128::MAX
    }

    /// Whether this head is the marker of a chain that holds no block yet:
    /// the empty hash at the greatest height.
    pub fn no_blocks(&self) -> (none: bool)
        ensures
            none == self.spec_no_blocks(),
    {
        let def = BlockHead::default();
        self.hash.equals(&def.hash) && self.height == def.height
    }
}

impl Default for BlockHead {
    /// The head of a chain with no blocks: the empty hash at the greatest
    /// height, so that the first block, one above it with wrapping, has height 0.
    fn default() -> (head: Self)
        ensures
            head.hash@ == empty_hash_spec(),
            head.height == u128::MAX,
    {
        BlockHead { hash: BlobHash::empty(), height: u128::MAX }
    }
}

/// Why a block is refused.
#[derive(Clone, Copy, Debug, PartialEq, Eq, Structural)]
pub enum BlockError {
    /// The miner name is longer than the chain allows.
    NameTooLong,
    /// The solution has more frames than the chain allows.
    SolutionTooLong,
}

/// Length in bytes of the UTF-8 encoding of a text.
pub open spec fn byte_len(s: Seq<char>) -> nat {
    encode_utf8(s).len()
}

/// Height of the block that follows a block at `height`; the marker height of
/// an empty chain, the greatest `u128`, wraps to 0.
pub open spec fn next_height(height: u128) -> u128 {
    if height == u128::MAX { 0 } else { (height + 1) as u128 }
}

/// The bytes hashed for a block's seed: the predecessor hash's text, the
/// height in decimal, the timestamp's text and the miner name as `Debug`
/// quotes it, each in UTF-8, one after the other.
pub open spec fn seed_message(prev_text: Seq<char>, height: u128, time_text: Seq<char>, name: Seq<char>) -> Seq<u8> {
    encode_utf8(prev_text) + encode_utf8(decimal_text(height as nat)) + encode_utf8(time_text)
        + encode_utf8(debug_text(name))
}

/// The first four bytes of a digest read as a big-endian number.
pub open spec fn be_u32(d: Seq<u8>) -> u32 {
    (d[0] as int * 16777216 + d[1] as int * 65536 + d[2] as int * 256 + d[3] as int) as u32
}

/// What a block holds, as plain values.
pub struct BlockView {
    pub prev_hash: Seq<u8>,
    pub block_height: u128,
    pub timestamp: Timestamp,
    pub miner_name: Seq<char>,
    pub solution: Seq<GamePad>,
}

/// A block: it names its predecessor, sits one above it, records when it was
/// started and by whom, and carries the gameplay that seals it.
#[derive(Debug)]
pub struct Block {
    pub prev_hash: BlobHash,
    pub block_height: u128,
    pub timestamp: Timestamp,
    pub miner_name: String,
    pub solution: Vec<GamePad>,
}

impl View for Block {
    type V = BlockView;

    open spec fn view(&self) -> BlockView {
        BlockView {
            prev_hash: self.prev_hash@,
            block_height: self.block_height,
            timestamp: self.timestamp,
            miner_name: self.miner_name@,
            solution: self.solution@,
        }
    }
}

/// Whether a block respects the chain's limits on name and solution length.
pub open spec fn within_limits(b: BlockView) -> bool {
    byte_len(b.miner_name) <= MAX_NAME_LENGTH && b.solution.len() <= MAX_SOLUTION_TIME
}

/// The seed a block's gameplay is played under, given the text of its predecessor hash.
pub open spec fn seed_of(b: BlockView, prev_text: Seq<char>) -> u32 {
    be_u32(sha256_spec(seed_message(prev_text, b.block_height, b.timestamp.text(), b.miner_name)))
}

/// Reads the first four bytes of a digest as a big-endian number.
pub fn seed_from_digest(digest: &[u8]) -> (seed: u32)
    requires
        digest@.len() >= 4,
    ensures
        seed == be_u32(digest@),
{
    let b0 = digest[0] as u32;
    let b1 = digest[1] as u32;
    let b2 = digest[2] as u32;
    let b3 = digest[3] as u32;
    b0 * 16777216 + b1 * 65536 + b2 * 256 + b3
}

/// Appends the UTF-8 bytes of `text` to `bytes`.
fn push_text(bytes: &mut Vec<u8>, text: &str)
    ensures
        final(bytes)@ == old(bytes)@ + encode_utf8(text@),
{
    let added = text.as_bytes();
    bytes.extend_from_slice(added);
    proof {
        assert(final(bytes)@ =~= old(bytes)@ + encode_utf8(text@));
    }
}

impl Block {
    /// A block on top of `block_head`, started at `timestamp` by `miner_name`,
    /// with no solution yet. A name longer than the chain allows is refused.
    pub fn new_at(block_head: BlockHead, miner_name: String, timestamp: Timestamp) -> (res: Result<Block, BlockError>)
        ensures
            byte_len(miner_name@) > MAX_NAME_LENGTH ==> res == Err::<Block, BlockError>(BlockError::NameTooLong),
            byte_len(miner_name@) <= MAX_NAME_LENGTH ==> (res matches Ok(b) && b@ == (BlockView {
                prev_hash: block_head.hash@,
                block_height: next_height(block_head.height),
                timestamp,
                miner_name: miner_name@,
                solution: Seq::empty(),
            })),
    {
        if miner_name.as_str().as_bytes().len() > MAX_NAME_LENGTH {
            return Err(BlockError::NameTooLong);
        }
        let prev_hash = block_head.hash;
        let block_height = block_head.height.wrapping_add(1);
        let b = Block { prev_hash, block_height, timestamp, miner_name, solution: Vec::new() };
        proof {
            assert(b@.solution =~= Seq::<GamePad>::empty());
        }
        Ok(b)
    }

    /// A block on top of `block_head`, started now by `miner_name`, with no
    /// solution yet: its time is read from the clock during the call. A name
    /// longer than the chain allows is refused.
    pub fn new(block_head: BlockHead, miner_name: String) -> (res: Result<Block, BlockError>)
        ensures
            byte_len(miner_name@) > MAX_NAME_LENGTH ==> res == Err::<Block, BlockError>(BlockError::NameTooLong),
            byte_len(miner_name@) <= MAX_NAME_LENGTH ==> (res matches Ok(b) && b@ == (BlockView {
                prev_hash: block_head.hash@,
                block_height: next_height(block_head.height),
                timestamp: b.timestamp,
                miner_name: miner_name@,
                solution: Seq::empty(),
            })),
            res matches Ok(b) ==> b.timestamp.reading() is Some,
    {
        let timestamp = Timestamp::now();
        Block::new_at(block_head, miner_name, timestamp)
    }

    /// As `new`, with the clock reading marked as the caller's reading number
    /// `reading`.
    pub fn new_read(block_head: BlockHead, miner_name: String, reading: u64) -> (res: Result<Block, BlockError>)
        ensures
            byte_len(miner_name@) > MAX_NAME_LENGTH ==> res == Err::<Block, BlockError>(BlockError::NameTooLong),
            byte_len(miner_name@) <= MAX_NAME_LENGTH ==> (res matches Ok(b) && b@ == (BlockView {
                prev_hash: block_head.hash@,
                block_height: next_height(block_head.height),
                timestamp: b.timestamp,
                miner_name: miner_name@,
                solution: Seq::empty(),
            })),
            res matches Ok(b) ==> b.timestamp.reading() == Some(reading),
    {
        let timestamp = Timestamp::read_clock(reading);
        Block::new_at(block_head, miner_name, timestamp)
    }

    /// Seals the block with its solution. A solution with more frames than the
    /// chain allows is refused and leaves the block as it was.
    pub fn seal(&mut self, solution_vec: Vec<GamePad>) -> (res: Result<(), BlockError>)
        ensures
            solution_vec@.len() > MAX_SOLUTION_TIME ==> {
                &&& res == Err::<(), BlockError>(BlockError::SolutionTooLong)
                &&& final(self)@ == old(self)@
            },
            solution_vec@.len() <= MAX_SOLUTION_TIME ==> {
                &&& res is Ok
                &&& final(self)@ == (BlockView { solution: solution_vec@, ..old(self)@ })
            },
    {
        if solution_vec.len() > MAX_SOLUTION_TIME {
            return Err(BlockError::SolutionTooLong);
        }
        self.solution = solution_vec;
        Ok(())
    }

    /// The checks a block read from bytes must pass: the name first, then the
    /// solution length.
    pub fn check_limits(&self) -> (res: Result<(), BlockError>)
        ensures
            byte_len(self.miner_name@) > MAX_NAME_LENGTH ==> res == Err::<(), BlockError>(BlockError::NameTooLong),
            byte_len(self.miner_name@) <= MAX_NAME_LENGTH && self.solution@.len() > MAX_SOLUTION_TIME
                ==> res == Err::<(), BlockError>(BlockError::SolutionTooLong),
            res is Ok <==> within_limits(self@),
    {
        if self.miner_name.as_str().as_bytes().len() > MAX_NAME_LENGTH {
            return Err(BlockError::NameTooLong);
        }
        if self.solution.len() > MAX_SOLUTION_TIME {
            return Err(BlockError::SolutionTooLong);
        }
        Ok(())
    }

    /// The bytes hashed for the seed, given the text of the predecessor hash.
    pub fn seed_message(&self, prev_hash_text: &str) -> (message: Vec<u8>)
        ensures
            message@ == seed_message(prev_hash_text@, self.block_height, self.timestamp.text(), self.miner_name@),
    {
        let mut message: Vec<u8> = Vec::new();
        push_text(&mut message, prev_hash_text);
        let height_text = u128_decimal(self.block_height);
        push_text(&mut message, height_text.as_str());
        let time_text = self.timestamp.to_text();
        push_text(&mut message, time_text.as_str());
        let name_text = debug_quoted(self.miner_name.as_str());
        push_text(&mut message, name_text.as_str());
        proof {
            assert(message@ =~= seed_message(prev_hash_text@, self.block_height, self.timestamp.text(), self.miner_name@));
        }
        message
    }

    /// The seed the block's gameplay is played under: the first four bytes,
    /// big-endian, of the SHA-256 digest of the seed message. `prev_hash_text`
    /// is the `Display` text of the predecessor hash.
    pub fn calc_seed(&self, prev_hash_text: &str) -> (seed: u32)
        ensures
            seed == seed_of(self@, prev_hash_text@),
    {
        let message = self.seed_message(prev_hash_text);
        let digest = sha256(message.as_slice());
        seed_from_digest(digest.as_slice())
    }
}

/// The default head marks a chain with no blocks.
pub proof fn lemma_default_head_has_no_blocks(head: BlockHead)
    requires
        head.hash@ == empty_hash_spec(),
        head.height == u128::MAX,
    ensures
        head.spec_no_blocks(),
{
}

/// The first block mined on a chain with no blocks sits at height 0 and
/// points at the empty hash, as the genesis check of the adoption walk demands.
pub proof fn lemma_first_block_is_genesis(head: BlockHead)
    requires
        head.spec_no_blocks(),
    ensures
        next_height(head.height) == 0,
        head.hash@ == empty_hash_spec(),
{
}

/// Sealing leaves the seed as it was: the seed depends on the predecessor,
/// height, time and miner, not on the solution.
pub proof fn lemma_seal_keeps_seed(b: BlockView, solution: Seq<GamePad>, prev_text: Seq<char>)
    ensures
        seed_of(BlockView { solution, ..b }, prev_text) == seed_of(b, prev_text),
{
}

/// A block started under a name that fits and sealed with a solution that
/// fits passes the checks a block read back from bytes must pass.
pub proof fn lemma_sealed_block_within_limits(b: BlockView, solution: Seq<GamePad>)
    requires
        byte_len(b.miner_name) <= MAX_NAME_LENGTH,
        solution.len() <= MAX_SOLUTION_TIME,
    ensures
        within_limits(BlockView { solution, ..b }),
{
}

} // verus!
