use vstd::prelude::*;
use crate::block::BlockHead;
use crate::hash::{BlobHash, empty_hash_spec};

verus! {

/// What the adoption walk reads of a fetched block: its height and the hash
/// of the block below it.
#[derive(Clone, Copy, Debug)]
pub struct BlockLink {
    pub block_height: u128,
    pub prev_hash: BlobHash,
}

/// Why a proposed head is refused.
#[derive(Clone, Copy, Debug, PartialEq, Eq, Structural)]
pub enum SyncError {
    /// The proposed head is not above the current one.
    WorseHead,
    /// A block does not sit at the height the walk expected.
    NonSequential,
    /// The block at height 0 does not point at the empty hash.
    FailedGenesis,
    /// A block's recorded solution does not replay to a win.
    ReplayFail,
}

/// The next piece of outside work the walk asks for, or its verdict.
#[derive(Clone, Copy, Debug)]
pub enum SyncAction {
    /// Look up which hash the local chain holds at this height; answer with `on_lookup`.
    LookupHeight(u128),
    /// Fetch the block with this hash, locally or from peers; answer with `on_block`.
    FetchBlock(BlobHash),
    /// Replay the fetched block's solution; answer with `on_replay`.
    CheckReplay(BlobHash),
    /// Keep the checked block aside under its height; answer with `on_stored`.
    StoreTemp(BlobHash),
    /// Adopt: confirm the kept blocks at heights `confirm_from..confirm_to`,
    /// make `head` the new head and drop what is left aside.
    Commit { confirm_from: u128, confirm_to: u128, head: BlockHead },
    /// Refuse the proposed head.
    Fail(SyncError),
}

/// Which answer the walk waits for.
#[derive(Clone, Copy, Debug, PartialEq, Eq, Structural)]
pub enum SyncPhase {
    AwaitLookup,
    AwaitBlock,
    AwaitReplay,
    AwaitStored,
    Finished,
}

/// A block the walk has checked and kept: its hash, height, predecessor and
/// the verdict its replay got.
pub struct Checked {
    pub hash: Seq<u8>,
    pub height: u128,
    pub prev: Seq<u8>,
    pub replay_won: bool,
}

/// Every checked block's replay was reported as a win.
pub open spec fn all_replays_won(checked: Seq<Checked>) -> bool {
    forall|i: int| 0 <= i < checked.len() ==> #[trigger] checked[i].replay_won
}

/// The hash the walk expects next, below the blocks checked so far.
pub open spec fn expected_hash(head_hash: Seq<u8>, checked: Seq<Checked>) -> Seq<u8> {
    if checked.len() == 0 { head_hash } else { checked.last().prev }
}

/// `checked` runs down from the proposed head without a gap: the i-th block
/// sits i below the head height, each is named by its successor's
/// predecessor hash (the first by the proposed hash), and a block at
/// height 0 points at the empty hash.
pub open spec fn linked_segment(head_hash: Seq<u8>, head_height: u128, checked: Seq<Checked>) -> bool {
    &&& checked.len() <= head_height + 1
    &&& forall|i: int| 0 <= i < checked.len() ==> #[trigger] checked[i].height == head_height - i
    &&& forall|i: int| 0 <= i < checked.len() ==> #[trigger] checked[i].hash == expected_hash(head_hash, checked.take(i))
    &&& forall|i: int| 0 <= i < checked.len() && #[trigger] checked[i].height == 0 ==> checked[i].prev == empty_hash_spec()
}

/// The proposed height is above the current head, or the chain holds no block.
pub open spec fn raises_head(head: BlockHead, new_height: u128) -> bool {
    head.spec_no_blocks() || new_height > head.height
}

/// The lowest height checked so far: the height the confirmed range starts at.
pub open spec fn low_height_of(head_height: u128, checked: Seq<Checked>) -> int {
    if checked.len() == 0 { head_height as int } else { checked.last().height as int }
}

/// `action` adopts the proposed head: it confirms the heights from the lowest
/// checked block up to (not including) the proposed height, and names the
/// proposed block as the new head.
pub open spec fn is_commit_of(action: SyncAction, head_hash: Seq<u8>, head_height: u128, checked: Seq<Checked>) -> bool {
    action matches SyncAction::Commit { confirm_from, confirm_to, head }
        && confirm_from == low_height_of(head_height, checked)
        && confirm_to == head_height
        && head.hash@ == head_hash
        && head.height == head_height
}

/// The walk that decides whether a proposed head is adopted: it starts at the
/// proposed block and goes down through predecessors, checking each, until it
/// meets a block the local chain already holds at that height or passes the
/// block at height 0.
pub struct NewBlockSync {
    new_head_hash: BlobHash,
    new_head_height: u128,
    cur_hash: BlobHash,
    cur_height: u128,
    low_height: u128,
    next_prev: BlobHash,
    phase: SyncPhase,
    checked: Ghost<Seq<Checked>>,
    prior: Ghost<BlockHead>,
    pending_won: Ghost<bool>,
}

impl NewBlockSync {
    pub closed spec fn spec_phase(&self) -> SyncPhase {
        self.phase
    }

    /// The blocks checked and kept so far, from the proposed head down.
    pub closed spec fn checked(&self) -> Seq<Checked> {
        self.checked@
    }

    pub closed spec fn head_hash(&self) -> Seq<u8> {
        self.new_head_hash@
    }

    pub closed spec fn head_height(&self) -> u128 {
        self.new_head_height
    }

    /// The hash the walk is about (looked up, fetched or checked).
    pub closed spec fn current_hash(&self) -> Seq<u8> {
        self.cur_hash@
    }

    /// The height the walk is at.
    pub closed spec fn current_height(&self) -> u128 {
        self.cur_height
    }

    /// The head the local chain had when the walk began.
    pub closed spec fn prior_head(&self) -> BlockHead {
        self.prior@
    }

    /// Invariant of the walk.
    pub closed spec fn wf(&self) -> bool {
        &&& self.phase != SyncPhase::Finished ==> raises_head(self.prior@, self.new_head_height)
        &&& linked_segment(self.new_head_hash@, self.new_head_height, self.checked@)
        &&& all_replays_won(self.checked@)
        &&& self.phase == SyncPhase::AwaitStored ==> self.pending_won@
        &&& self.phase != SyncPhase::Finished ==> {
            &&& self.cur_height == self.new_head_height - self.checked@.len()
            &&& self.cur_hash@ == expected_hash(self.new_head_hash@, self.checked@)
        }
        &&& (self.phase == SyncPhase::AwaitLookup || self.phase == SyncPhase::AwaitBlock) ==>
            self.low_height == (if self.checked@.len() == 0 { self.new_head_height } else { self.checked@.last().height })
        &&& (self.phase == SyncPhase::AwaitReplay || self.phase == SyncPhase::AwaitStored) ==> {
            &&& self.low_height == self.cur_height
            &&& (self.cur_height == 0 ==> self.next_prev@ == empty_hash_spec())
        }
    }

    pub fn phase(&self) -> (p: SyncPhase)
        ensures
            p == self.spec_phase(),
    {
        self.phase
    }

    /// Begins the walk for the proposed head `new_head_hash`, whose block
    /// `new_head` was fetched, against the current head `head`. A head that is
    /// not above the current one is refused, unless the chain holds no block.
    pub fn start(new_head_hash: BlobHash, new_head: &BlockLink, head: &BlockHead) -> (res: (NewBlockSync, SyncAction))
        ensures
            res.0.wf(),
            res.0.head_hash() == new_head_hash@,
            res.0.head_height() == new_head.block_height,
            res.0.prior_head() == *head,
            !head.spec_no_blocks() && new_head.block_height <= head.height ==> {
                &&& res.1 == SyncAction::Fail(SyncError::WorseHead)
                &&& res.0.spec_phase() == SyncPhase::Finished
            },
            !(!head.spec_no_blocks() && new_head.block_height <= head.height) ==> {
                &&& res.1 == SyncAction::LookupHeight(new_head.block_height)
                &&& res.0.spec_phase() == SyncPhase::AwaitLookup
                &&& res.0.checked().len() == 0
                &&& res.0.current_hash() == new_head_hash@
                &&& res.0.current_height() == new_head.block_height
            },
    {
        let worse = !head.no_blocks() && new_head.block_height <= head.height;
        let phase = if worse { SyncPhase::Finished } else { SyncPhase::AwaitLookup };
        let sync = NewBlockSync {
            new_head_hash,
            new_head_height: new_head.block_height,
            cur_hash: new_head_hash,
            cur_height: new_head.block_height,
            low_height: new_head.block_height,
            next_prev: new_head_hash,
            phase,
            checked: Ghost(Seq::empty()),
            prior: Ghost(*head),
            pending_won: Ghost(false),
        };
        if worse {
            (sync, SyncAction::Fail(SyncError::WorseHead))
        } else {
            (sync, SyncAction::LookupHeight(new_head.block_height))
        }
    }

    /// The predecessor hash of the block being checked.
    pub closed spec fn pending_prev(&self) -> Seq<u8> {
        self.next_prev@
    }

    /// Answer to `LookupHeight`: the hash the local chain holds at the current
    /// height, if any. When it is the hash the walk expects, the walk has met
    /// the local chain and adopts; else it fetches the expected block.
    pub fn on_lookup(&mut self, found: Option<BlobHash>) -> (action: SyncAction)
        requires
            old(self).wf(),
            old(self).spec_phase() == SyncPhase::AwaitLookup,
        ensures
            final(self).wf(),
            final(self).head_hash() == old(self).head_hash(),
            final(self).head_height() == old(self).head_height(),
            final(self).prior_head() == old(self).prior_head(),
            final(self).checked() == old(self).checked(),
            final(self).current_hash() == old(self).current_hash(),
            final(self).current_height() == old(self).current_height(),
            (found matches Some(h) && h@ == old(self).current_hash()) ==> {
                &&& is_commit_of(action, old(self).head_hash(), old(self).head_height(), old(self).checked())
                &&& action matches SyncAction::Commit { confirm_from, confirm_to, head } && {
                    &&& old(self).checked().len() > 0 ==> confirm_from == old(self).checked().last().height
                    &&& old(self).checked().len() == 0 ==> confirm_from == old(self).head_height()
                    &&& confirm_to == old(self).head_height()
                    &&& head.height == old(self).head_height()
                    &&& head.hash@ == old(self).head_hash()
                }
                &&& raises_head(old(self).prior_head(), old(self).head_height())
                &&& linked_segment(old(self).head_hash(), old(self).head_height(), old(self).checked())
                &&& all_replays_won(old(self).checked())
                &&& old(self).current_hash() == expected_hash(old(self).head_hash(), old(self).checked())
                &&& old(self).current_height() == old(self).head_height() - old(self).checked().len()
                &&& final(self).spec_phase() == SyncPhase::Finished
            },
            !(found matches Some(h) && h@ == old(self).current_hash()) ==> {
                &&& action matches SyncAction::FetchBlock(h) && h@ == old(self).current_hash()
                &&& final(self).spec_phase() == SyncPhase::AwaitBlock
            },
    {
        let met = match &found {
            Some(h) => h.equals(&self.cur_hash),
            None => false,
        };
        if met {
            self.phase = SyncPhase::Finished;
            SyncAction::Commit {
                confirm_from: self.low_height,
                confirm_to: self.new_head_height,
                head: BlockHead { hash: self.new_head_hash, height: self.new_head_height },
            }
        } else {
            self.phase = SyncPhase::AwaitBlock;
            SyncAction::FetchBlock(self.cur_hash)
        }
    }

    /// Answer to `FetchBlock`: what the fetched block says of its height and
    /// predecessor. A block off the expected height, or a block at height 0
    /// that does not point at the empty hash, ends the walk with a refusal;
    /// else its replay is asked for.
    pub fn on_block(&mut self, link: &BlockLink) -> (action: SyncAction)
        requires
            old(self).wf(),
            old(self).spec_phase() == SyncPhase::AwaitBlock,
        ensures
            final(self).wf(),
            final(self).head_hash() == old(self).head_hash(),
            final(self).head_height() == old(self).head_height(),
            final(self).prior_head() == old(self).prior_head(),
            final(self).checked() == old(self).checked(),
            final(self).current_hash() == old(self).current_hash(),
            final(self).current_height() == old(self).current_height(),
            link.block_height != old(self).current_height() ==> {
                &&& action == SyncAction::Fail(SyncError::NonSequential)
                &&& final(self).spec_phase() == SyncPhase::Finished
            },
            link.block_height == old(self).current_height() && link.block_height == 0
                && link.prev_hash@ != empty_hash_spec() ==> {
                &&& action == SyncAction::Fail(SyncError::FailedGenesis)
                &&& final(self).spec_phase() == SyncPhase::Finished
            },
            link.block_height == old(self).current_height()
                && (link.block_height == 0 ==> link.prev_hash@ == empty_hash_spec()) ==> {
                &&& action matches SyncAction::CheckReplay(h) && h@ == old(self).current_hash()
                &&& final(self).spec_phase() == SyncPhase::AwaitReplay
                &&& final(self).pending_prev() == link.prev_hash@
            },
    {
        if self.cur_height != link.block_height {
            self.phase = SyncPhase::Finished;
            return SyncAction::Fail(SyncError::NonSequential);
        }
        if self.cur_height == 0 && !link.prev_hash.equals(&BlobHash::empty()) {
            self.phase = SyncPhase::Finished;
            return SyncAction::Fail(SyncError::FailedGenesis);
        }
        self.low_height = link.block_height;
        self.next_prev = link.prev_hash;
        self.phase = SyncPhase::AwaitReplay;
        SyncAction::CheckReplay(self.cur_hash)
    }

    /// Answer to `CheckReplay`: whether the block's solution replays to a win.
    /// A failed replay ends the walk with a refusal; else the block is kept aside.
    pub fn on_replay(&mut self, won: bool) -> (action: SyncAction)
        requires
            old(self).wf(),
            old(self).spec_phase() == SyncPhase::AwaitReplay,
        ensures
            final(self).wf(),
            final(self).head_hash() == old(self).head_hash(),
            final(self).head_height() == old(self).head_height(),
            final(self).prior_head() == old(self).prior_head(),
            final(self).checked() == old(self).checked(),
            final(self).current_hash() == old(self).current_hash(),
            final(self).current_height() == old(self).current_height(),
            final(self).pending_prev() == old(self).pending_prev(),
            !won ==> {
                &&& action == SyncAction::Fail(SyncError::ReplayFail)
                &&& final(self).spec_phase() == SyncPhase::Finished
            },
            won ==> {
                &&& action matches SyncAction::StoreTemp(h) && h@ == old(self).current_hash()
                &&& final(self).spec_phase() == SyncPhase::AwaitStored
            },
    {
        proof {
            self.pending_won = Ghost(won);
        }
        if !won {
            self.phase = SyncPhase::Finished;
            SyncAction::Fail(SyncError::ReplayFail)
        } else {
            self.phase = SyncPhase::AwaitStored;
            SyncAction::StoreTemp(self.cur_hash)
        }
    }

    /// Answer to `StoreTemp`: the block is kept aside and counts as checked.
    /// At height 0 the walk has passed the first block and adopts; else it
    /// goes down to the predecessor.
    pub fn on_stored(&mut self) -> (action: SyncAction)
        requires
            old(self).wf(),
            old(self).spec_phase() == SyncPhase::AwaitStored,
        ensures
            final(self).wf(),
            final(self).head_hash() == old(self).head_hash(),
            final(self).head_height() == old(self).head_height(),
            final(self).prior_head() == old(self).prior_head(),
            final(self).checked() == old(self).checked().push(Checked {
                hash: old(self).current_hash(),
                height: old(self).current_height(),
                prev: old(self).pending_prev(),
                replay_won: true,
            }),
            old(self).current_height() == 0 ==> {
                &&& is_commit_of(action, final(self).head_hash(), final(self).head_height(), final(self).checked())
                &&& action matches SyncAction::Commit { confirm_from, confirm_to, head } && {
                    &&& confirm_from == 0
                    &&& confirm_to == old(self).head_height()
                    &&& head.height == old(self).head_height()
                    &&& head.hash@ == old(self).head_hash()
                }
                &&& raises_head(final(self).prior_head(), final(self).head_height())
                &&& linked_segment(final(self).head_hash(), final(self).head_height(), final(self).checked())
                &&& all_replays_won(final(self).checked())
                &&& final(self).checked().last().height == 0
                &&& final(self).spec_phase() == SyncPhase::Finished
            },
            old(self).current_height() != 0 ==> {
                &&& action == SyncAction::LookupHeight((old(self).current_height() - 1) as u128)
                &&& final(self).spec_phase() == SyncPhase::AwaitLookup
                &&& final(self).current_hash() == old(self).pending_prev()
                &&& final(self).current_height() == old(self).current_height() - 1
            },
    {
        let ghost old_checked = self.checked@;
        let ghost entry = Checked {
            hash: self.cur_hash@,
            height: self.cur_height,
            prev: self.next_prev@,
            replay_won: self.pending_won@,
        };
        proof {
            self.checked = Ghost(old_checked.push(entry));
            assert(self.checked@.take(old_checked.len() as int) =~= old_checked);
            assert forall|i: int| 0 <= i < old_checked.len() implies
                #[trigger] self.checked@.take(i) == old_checked.take(i) by {
                assert(self.checked@.take(i) =~= old_checked.take(i));
            }
        }
        if self.cur_height == 0 {
            self.phase = SyncPhase::Finished;
            SyncAction::Commit {
                confirm_from: self.low_height,
                confirm_to: self.new_head_height,
                head: BlockHead { hash: self.new_head_hash, height: self.new_head_height },
            }
        } else {
            self.cur_height = self.cur_height - 1;
            self.cur_hash = self.next_prev;
            self.phase = SyncPhase::AwaitLookup;
            SyncAction::LookupHeight(self.cur_height)
        }
    }
}

/// What the walk keeps: the blocks checked so far run down from the proposed
/// head without a gap, each replayed to a win, and, while the walk goes on, it stands just below them,
/// at the hash the last one names and the height below it.
pub proof fn lemma_walk_invariant(s: &NewBlockSync)
    requires
        s.wf(),
    ensures
        linked_segment(s.head_hash(), s.head_height(), s.checked()),
        all_replays_won(s.checked()),
        s.spec_phase() != SyncPhase::Finished ==> {
            &&& raises_head(s.prior_head(), s.head_height())
            &&& s.current_hash() == expected_hash(s.head_hash(), s.checked())
            &&& s.current_height() == s.head_height() - s.checked().len()
        },
{
}

/// Every height an adoption confirms holds a block the walk checked: the one
/// `head_height - k` below the proposed head.
pub proof fn lemma_confirmed_heights_were_checked(
    action: SyncAction,
    head_hash: Seq<u8>,
    head_height: u128,
    checked: Seq<Checked>,
    k: int,
)
    requires
        is_commit_of(action, head_hash, head_height, checked),
        linked_segment(head_hash, head_height, checked),
        low_height_of(head_height, checked) <= k < head_height,
    ensures
        0 <= head_height - k < checked.len(),
        checked[head_height - k].height == k,
{
    let i = head_height - k;
    assert(checked.len() > 0);
    assert(checked.last().height == head_height - (checked.len() - 1));
    assert(checked[i].height == head_height - i);
}

/// An adoption confirms every block the walk checked below the proposed
/// head: each such block's height lies in the confirmed range, which ends at
/// the proposed head. In particular, a walk that reached height 0 confirms
/// from 0.
pub proof fn lemma_commit_confirms_every_checked_block(
    action: SyncAction,
    head_hash: Seq<u8>,
    head_height: u128,
    checked: Seq<Checked>,
    i: int,
)
    requires
        is_commit_of(action, head_hash, head_height, checked),
        linked_segment(head_hash, head_height, checked),
        0 <= i < checked.len(),
    ensures
        action matches SyncAction::Commit { confirm_from, confirm_to, .. } && {
            &&& confirm_from <= checked[i].height <= confirm_to
            &&& checked[i].height < head_height ==> checked[i].height < confirm_to
            &&& checked.last().height == 0 ==> confirm_from == 0
        },
{
    assert(checked[i].height == head_height - i);
    assert(checked.last().height == head_height - (checked.len() - 1));
}

} // verus!
