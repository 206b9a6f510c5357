use vstd::prelude::*;
use crate::gamepad::GamePad;

verus! {

/// The next piece of game work a replay check asks for, or its verdict.
#[derive(Clone, Copy, Debug)]
pub enum ReplayAction {
    /// Ask the game which pad its random generator makes of this recorded
    /// pad; answer with `on_rng_pad`.
    RngPad(GamePad),
    /// Step the game with this pad and read whether it is won; answer with `on_state`.
    Step(GamePad),
    /// The solution is accepted (`true`) or refused.
    Verdict(bool),
}

/// Which answer the check waits for.
#[derive(Clone, Copy, Debug, PartialEq, Eq, Structural)]
pub enum ReplayPhase {
    AwaitRngPad,
    AwaitState,
    Done,
}

/// Every recorded pad before frame `n` equals the generator's pad and does not win.
pub open spec fn clean_prefix(solution: Seq<GamePad>, rng: Seq<GamePad>, wins: Seq<bool>, n: int) -> bool {
    &&& n <= solution.len() && n <= rng.len() && n <= wins.len()
    &&& forall|j: int| 0 <= j < n ==> #[trigger] rng[j] == solution[j] && !wins[j]
}

/// The solution is accepted at frame `k`: the pads agree up to `k` and `k`
/// is the first winning frame.
pub open spec fn accepted_at(solution: Seq<GamePad>, rng: Seq<GamePad>, wins: Seq<bool>, k: int) -> bool {
    &&& 0 <= k < solution.len() && k < rng.len() && k < wins.len()
    &&& clean_prefix(solution, rng, wins, k)
    &&& rng[k] == solution[k]
    &&& wins[k]
}

/// The solution is refused after `n` clean frames: either frame `n`'s pad
/// differs from the generator's, or the solution ends without a win.
pub open spec fn refused_after(solution: Seq<GamePad>, rng: Seq<GamePad>, wins: Seq<bool>, n: int) -> bool {
    &&& clean_prefix(solution, rng, wins, n)
    &&& (n == solution.len() || (n < rng.len() && rng[n] != solution[n]))
}

/// Replays a recorded solution against the game: each recorded pad must be
/// the one the game's random generator makes of it, and the run must be won
/// before the solution ends.
pub struct ReplayCheck {
    solution: Vec<GamePad>,
    index: usize,
    phase: ReplayPhase,
    rng: Ghost<Seq<GamePad>>,
    wins: Ghost<Seq<bool>>,
}

impl ReplayCheck {
    pub closed spec fn spec_phase(&self) -> ReplayPhase {
        self.phase
    }

    pub closed spec fn solution(&self) -> Seq<GamePad> {
        self.solution@
    }

    /// The generator's pads reported so far.
    pub closed spec fn rng_pads(&self) -> Seq<GamePad> {
        self.rng@
    }

    /// The win flags reported so far.
    pub closed spec fn wins(&self) -> Seq<bool> {
        self.wins@
    }

    pub closed spec fn wf(&self) -> bool {
        &&& self.index <= self.solution@.len()
        &&& self.phase == ReplayPhase::AwaitRngPad ==> {
            &&& self.wins@.len() == self.index
            &&& self.index < self.solution@.len()
            &&& self.rng@.len() == self.index
            &&& clean_prefix(self.solution@, self.rng@, self.wins@, self.index as int)
        }
        &&& self.phase == ReplayPhase::AwaitState ==> {
            &&& self.wins@.len() == self.index
            &&& self.index < self.solution@.len()
            &&& self.rng@.len() == self.index + 1
            &&& clean_prefix(self.solution@, self.rng@, self.wins@, self.index as int)
            &&& self.rng@[self.index as int] == self.solution@[self.index as int]
        }
    }

    pub fn phase(&self) -> (p: ReplayPhase)
        ensures
            p == self.spec_phase(),
    {
        self.phase
    }

    /// Begins checking `solution`; an empty solution is refused at once.
    pub fn new(solution: Vec<GamePad>) -> (res: (ReplayCheck, ReplayAction))
        ensures
            res.0.wf(),
            res.0.solution() == solution@,
            res.0.rng_pads().len() == 0,
            res.0.wins().len() == 0,
            solution@.len() == 0 ==> res.1 == ReplayAction::Verdict(false) && res.0.spec_phase() == ReplayPhase::Done,
            solution@.len() > 0 ==> res.1 == ReplayAction::RngPad(solution@[0])
                && res.0.spec_phase() == ReplayPhase::AwaitRngPad,
    {
        if solution.len() == 0 {
            let c = ReplayCheck { solution, index: 0, phase: ReplayPhase::Done, rng: Ghost(Seq::empty()), wins: Ghost(Seq::empty()) };
            (c, ReplayAction::Verdict(false))
        } else {
            let first = solution[0];
            let c = ReplayCheck { solution, index: 0, phase: ReplayPhase::AwaitRngPad, rng: Ghost(Seq::empty()), wins: Ghost(Seq::empty()) };
            (c, ReplayAction::RngPad(first))
        }
    }

    /// Answer to `RngPad`: the generator's pad. A pad that differs from the
    /// recorded one refuses the solution; else the recorded pad is played.
    pub fn on_rng_pad(&mut self, random_pad: GamePad) -> (action: ReplayAction)
        requires
            old(self).wf(),
            old(self).spec_phase() == ReplayPhase::AwaitRngPad,
        ensures
            final(self).wf(),
            final(self).solution() == old(self).solution(),
            final(self).rng_pads() == old(self).rng_pads().push(random_pad),
            final(self).wins() == old(self).wins(),
            action matches ReplayAction::Verdict(v) ==> !v && refused_after(
                final(self).solution(), final(self).rng_pads(), final(self).wins(), final(self).wins().len() as int),
            action matches ReplayAction::Verdict(v) <==> final(self).spec_phase() == ReplayPhase::Done,
            action matches ReplayAction::Step(p) ==> p == random_pad && final(self).spec_phase() == ReplayPhase::AwaitState,
            random_pad != old(self).solution()[old(self).wins().len() as int] ==> action == ReplayAction::Verdict(false),
            random_pad == old(self).solution()[old(self).wins().len() as int] ==> action == ReplayAction::Step(random_pad),
            action is RngPad ==> false,
    {
        let pad = self.solution[self.index];
        let ghost old_rng = self.rng@;
        proof {
            self.rng = Ghost(self.rng@.push(random_pad));
            assert forall|j: int| 0 <= j < self.index implies #[trigger] self.rng@[j] == old_rng[j] by {}
            assert(clean_prefix(self.solution@, self.rng@, self.wins@, self.index as int));
        }
        if !pad.equals(&random_pad) {
            self.phase = ReplayPhase::Done;
            ReplayAction::Verdict(false)
        } else {
            self.phase = ReplayPhase::AwaitState;
            ReplayAction::Step(pad)
        }
    }

    /// Answer to `Step`: whether the game is won after the frame. A win
    /// accepts the solution; the end of the solution without one refuses it;
    /// else the next recorded pad goes to the generator.
    pub fn on_state(&mut self, won: bool) -> (action: ReplayAction)
        requires
            old(self).wf(),
            old(self).spec_phase() == ReplayPhase::AwaitState,
        ensures
            final(self).wf(),
            final(self).solution() == old(self).solution(),
            final(self).rng_pads() == old(self).rng_pads(),
            final(self).wins() == old(self).wins().push(won),
            action == ReplayAction::Verdict(true) <==> won,
            won ==> accepted_at(final(self).solution(), final(self).rng_pads(), final(self).wins(), old(self).wins().len() as int),
            action == ReplayAction::Verdict(false) ==> refused_after(
                final(self).solution(), final(self).rng_pads(), final(self).wins(), final(self).wins().len() as int),
            action matches ReplayAction::Verdict(v) <==> final(self).spec_phase() == ReplayPhase::Done,
            action matches ReplayAction::RngPad(p) ==> p == final(self).solution()[final(self).wins().len() as int]
                && final(self).spec_phase() == ReplayPhase::AwaitRngPad,
            action is Step ==> false,
    {
        let ghost old_wins = self.wins@;
        proof {
            self.wins = Ghost(self.wins@.push(won));
            assert forall|j: int| 0 <= j < self.index implies #[trigger] self.wins@[j] == old_wins[j] by {}
        }
        if won {
            self.phase = ReplayPhase::Done;
            return ReplayAction::Verdict(true);
        }
        let len = self.solution.len();
        self.index = self.index + 1;
        if self.index == len {
            self.phase = ReplayPhase::Done;
            ReplayAction::Verdict(false)
        } else {
            self.phase = ReplayPhase::AwaitRngPad;
            ReplayAction::RngPad(self.solution[self.index])
        }
    }
}

} // verus!
