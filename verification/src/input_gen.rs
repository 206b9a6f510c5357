use vstd::prelude::*;
use vstd::utf8::encode_utf8;

verus! {

broadcast use vstd::array::group_array_axioms;

/// The 32-byte seed made of a text: its first 32 UTF-8 bytes, padded with zeros.
pub open spec fn seed_bytes_of(text: Seq<u8>) -> Seq<u8> {
    Seq::new(32, |i: int| if i < text.len() { text[i] } else { 0u8 })
}

/// The 32-byte generator seed made of a seed text.
pub fn seed_bytes(seed: &str) -> (b: [u8; 32])
    ensures
        b@ == seed_bytes_of(encode_utf8(seed@)),
{
    let mut b: [u8; 32] = [0u8; 32];
    let s = seed.as_bytes();
    let n: usize = if s.len() < 32 { s.len() } else { 32 };
    let mut i: usize = 0;
    while i < n
        invariant
            0 <= i <= n,
            n <= 32,
            n <= s@.len(),
            n == (if s@.len() < 32 { s@.len() } else { 32 }),
            s@ == encode_utf8(seed@),
            b@.len() == 32,
            forall|j: int| 0 <= j < i ==> b@[j] == s@[j],
            forall|j: int| n <= j < 32 ==> b@[j] == 0u8,
        decreases n - i,
    {
        b[i] = s[i];
        i += 1;
    }
    assert(b@ =~= seed_bytes_of(encode_utf8(seed@)));
    b
}

/// Whether a recorded frame is allowed where the input generator gave
/// `forced`: a frame the generator does not force is free; a forced one must
/// be the generator's frame exactly.
pub fn frame_allowed(forced: ((u16, i8, i8), bool), button: u16, stick_x: i8, stick_y: i8) -> (allowed: bool)
    ensures
        allowed == (!forced.1 || forced.0 == (button, stick_x, stick_y)),
{
    let (action, random) = forced;
    if !random {
        return true;
    }
    let (b, x, y) = action;
    b == button && x == stick_x && y == stick_y
}

/// Frames in each window of the input generator.
pub const WINDOW_LENGTH_MAX: u16 = 100;

/// Random frames the input generator forces in each window.
pub const RANDOM_ACTION_MAX: u16 = 5;

/// How many of the outcomes are `true`.
pub open spec fn count_true(s: Seq<bool>) -> nat
    decreases s.len(),
{
    if s.len() == 0 {
        0
    } else {
        count_true(s.drop_last()) + (if s.last() { 1nat } else { 0nat })
    }
}

/// The counters that spread the forced random frames over windows of frames:
/// a window of 100 frames holds 5 random frames, each frame being random with
/// probability (random frames left) / (frames left).
pub struct RandomWindow {
    window_length_max: u16,
    window_cur_amount: u16,
    random_action_max: u16,
    random_action_amount: u16,
    /// Whether each frame closed so far was random, in order.
    history: Ghost<Seq<bool>>,
    /// Windows whose frames have all been closed.
    windows_done: Ghost<nat>,
}

impl RandomWindow {
    pub closed spec fn frames_left(&self) -> u16 {
        self.window_cur_amount
    }

    pub closed spec fn randoms_left(&self) -> u16 {
        self.random_action_amount
    }

    /// Whether each frame closed so far was random, first frame first.
    pub closed spec fn history(&self) -> Seq<bool> {
        self.history@
    }

    /// Windows whose frames have all been closed.
    pub closed spec fn windows_done(&self) -> nat {
        self.windows_done@
    }

    /// Random frames drawn in the window now open (none when no window is open).
    pub closed spec fn drawn(&self) -> nat {
        count_true(self.history@.subrange(WINDOW_LENGTH_MAX * self.windows_done@, self.history@.len() as int))
    }

    pub closed spec fn wf(&self) -> bool {
        &&& self.window_length_max == WINDOW_LENGTH_MAX
        &&& self.random_action_max == RANDOM_ACTION_MAX
        &&& self.window_cur_amount <= self.window_length_max
        &&& self.random_action_amount <= self.window_cur_amount
        &&& self.window_cur_amount == 0 ==> self.history@.len() == WINDOW_LENGTH_MAX * self.windows_done@
        &&& self.window_cur_amount > 0 ==> {
            &&& self.history@.len() == WINDOW_LENGTH_MAX * self.windows_done@
                + (self.window_length_max - self.window_cur_amount)
            &&& self.drawn() + self.random_action_amount == self.random_action_max
        }
        &&& forall|k: int| 0 <= k < self.windows_done@ ==> #[trigger] count_true(
            self.history@.subrange(WINDOW_LENGTH_MAX * k, WINDOW_LENGTH_MAX * k + WINDOW_LENGTH_MAX),
        ) == RANDOM_ACTION_MAX
    }

    /// Windows of 100 frames holding 5 random frames each; the first window
    /// opens with the first frame.
    pub fn new() -> (w: RandomWindow)
        ensures
            w.wf(),
            w.frames_left() == 0,
            w.history() == Seq::<bool>::empty(),
            w.windows_done() == 0,
    {
        RandomWindow {
            window_length_max: WINDOW_LENGTH_MAX,
            window_cur_amount: 0,
            random_action_max: RANDOM_ACTION_MAX,
            random_action_amount: 0,
            history: Ghost(Seq::empty()),
            windows_done: Ghost(0),
        }
    }

    /// Opens a frame, starting a new window when the last one is used up, and
    /// gives the random frames and the frames left in the window, whose
    /// quotient is the chance that this frame is random.
    pub fn open_frame(&mut self) -> (left: (u16, u16))
        requires
            old(self).wf(),
        ensures
            final(self).wf(),
            final(self).history() == old(self).history(),
            final(self).windows_done() == old(self).windows_done(),
            final(self).frames_left() > 0,
            old(self).frames_left() == 0 ==> final(self).frames_left() == WINDOW_LENGTH_MAX
                && final(self).randoms_left() == RANDOM_ACTION_MAX && final(self).drawn() == 0,
            old(self).frames_left() > 0 ==> final(self).frames_left() == old(self).frames_left()
                && final(self).randoms_left() == old(self).randoms_left(),
            left == (final(self).randoms_left(), final(self).frames_left()),
    {
        if self.window_cur_amount == 0 {
            self.window_cur_amount = self.window_length_max;
            self.random_action_amount = self.random_action_max;
            proof {
                let h = self.history@;
                assert(h.subrange(h.len() as int, h.len() as int) =~= Seq::<bool>::empty());
            }
        }
        (self.random_action_amount, self.window_cur_amount)
    }

    /// Closes the frame opened last, which was random or not. A frame cannot
    /// be random with no random frames left, and must be when every frame
    /// left is to be random (the chance is then 0, or 1).
    pub fn close_frame(&mut self, is_random: bool)
        requires
            old(self).wf(),
            old(self).frames_left() > 0,
            is_random ==> old(self).randoms_left() > 0,
            old(self).randoms_left() == old(self).frames_left() ==> is_random,
        ensures
            final(self).wf(),
            final(self).history() == old(self).history().push(is_random),
            final(self).frames_left() == old(self).frames_left() - 1,
            final(self).randoms_left() == old(self).randoms_left() - (if is_random { 1int } else { 0int }),
            final(self).windows_done() == old(self).windows_done() + (if final(self).frames_left() == 0 {
                1int
            } else {
                0int
            }),
            final(self).frames_left() > 0 ==> final(self).drawn() == old(self).drawn() + (if is_random {
                1int
            } else {
                0int
            }),
    {
        let ghost h = self.history@;
        let ghost d = self.windows_done@;
        let ghost start = WINDOW_LENGTH_MAX * d;
        if is_random {
            self.random_action_amount = self.random_action_amount - 1;
        }
        self.window_cur_amount = self.window_cur_amount - 1;
        proof {
            let h2 = h.push(is_random);
            self.history = Ghost(h2);
            assert(h2.subrange(start, h2.len() as int).drop_last() =~= h.subrange(start, h.len() as int));
            assert forall|k: int| 0 <= k < d implies #[trigger] count_true(
                h2.subrange(WINDOW_LENGTH_MAX * k, WINDOW_LENGTH_MAX * k + WINDOW_LENGTH_MAX),
            ) == RANDOM_ACTION_MAX by {
                assert(h2.subrange(WINDOW_LENGTH_MAX * k, WINDOW_LENGTH_MAX * k + WINDOW_LENGTH_MAX)
                    =~= h.subrange(WINDOW_LENGTH_MAX * k, WINDOW_LENGTH_MAX * k + WINDOW_LENGTH_MAX));
            }
            if self.window_cur_amount == 0 {
                self.windows_done = Ghost(d + 1);
                let e = h2.len() as int;
                assert(h2.subrange(e, e) =~= Seq::<bool>::empty());
            }
        }
    }
}

/// The generator's counters never run below zero: the random frames left in a
/// window never outnumber its frames left, which never exceed the window.
pub proof fn lemma_window_counters_fit(w: RandomWindow)
    requires
        w.wf(),
    ensures
        w.randoms_left() <= w.frames_left() <= WINDOW_LENGTH_MAX,
{
}

/// Every block of 100 consecutive frames, counted from the first, holds
/// exactly 5 random frames, whatever the draws were: frames
/// 100k+1 ..= 100k+100 form the (k+1)-th window.
pub proof fn lemma_every_window_holds_its_randoms(w: RandomWindow, k: int)
    requires
        w.wf(),
        0 <= k,
        WINDOW_LENGTH_MAX * k + WINDOW_LENGTH_MAX <= w.history().len(),
    ensures
        count_true(w.history().subrange(WINDOW_LENGTH_MAX * k, WINDOW_LENGTH_MAX * k + WINDOW_LENGTH_MAX))
            == RANDOM_ACTION_MAX,
{
    assert(k < w.windows_done());
}

} // verus!
