use vstd::prelude::*;
use crate::buttons::{
    buttons_to_int, button_word, A_BUTTON, B_BUTTON, D_CBUTTONS, D_JPAD, L_CBUTTONS, L_JPAD, L_TRIG,
    R_CBUTTONS, R_JPAD, R_TRIG, START_BUTTON, U_CBUTTONS, U_JPAD, Z_TRIG,
};
use crate::replay::{encode_frame, push_frame};

verus! {

/// The keyboard keys the recorder reads, held or not.
#[derive(Clone, Copy, Debug, Default)]
pub struct HeldKeys {
    pub a: bool,
    pub d: bool,
    pub w: bool,
    pub s: bool,
    pub i: bool,
    pub j: bool,
    pub o: bool,
    pub enter: bool,
    pub space: bool,
    pub shift: bool,
    pub q: bool,
    pub r: bool,
}

/// The stick position one axis takes from two keys, the first of which
/// wins: full deflection `first_value` or its opposite, else centre.
pub open spec fn axis(first: bool, second: bool, first_value: i8) -> i8 {
    if first { first_value } else if second { (-first_value) as i8 } else { 0i8 }
}

/// The frame the held keys ask for: A (before D) and W (before S) move the stick fully, I, J,
/// O and Enter press A, B, Z and Start.
pub open spec fn keys_frame(k: HeldKeys) -> (u16, i8, i8) {
    (
        button_word(k.i, k.j, false, false, k.o, k.enter, false, false, false, false, false, false, false, false),
        axis(k.a, k.d, -80i8),
        axis(k.w, k.s, 80i8),
    )
}

/// The keys move the stick the way the recorder promises, whatever else is
/// held: A pushes it fully left and D, without A, fully right; W pushes it
/// fully up and S, without W, fully down; with neither key of an axis held
/// that axis stays centred. I, J, O and Enter press A, B, Z and Start, and
/// no other button is ever pressed.
pub proof fn lemma_keys_move_the_stick(k: HeldKeys)
    ensures
        k.a ==> keys_frame(k).1 == -80,
        !k.a && k.d ==> keys_frame(k).1 == 80,
        !k.a && !k.d ==> keys_frame(k).1 == 0,
        k.w ==> keys_frame(k).2 == 80,
        !k.w && k.s ==> keys_frame(k).2 == -80,
        !k.w && !k.s ==> keys_frame(k).2 == 0,
        (keys_frame(k).0 & A_BUTTON != 0) == k.i,
        (keys_frame(k).0 & B_BUTTON != 0) == k.j,
        (keys_frame(k).0 & Z_TRIG != 0) == k.o,
        (keys_frame(k).0 & START_BUTTON != 0) == k.enter,
        keys_frame(k).0 & 0x0FFFu16 == 0,
{
    crate::buttons::lemma_button_word_bits(
        k.i, k.j, false, false, k.o, k.enter, false, false, false, false, false, false, false, false,
    );
    lemma_only_key_buttons(keys_frame(k).0);
}

/// The frame the held keys ask for.
pub fn get_inputs(held_keys: &HeldKeys) -> (frame: (u16, i8, i8))
    ensures
        frame == keys_frame(*held_keys),
        held_keys.a ==> frame.1 == -80,
        !held_keys.a && held_keys.d ==> frame.1 == 80,
        !held_keys.a && !held_keys.d ==> frame.1 == 0,
        held_keys.w ==> frame.2 == 80,
        !held_keys.w && held_keys.s ==> frame.2 == -80,
        !held_keys.w && !held_keys.s ==> frame.2 == 0,
        (frame.0 & A_BUTTON != 0) == held_keys.i,
        (frame.0 & B_BUTTON != 0) == held_keys.j,
        (frame.0 & Z_TRIG != 0) == held_keys.o,
        (frame.0 & START_BUTTON != 0) == held_keys.enter,
        frame.0 & 0x0FFFu16 == 0,
{
    let mut stick_x: i8 = 0;
    let mut stick_y: i8 = 0;
    if held_keys.a {
        stick_x = -80;
    } else if held_keys.d {
        stick_x = 80;
    }
    if held_keys.w {
        stick_y = 80;
    } else if held_keys.s {
        stick_y = -80;
    }
    let button = buttons_to_int(
        held_keys.i, held_keys.j, false, false, held_keys.o, held_keys.enter,
        false, false, false, false, false, false, false, false,
    );
    proof {
        lemma_only_key_buttons(button);
    }
    (button, stick_x, stick_y)
}

/// A word whose only bits among the fourteen button masks are those of A, B,
/// Z and Start, and which has none of the two unowned bits, has no bit in the
/// low twelve.
proof fn lemma_only_key_buttons(w: u16)
    requires
        w & L_TRIG == 0,
        w & R_TRIG == 0,
        w & U_JPAD == 0,
        w & L_JPAD == 0,
        w & R_JPAD == 0,
        w & D_JPAD == 0,
        w & U_CBUTTONS == 0,
        w & L_CBUTTONS == 0,
        w & R_CBUTTONS == 0,
        w & D_CBUTTONS == 0,
        w & 0x00C0u16 == 0,
    ensures
        w & 0x0FFFu16 == 0,
{
    assert(w & 0x0020u16 == 0 && w & 0x0010u16 == 0 && w & 0x0800u16 == 0 && w & 0x0200u16 == 0
        && w & 0x0100u16 == 0 && w & 0x0400u16 == 0 && w & 0x0008u16 == 0 && w & 0x0002u16 == 0
        && w & 0x0001u16 == 0 && w & 0x0004u16 == 0 && w & 0x00C0u16 == 0 ==> w & 0x0FFFu16 == 0)
        by (bit_vector);
}

/// Playback speed of the recorder: normal, ten times faster, or ten times slower.
#[derive(Clone, Copy, Debug, PartialEq, Eq, Structural)]
pub enum Speed {
    Normal,
    Fast,
    Slow,
}

/// The recorder's settings.
#[derive(Clone, Copy, Debug)]
pub struct RecordConfig {
    pub speed: Speed,
    pub goback_amount: usize,
    pub reset: bool,
    pub goback: bool,
}

/// Frames dropped when the player goes back.
pub const GOBACK_FRAMES: usize = 120;

impl RecordConfig {
    /// Normal speed, going back 120 frames, nothing asked for yet.
    pub fn new() -> (c: RecordConfig)
        ensures
            c.speed == Speed::Normal,
            c.goback_amount == GOBACK_FRAMES,
            !c.reset,
            !c.goback,
    {
        RecordConfig { speed: Speed::Normal, goback_amount: GOBACK_FRAMES, reset: false, goback: false }
    }
}

/// Reads the setting keys: Space changes speed (fast with Shift, slow
/// without), else speed is normal; Q asks for a reset and R for going back,
/// and those requests stay once made.
pub fn set_config(held_keys: &HeldKeys, config: &mut RecordConfig)
    ensures
        final(config).speed == (if held_keys.space {
            if held_keys.shift { Speed::Fast } else { Speed::Slow }
        } else {
            Speed::Normal
        }),
        final(config).reset == (old(config).reset || held_keys.q),
        final(config).goback == (old(config).goback || held_keys.r),
        final(config).goback_amount == old(config).goback_amount,
{
    if held_keys.space {
        config.speed = if held_keys.shift { Speed::Fast } else { Speed::Slow };
    } else {
        config.speed = Speed::Normal;
    }
    if held_keys.q {
        config.reset = true;
    }
    if held_keys.r {
        config.goback = true;
    }
}

/// What the recorder does after a frame.
#[derive(Clone, Copy, Debug, PartialEq, Eq, Structural)]
pub enum RecordStep {
    /// Keep recording.
    Continue,
    /// The run is won; stop.
    Won,
    /// The last frames were dropped; stop.
    WentBack,
    /// The recording was cleared; stop.
    Reset,
}

/// A recording in progress: the bytes of the solution so far and the settings.
pub struct RecordSession {
    pub solution_bytes: Vec<u8>,
    pub won: bool,
    pub config: RecordConfig,
}

impl RecordSession {
    /// A recording that continues `starting_bytes`.
    pub fn new(starting_bytes: &Vec<u8>) -> (s: RecordSession)
        ensures
            s.solution_bytes@ == starting_bytes@,
            !s.won,
            s.config.speed == Speed::Normal,
            s.config.goback_amount == GOBACK_FRAMES,
            !s.config.reset,
            !s.config.goback,
    {
        let solution_bytes = starting_bytes.clone();
        proof {
            assert(solution_bytes@ =~= starting_bytes@);
        }
        RecordSession { solution_bytes, won: false, config: RecordConfig::new() }
    }

    /// Decides and records the frame to play: the one the keys ask for, or
    /// the forced one when the input generator forces a frame. The setting
    /// keys are read too.
    pub fn frame(&mut self, held_keys: &HeldKeys, forced: Option<(u16, i8, i8)>) -> (frame: (u16, i8, i8))
        ensures
            frame == (match forced {
                Some(f) => f,
                None => keys_frame(*held_keys),
            }),
            final(self).solution_bytes@ == old(self).solution_bytes@ + encode_frame(frame),
            final(self).won == old(self).won,
            final(self).config.speed == (if held_keys.space {
                if held_keys.shift { Speed::Fast } else { Speed::Slow }
            } else {
                Speed::Normal
            }),
            final(self).config.reset == (old(self).config.reset || held_keys.q),
            final(self).config.goback == (old(self).config.goback || held_keys.r),
            final(self).config.goback_amount == old(self).config.goback_amount,
    {
        let (mut b, mut x, mut y) = get_inputs(held_keys);
        set_config(held_keys, &mut self.config);
        match forced {
            Some(action) => {
                b = action.0;
                x = action.1;
                y = action.2;
            },
            None => {},
        }
        push_frame(&mut self.solution_bytes, b, x, y);
        (b, x, y)
    }

    /// Decides what follows a played frame, given whether the run is won:
    /// a win stops; else a go-back request drops the last `goback_amount`
    /// frames (all of them when there are fewer) and stops; else a reset
    /// request clears the recording and stops; else recording goes on.
    pub fn after_step(&mut self, won: bool) -> (step: RecordStep)
        requires
            old(self).config.goback_amount <= usize::MAX / 4,
        ensures
            final(self).config == old(self).config,
            won ==> step == RecordStep::Won && final(self).won && final(self).solution_bytes@ == old(self).solution_bytes@,
            !won && old(self).config.goback ==> {
                &&& step == RecordStep::WentBack
                &&& final(self).won == old(self).won
                &&& final(self).solution_bytes@ == old(self).solution_bytes@.take(
                    if old(self).solution_bytes@.len() >= 4 * old(self).config.goback_amount {
                        old(self).solution_bytes@.len() - 4 * old(self).config.goback_amount
                    } else {
                        0
                    })
            },
            !won && !old(self).config.goback && old(self).config.reset ==> {
                &&& step == RecordStep::Reset
                &&& final(self).won == old(self).won
                &&& final(self).solution_bytes@.len() == 0
            },
            !won && !old(self).config.goback && !old(self).config.reset ==> {
                &&& step == RecordStep::Continue
                &&& final(self).won == old(self).won
                &&& final(self).solution_bytes@ == old(self).solution_bytes@
            },
    {
        if won {
            self.won = true;
            return RecordStep::Won;
        }
        if self.config.goback {
            let drop = 4 * self.config.goback_amount;
            let new_length = self.solution_bytes.len().saturating_sub(drop);
            self.solution_bytes.truncate(new_length);
            proof {
                assert(self.solution_bytes@ =~= old(self).solution_bytes@.take(new_length as int));
            }
            return RecordStep::WentBack;
        }
        if self.config.reset {
            self.solution_bytes = Vec::new();
            return RecordStep::Reset;
        }
        RecordStep::Continue
    }
}

/// The recording attempts a miner makes until one wins: each attempt
/// resumes from the bytes the last one left, the first from none.
pub struct RecordAttempts {
    solution_bytes: Vec<u8>,
    won: bool,
}

impl RecordAttempts {
    /// The bytes the last attempt left (none before the first).
    pub closed spec fn solution(&self) -> Seq<u8> {
        self.solution_bytes@
    }

    /// Whether the last attempt won.
    pub closed spec fn is_won(&self) -> bool {
        self.won
    }

    /// No attempt made yet.
    pub fn new() -> (a: RecordAttempts)
        ensures
            a.solution() == Seq::<u8>::empty(),
            !a.is_won(),
    {
        RecordAttempts { solution_bytes: Vec::new(), won: false }
    }

    /// The bytes the next attempt starts from.
    pub fn resume_from(&self) -> (bytes: &Vec<u8>)
        ensures
            bytes@ == self.solution(),
    {
        &self.solution_bytes
    }

    /// Takes the result of an attempt and says whether to record again:
    /// only when it did not win.
    pub fn on_attempt(&mut self, solution_bytes: Vec<u8>, won: bool) -> (again: bool)
        ensures
            final(self).solution() == solution_bytes@,
            final(self).is_won() == won,
            again == !won,
    {
        self.solution_bytes = solution_bytes;
        self.won = won;
        !won
    }

    /// The bytes the last attempt left.
    pub fn into_solution(self) -> (bytes: Vec<u8>)
        ensures
            bytes@ == self.solution(),
    {
        self.solution_bytes
    }
}

} // verus!
