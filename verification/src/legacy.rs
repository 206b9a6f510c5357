use vstd::prelude::*;
use crate::digest::{encode_hex, hex_lower, sha256, sha256_spec};
use crate::record::{HeldKeys, axis};
use crate::replay::{Replay, decode_frames};
use crate::text::{decimal_text, u128_decimal};
use vstd::utf8::encode_utf8;

verus! {

/// The recorder's placeholder: an empty, unwon recording.
pub fn record_replay(seed: &str) -> (res: (Vec<u8>, bool))
    ensures
        res.0@.len() == 0,
        !res.1,
{
    let solution_bytes: Vec<u8> = Vec::new();
    let won: bool = false;
    (solution_bytes, won)
}

/// The early recorder's playback speed: never set (zero), fast or slow.
#[derive(Clone, Copy, Debug, PartialEq, Eq, Structural)]
pub enum EarlySpeed {
    Unset,
    Fast,
    Slow,
}

/// The early recorder's settings; all start unset.
#[derive(Clone, Copy, Debug)]
pub struct EarlyConfig {
    pub speed: EarlySpeed,
    pub goback_amount: usize,
    pub reset: bool,
    pub goback: bool,
}

impl EarlyConfig {
    /// Speed unset, going back no frames, nothing asked for.
    pub fn new() -> (c: EarlyConfig)
        ensures
            c.speed == EarlySpeed::Unset,
            c.goback_amount == 0,
            !c.reset,
            !c.goback,
    {
        EarlyConfig { speed: EarlySpeed::Unset, goback_amount: 0, reset: false, goback: false }
    }
}

/// The early recorder's setting keys: Space sets the speed, fast with Shift
/// and slow without, and without Space the speed stays; Q asks for a reset
/// and R for going back, and those requests stay once made.
pub fn set_config(held_keys: &HeldKeys, config: &mut EarlyConfig)
    ensures
        final(config).speed == (if held_keys.space {
            if held_keys.shift { EarlySpeed::Fast } else { EarlySpeed::Slow }
        } else {
            old(config).speed
        }),
        final(config).reset == (old(config).reset || held_keys.q),
        final(config).goback == (old(config).goback || held_keys.r),
        final(config).goback_amount == old(config).goback_amount,
{
    if held_keys.space {
        config.speed = if held_keys.shift { EarlySpeed::Fast } else { EarlySpeed::Slow };
    }
    if held_keys.q {
        config.reset = true;
    }
    if held_keys.r {
        config.goback = true;
    }
}

/// The frame the held keys ask for, with I, J, O and Enter setting the four
/// lowest bits of the button word.
pub fn get_inputs(held_keys: &HeldKeys) -> (frame: (u16, i8, i8))
    ensures
        frame.0 == (if held_keys.i { 1u16 } else { 0u16 }) + (if held_keys.j { 2u16 } else { 0u16 })
            + (if held_keys.o { 4u16 } else { 0u16 }) + (if held_keys.enter { 8u16 } else { 0u16 }),
        frame.1 == axis(held_keys.a, held_keys.d, -80i8),
        frame.2 == axis(held_keys.w, held_keys.s, 80i8),
        held_keys.a ==> frame.1 == -80,
        !held_keys.a && held_keys.d ==> frame.1 == 80,
        !held_keys.a && !held_keys.d ==> frame.1 == 0,
        held_keys.w ==> frame.2 == 80,
        !held_keys.w && held_keys.s ==> frame.2 == -80,
        !held_keys.w && !held_keys.s ==> frame.2 == 0,
{
    let mut stick_x: i8 = 0;
    let mut stick_y: i8 = 0;
    if held_keys.a {
        stick_x = -80;
    } else if held_keys.d {
        stick_x = 80;
    }
    if held_keys.w {
        stick_y = 80;
    } else if held_keys.s {
        stick_y = -80;
    }
    let bit0: u16 = if held_keys.i { 1 } else { 0 };
    let bit1: u16 = if held_keys.j { 2 } else { 0 };
    let bit2: u16 = if held_keys.o { 4 } else { 0 };
    let bit3: u16 = if held_keys.enter { 8 } else { 0 };
    (bit0 + bit1 + bit2 + bit3, stick_x, stick_y)
}

/// The seed of a block of the first chain format: the lower-case hex of the
/// SHA-256 digest of the predecessor hash's text followed by the height in decimal.
pub fn calc_seed(prev_hash_text: &str, block_height: u128) -> (seed: String)
    ensures
        seed@ == hex_lower(sha256_spec(encode_utf8(prev_hash_text@ + decimal_text(block_height as nat)))),
{
    let mut combined: Vec<u8> = Vec::new();
    let height_text = u128_decimal(block_height);
    combined.extend_from_slice(prev_hash_text.as_bytes());
    combined.extend_from_slice(height_text.as_str().as_bytes());
    proof {
        crate::text::lemma_encode_utf8_concat(prev_hash_text@, height_text@);
        assert(combined@ =~= encode_utf8(prev_hash_text@ + decimal_text(block_height as nat)));
    }
    let digest = sha256(combined.as_slice());
    encode_hex(digest.as_slice())
}

/// What the evaluator of the first chain format asks its caller to do next.
#[derive(Clone, Copy, Debug, PartialEq, Eq)]
pub enum EvalAction {
    /// Ask the input generator whether this recorded frame may be played.
    Validate((u16, i8, i8)),
    /// Play this frame in the game, then report whether the run is won.
    Step((u16, i8, i8)),
    /// Play one neutral frame (no buttons, stick centred), then report
    /// whether the run is won.
    FinalStep,
    /// The run is decided: won or not.
    Verdict(bool),
}

/// Where an evaluation stands.
#[derive(Clone, Copy, Debug, PartialEq, Eq, Structural)]
pub enum EvalPhase {
    /// Waiting to hear whether the current frame may be played.
    AwaitValidation,
    /// Waiting to hear whether playing the current frame won.
    AwaitStep,
    /// Waiting to hear whether the neutral frame won.
    AwaitFinal,
    /// Decided.
    Decided,
}

/// The decisions of the first chain format's evaluator, which plays a
/// recorded solution: it stops at the first frame the input generator
/// refuses, and at the first frame that wins; unless a frame won, one
/// neutral frame is played last and decides.
pub struct LegacyEvaluation {
    frames: Vec<(u16, i8, i8)>,
    index: usize,
    phase: EvalPhase,
}

impl LegacyEvaluation {
    /// The recorded frames, in order.
    pub closed spec fn frames(&self) -> Seq<(u16, i8, i8)> {
        self.frames@
    }

    /// The frame now being validated or played.
    pub closed spec fn index(&self) -> int {
        self.index as int
    }

    pub closed spec fn phase(&self) -> EvalPhase {
        self.phase
    }

    pub closed spec fn wf(&self) -> bool {
        &&& self.index <= self.frames@.len()
        &&& (self.phase == EvalPhase::AwaitValidation || self.phase == EvalPhase::AwaitStep)
            ==> self.index < self.frames@.len()
    }

    /// Starts evaluating a solution read from its first byte, and gives the
    /// first request: validate the first frame, or, with no frame, play the
    /// neutral one.
    pub fn new(solution_bytes: Vec<u8>) -> (res: (LegacyEvaluation, EvalAction))
        ensures
            res.0.wf(),
            res.0.frames() == decode_frames(solution_bytes@, 0),
            res.0.index() == 0,
            res.0.frames().len() == 0 ==> res.1 == EvalAction::FinalStep && res.0.phase() == EvalPhase::AwaitFinal,
            res.0.frames().len() > 0 ==> res.1 == EvalAction::Validate(res.0.frames()[0])
                && res.0.phase() == EvalPhase::AwaitValidation,
    {
        let ghost bytes = solution_bytes@;
        let mut replay = Replay::new(solution_bytes, false);
        let mut frames: Vec<(u16, i8, i8)> = Vec::new();
        loop
            invariant
                frames@ + replay.remaining() == decode_frames(bytes, 0),
            ensures
                frames@ == decode_frames(bytes, 0),
            decreases replay.remaining().len(),
        {
            let ghost before = frames@;
            match replay.next() {
                Some(f) => {
                    frames.push(f);
                    assert(frames@ + replay.remaining() =~= before + (seq![f] + replay.remaining()));
                },
                None => {
                    assert(frames@ + replay.remaining() =~= frames@);
                    break;
                },
            }
        }
        if frames.len() == 0 {
            (LegacyEvaluation { frames, index: 0, phase: EvalPhase::AwaitFinal }, EvalAction::FinalStep)
        } else {
            let first = frames[0];
            (LegacyEvaluation { frames, index: 0, phase: EvalPhase::AwaitValidation }, EvalAction::Validate(first))
        }
    }

    /// Hears whether the current frame may be played: if so, play it; if
    /// not, evaluation of the recording stops and the neutral frame decides.
    pub fn on_validated(&mut self, allowed: bool) -> (a: EvalAction)
        requires
            old(self).wf(),
            old(self).phase() == EvalPhase::AwaitValidation,
        ensures
            final(self).wf(),
            final(self).frames() == old(self).frames(),
            final(self).index() == old(self).index(),
            allowed ==> a == EvalAction::Step(old(self).frames()[old(self).index()])
                && final(self).phase() == EvalPhase::AwaitStep,
            !allowed ==> a == EvalAction::FinalStep && final(self).phase() == EvalPhase::AwaitFinal,
    {
        if allowed {
            self.phase = EvalPhase::AwaitStep;
            EvalAction::Step(self.frames[self.index])
        } else {
            self.phase = EvalPhase::AwaitFinal;
            EvalAction::FinalStep
        }
    }

    /// Hears whether playing the current frame won: a win decides; else the
    /// next frame is validated, or, after the last one, the neutral frame
    /// decides.
    pub fn on_stepped(&mut self, won: bool) -> (a: EvalAction)
        requires
            old(self).wf(),
            old(self).phase() == EvalPhase::AwaitStep,
        ensures
            final(self).wf(),
            final(self).frames() == old(self).frames(),
            won ==> a == EvalAction::Verdict(true) && final(self).phase() == EvalPhase::Decided,
            !won ==> final(self).index() == old(self).index() + 1,
            !won && old(self).index() + 1 < old(self).frames().len() ==> a == EvalAction::Validate(
                old(self).frames()[old(self).index() + 1],
            ) && final(self).phase() == EvalPhase::AwaitValidation,
            !won && old(self).index() + 1 == old(self).frames().len() ==> a == EvalAction::FinalStep
                && final(self).phase() == EvalPhase::AwaitFinal,
    {
        if won {
            self.phase = EvalPhase::Decided;
            return EvalAction::Verdict(true);
        }
        let len = self.frames.len();
        self.index = self.index + 1;
        if self.index < len {
            self.phase = EvalPhase::AwaitValidation;
            EvalAction::Validate(self.frames[self.index])
        } else {
            self.phase = EvalPhase::AwaitFinal;
            EvalAction::FinalStep
        }
    }

    /// Hears whether the neutral frame won, which is the verdict.
    pub fn on_final(&mut self, won: bool) -> (a: EvalAction)
        requires
            old(self).wf(),
            old(self).phase() == EvalPhase::AwaitFinal,
        ensures
            final(self).wf(),
            final(self).frames() == old(self).frames(),
            final(self).index() == old(self).index(),
            final(self).phase() == EvalPhase::Decided,
            a == EvalAction::Verdict(won),
    {
        self.phase = EvalPhase::Decided;
        EvalAction::Verdict(won)
    }
}

} // verus!
