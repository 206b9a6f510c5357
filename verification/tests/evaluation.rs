use sm64_blockchain::input_gen::RandomWindow;
use sm64_blockchain::legacy::{set_config, EarlyConfig, EarlySpeed, EvalAction, LegacyEvaluation};
use sm64_blockchain::record::{HeldKeys, RecordAttempts};
use sm64_blockchain::replay::Replay;

/// Runs an evaluation with the answers the game would give: which frames the
/// generator allows, which step wins, and whether the neutral frame wins.
fn run(bytes: Vec<u8>, allowed: &[bool], won_at: Option<usize>, final_won: bool) -> (Vec<EvalAction>, bool) {
    let (mut eval, mut action) = LegacyEvaluation::new(bytes);
    let mut log = vec![action];
    let mut validated = 0;
    let mut stepped = 0;
    loop {
        action = match action {
            EvalAction::Validate(_) => {
                let a = allowed[validated];
                validated += 1;
                eval.on_validated(a)
            }
            EvalAction::Step(_) => {
                let w = won_at == Some(stepped);
                stepped += 1;
                eval.on_stepped(w)
            }
            EvalAction::FinalStep => eval.on_final(final_won),
            EvalAction::Verdict(v) => return (log, v),
        };
        log.push(action);
    }
}

#[test]
fn evaluation_with_no_frames_plays_the_neutral_frame() {
    let (log, verdict) = run(vec![1, 2, 3], &[], None, true);
    assert_eq!(log, vec![EvalAction::FinalStep, EvalAction::Verdict(true)]);
    assert!(verdict);
    let (_, verdict) = run(Vec::new(), &[], None, false);
    assert!(!verdict);
}

#[test]
fn evaluation_validates_then_plays_each_frame() {
    let bytes = vec![0x80, 0x00, 5, 0xFB, 0x00, 0x01, 0, 0];
    let (log, verdict) = run(bytes, &[true, true], None, false);
    assert_eq!(
        log,
        vec![
            EvalAction::Validate((0x8000, 5, -5)),
            EvalAction::Step((0x8000, 5, -5)),
            EvalAction::Validate((1, 0, 0)),
            EvalAction::Step((1, 0, 0)),
            EvalAction::FinalStep,
            EvalAction::Verdict(false),
        ]
    );
    assert!(!verdict);
}

#[test]
fn evaluation_stops_at_the_first_win() {
    let bytes = vec![0, 1, 0, 0, 0, 2, 0, 0, 0, 3, 0, 0];
    let (log, verdict) = run(bytes, &[true, true, true], Some(1), false);
    assert_eq!(log.last(), Some(&EvalAction::Verdict(true)));
    assert!(!log.contains(&EvalAction::Validate((3, 0, 0))));
    assert!(!log.contains(&EvalAction::FinalStep));
    assert!(verdict);
}

#[test]
fn evaluation_stops_at_a_refused_frame() {
    let bytes = vec![0, 1, 0, 0, 0, 2, 0, 0, 0, 3, 0, 0];
    let (log, verdict) = run(bytes, &[true, false], None, true);
    assert_eq!(
        log,
        vec![
            EvalAction::Validate((1, 0, 0)),
            EvalAction::Step((1, 0, 0)),
            EvalAction::Validate((2, 0, 0)),
            EvalAction::FinalStep,
            EvalAction::Verdict(true),
        ]
    );
    assert!(verdict);
}

#[test]
fn replay_stays_put_once_exhausted() {
    let mut r = Replay::new(vec![0, 7, 1, 2, 9], false);
    assert_eq!(r.next(), Some((7, 1, 2)));
    assert_eq!(r.next(), None);
    assert_eq!(r.next(), None);
    assert_eq!(r.next(), None);
}

#[test]
fn attempts_resume_from_the_last_recording_until_a_win() {
    let mut attempts = RecordAttempts::new();
    assert!(attempts.resume_from().is_empty());
    assert!(attempts.on_attempt(vec![1, 2, 3, 4], false));
    assert_eq!(attempts.resume_from(), &vec![1, 2, 3, 4]);
    assert!(attempts.on_attempt(vec![1, 2, 3, 4, 5, 6, 7, 8], false));
    assert_eq!(attempts.resume_from(), &vec![1, 2, 3, 4, 5, 6, 7, 8]);
    assert!(!attempts.on_attempt(vec![9, 9, 9, 9], true));
    assert_eq!(attempts.into_solution(), vec![9, 9, 9, 9]);
}

#[test]
fn early_config_keeps_speed_without_space() {
    let mut c = EarlyConfig::new();
    assert_eq!(c.speed, EarlySpeed::Unset);
    assert_eq!(c.goback_amount, 0);
    let mut keys = HeldKeys::default();
    set_config(&keys, &mut c);
    assert_eq!(c.speed, EarlySpeed::Unset);
    keys.space = true;
    keys.shift = true;
    set_config(&keys, &mut c);
    assert_eq!(c.speed, EarlySpeed::Fast);
    keys.space = false;
    keys.q = true;
    set_config(&keys, &mut c);
    assert_eq!(c.speed, EarlySpeed::Fast);
    assert!(c.reset);
    assert!(!c.goback);
    keys.q = false;
    keys.space = true;
    keys.shift = false;
    keys.r = true;
    set_config(&keys, &mut c);
    assert_eq!(c.speed, EarlySpeed::Slow);
    assert!(c.reset);
    assert!(c.goback);
}

#[test]
fn every_block_of_a_hundred_frames_holds_five_randoms() {
    let mut w = RandomWindow::new();
    // draw pseudo-randomly with the chance the window gives
    let mut state: u32 = 12345;
    let mut outcomes = Vec::new();
    for _ in 0..1000 {
        let (left, frames) = w.open_frame();
        assert!(left <= frames && frames <= 100);
        state = state.wrapping_mul(1103515245).wrapping_add(12345);
        let draw = (state >> 8) % (frames as u32);
        let is_random = draw < left as u32;
        outcomes.push(is_random);
        w.close_frame(is_random);
    }
    for block in outcomes.chunks(100) {
        assert_eq!(block.iter().filter(|b| **b).count(), 5);
    }
}
