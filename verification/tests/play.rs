use sm64_blockchain::buttons::{buttons_to_int, A_BUTTON, B_BUTTON, START_BUTTON, Z_TRIG};
use sm64_blockchain::game_state::GameState;
use sm64_blockchain::gamepad::GamePad;
use sm64_blockchain::input_gen::{frame_allowed, seed_bytes, RandomWindow};
use sm64_blockchain::legacy;
use sm64_blockchain::record::{get_inputs, set_config, HeldKeys, RecordConfig, RecordSession, RecordStep, Speed};
use sm64_blockchain::replay::{push_frame, Replay};
use sm64_blockchain::replay_check::{ReplayAction, ReplayCheck};

#[test]
fn buttons_pack_into_their_bits() {
    let none = buttons_to_int(false, false, false, false, false, false, false, false, false, false, false, false, false, false);
    assert_eq!(none, 0);
    let a = buttons_to_int(true, false, false, false, false, false, false, false, false, false, false, false, false, false);
    assert_eq!(a, 0x8000);
    let all = buttons_to_int(true, true, true, true, true, true, true, true, true, true, true, true, true, true);
    assert_eq!(all, 0xFF3F);
    let some = buttons_to_int(false, true, false, false, true, true, false, false, false, false, false, false, false, true);
    assert_eq!(some, B_BUTTON | Z_TRIG | START_BUTTON | 0x0004);
}

#[test]
fn pad_buttons_enable_disable() {
    let mut p = GamePad::new(0, 10, -10);
    assert!(!p.is_pressed(A_BUTTON));
    p.enable_button(A_BUTTON | B_BUTTON);
    assert!(p.is_pressed(A_BUTTON));
    assert!(p.is_pressed(B_BUTTON));
    assert!(!p.is_pressed(Z_TRIG));
    p.disable_button(A_BUTTON);
    assert!(!p.is_pressed(A_BUTTON));
    assert!(p.is_pressed(B_BUTTON));
    assert_eq!(p.button, B_BUTTON);
    assert_eq!((p.stick_x, p.stick_y), (10, -10));
    assert!(p.equals(&GamePad::new(B_BUTTON, 10, -10)));
    assert!(!p.equals(&GamePad::new(B_BUTTON, 10, -11)));
}

#[test]
fn replay_reads_frames() {
    let bytes = vec![0x12, 0x34, 0xff, 0x05, 0x80, 0x00, 0x80, 0x7f, 0x01];
    let mut r = Replay::new(bytes, false);
    assert_eq!(r.next(), Some((0x1234, -1, 5)));
    assert_eq!(r.next(), Some((0x8000, -128, 127)));
    assert_eq!(r.next(), None);
    assert_eq!(r.next(), None);
}

#[test]
fn replay_skips_header() {
    let mut bytes = vec![0u8; 0x400];
    bytes.extend_from_slice(&[0, 1, 2, 3]);
    let mut r = Replay::new(bytes, true);
    assert_eq!(r.next(), Some((1, 2, 3)));
    assert_eq!(r.next(), None);
    let mut short = Replay::new(vec![1, 2, 3, 4], true);
    assert_eq!(short.next(), None);
}

#[test]
fn replay_reads_what_recording_wrote() {
    let frames = [(0x8000u16, -80i8, 80i8), (0, 0, 0), (0xFF3F, 127, -128), (1, -1, 1)];
    let mut bytes = Vec::new();
    for (b, x, y) in frames {
        push_frame(&mut bytes, b, x, y);
    }
    assert_eq!(bytes.len(), 16);
    assert_eq!(&bytes[0..4], &[0x80, 0x00, 0xb0, 0x50]);
    let mut r = Replay::new(bytes, false);
    for f in frames {
        assert_eq!(r.next(), Some(f));
    }
    assert_eq!(r.next(), None);
}

#[test]
fn game_state_parses_sixty_bytes() {
    let mut data = Vec::new();
    let words: [u32; 15] = [3, 1.5f32.to_bits(), 2.0f32.to_bits(), (-4.0f32).to_bits(), 0, 0, 0, 7, 8, 9, 0xffff_fffe, 1, 9, 2, 5];
    for w in words {
        data.extend_from_slice(&w.to_le_bytes());
    }
    let s = GameState::new(&data);
    assert_eq!(s.num_stars, 3);
    assert_eq!(f32::from_bits(s.pos_bits[0]), 1.5);
    assert_eq!(f32::from_bits(s.pos_bits[2]), -4.0);
    assert_eq!(s.lakitu_pos_bits, [7, 8, 9]);
    assert_eq!(s.lakitu_yaw, -2);
    assert_eq!(s.in_credits, 1);
    assert_eq!(s.course_num, 9);
    assert_eq!(s.act_num, 2);
    assert_eq!(s.area_index, 5);
    assert!(s.has_won());
    data[0] = 0;
    assert!(!GameState::new(&data).has_won());
}

fn pad(b: u16) -> GamePad {
    GamePad::new(b, 0, 0)
}

#[test]
fn replay_check_accepts_first_win() {
    let (mut c, a) = ReplayCheck::new(vec![pad(1), pad(2), pad(3)]);
    assert!(matches!(a, ReplayAction::RngPad(p) if p == pad(1)));
    assert!(matches!(c.on_rng_pad(pad(1)), ReplayAction::Step(p) if p == pad(1)));
    assert!(matches!(c.on_state(false), ReplayAction::RngPad(p) if p == pad(2)));
    assert!(matches!(c.on_rng_pad(pad(2)), ReplayAction::Step(_)));
    assert!(matches!(c.on_state(true), ReplayAction::Verdict(true)));
}

#[test]
fn replay_check_refuses_mismatch_and_no_win() {
    let (mut c, _) = ReplayCheck::new(vec![pad(1), pad(2)]);
    c.on_rng_pad(pad(1));
    c.on_state(false);
    assert!(matches!(c.on_rng_pad(pad(9)), ReplayAction::Verdict(false)));

    let (mut c, _) = ReplayCheck::new(vec![pad(1)]);
    c.on_rng_pad(pad(1));
    assert!(matches!(c.on_state(false), ReplayAction::Verdict(false)));

    let (_, a) = ReplayCheck::new(vec![]);
    assert!(matches!(a, ReplayAction::Verdict(false)));
}

#[test]
fn keys_make_frames() {
    let mut k = HeldKeys::default();
    assert_eq!(get_inputs(&k), (0, 0, 0));
    k.a = true;
    k.d = true;
    k.w = true;
    k.s = true;
    k.i = true;
    k.enter = true;
    assert_eq!(get_inputs(&k), (A_BUTTON | START_BUTTON, -80, 80));
    let k2 = HeldKeys { d: true, s: true, j: true, o: true, ..HeldKeys::default() };
    assert_eq!(get_inputs(&k2), (B_BUTTON | Z_TRIG, 80, -80));
    assert_eq!(legacy::get_inputs(&k), (1 | 8, -80, 80));
    assert_eq!(legacy::get_inputs(&k2), (2 | 4, 80, -80));
}

#[test]
fn setting_keys() {
    let mut c = RecordConfig::new();
    set_config(&HeldKeys { space: true, ..HeldKeys::default() }, &mut c);
    assert_eq!(c.speed, Speed::Slow);
    set_config(&HeldKeys { space: true, shift: true, q: true, ..HeldKeys::default() }, &mut c);
    assert_eq!(c.speed, Speed::Fast);
    assert!(c.reset);
    set_config(&HeldKeys::default(), &mut c);
    assert_eq!(c.speed, Speed::Normal);
    assert!(c.reset);
    assert!(!c.goback);
}

#[test]
fn recording_session_steps() {
    let start = vec![1, 2, 3, 4];
    let mut s = RecordSession::new(&start);
    let f = s.frame(&HeldKeys { i: true, ..HeldKeys::default() }, None);
    assert_eq!(f, (A_BUTTON, 0, 0));
    let f2 = s.frame(&HeldKeys::default(), Some((7, 1, -1)));
    assert_eq!(f2, (7, 1, -1));
    assert_eq!(s.solution_bytes, vec![1, 2, 3, 4, 0x80, 0, 0, 0, 0, 7, 1, 0xff]);
    assert_eq!(s.after_step(false), RecordStep::Continue);
    assert_eq!(s.after_step(true), RecordStep::Won);
    assert!(s.won);

    let mut g = RecordSession::new(&vec![0u8; 1000]);
    g.frame(&HeldKeys { r: true, ..HeldKeys::default() }, None);
    assert_eq!(g.after_step(false), RecordStep::WentBack);
    assert_eq!(g.solution_bytes.len(), 1004 - 480);
    let mut small = RecordSession::new(&vec![0u8; 8]);
    small.frame(&HeldKeys { r: true, ..HeldKeys::default() }, None);
    assert_eq!(small.after_step(false), RecordStep::WentBack);
    assert!(small.solution_bytes.is_empty());

    let mut z = RecordSession::new(&vec![0u8; 8]);
    z.frame(&HeldKeys { q: true, ..HeldKeys::default() }, None);
    assert_eq!(z.after_step(false), RecordStep::Reset);
    assert!(z.solution_bytes.is_empty());
    assert!(!z.won);
}

#[test]
fn legacy_recorder_placeholder() {
    let (bytes, won) = legacy::record_replay("seed");
    assert!(bytes.is_empty());
    assert!(!won);
}

#[test]
fn generator_seed_bytes() {
    let b = seed_bytes("abc");
    assert_eq!(&b[0..3], b"abc");
    assert!(b[3..].iter().all(|&x| x == 0));
    let long = "0123456789".repeat(4);
    assert_eq!(&seed_bytes(&long)[..], &long.as_bytes()[..32]);
}

#[test]
fn forced_frames_must_match() {
    assert!(frame_allowed(((1, 2, 3), false), 9, 9, 9));
    assert!(frame_allowed(((1, 2, 3), true), 1, 2, 3));
    assert!(!frame_allowed(((1, 2, 3), true), 1, 2, 4));
}

#[test]
fn window_forces_its_random_frames() {
    let mut w = RandomWindow::new();
    let mut randoms = 0;
    for _ in 0..100 {
        let (left, frames) = w.open_frame();
        // never draw at random: only the forced frames are random
        let is_random = left == frames;
        if is_random {
            randoms += 1;
        }
        w.close_frame(is_random);
    }
    assert_eq!(randoms, 5);
    let (left, frames) = w.open_frame();
    assert_eq!((left, frames), (5, 100));
}

#[test]
fn each_button_sets_its_own_bit() {
    let masks: [u16; 14] = [0x8000, 0x4000, 0x0020, 0x0010, 0x2000, 0x1000, 0x0800, 0x0200, 0x0100, 0x0400, 0x0008, 0x0002, 0x0001, 0x0004];
    for k in 0..14 {
        let mut f = [false; 14];
        f[k] = true;
        let w = buttons_to_int(f[0], f[1], f[2], f[3], f[4], f[5], f[6], f[7], f[8], f[9], f[10], f[11], f[12], f[13]);
        assert_eq!(w, masks[k]);
        let mut g = [true; 14];
        g[k] = false;
        let w = buttons_to_int(g[0], g[1], g[2], g[3], g[4], g[5], g[6], g[7], g[8], g[9], g[10], g[11], g[12], g[13]);
        assert_eq!(w & masks[k], 0);
        assert_eq!(w | masks[k], 0xFF3F);
    }
}
