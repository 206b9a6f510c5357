use sha2::Digest;
use sm64_blockchain::block::{seed_from_digest, Block, BlockError, BlockHead};
use sm64_blockchain::config::{default_config, ChainConfig};
use sm64_blockchain::gamepad::GamePad;
use sm64_blockchain::hash::BlobHash;
use sm64_blockchain::sync::{BlockLink, NewBlockSync, SyncAction, SyncError, SyncPhase};
use sm64_blockchain::timestamp::Timestamp;

const EMPTY_HEX: &str = "af1349b9f5f9a1a6a0404dea36dcc9499bcb25c9adc112b7cc9a93cae41f3262";

fn hash_of(b: u8) -> BlobHash {
    BlobHash::from_bytes([b; 32])
}

fn ts() -> Timestamp {
    Timestamp::from_parts(1431648000, 0).unwrap()
}

#[test]
fn chain_config_limits() {
    let cfg = ChainConfig::default();
    assert_eq!(cfg.max_name_length, 64);
    assert_eq!(cfg.max_solution_time, 18000);
    let c = default_config();
    assert_eq!(c.max_name_length, 64);
    assert_eq!(c.max_solution_bytes, 72000);
    assert_eq!(c.max_window_length, 100);
    assert_eq!(c.max_random_action, 5);
}

#[test]
fn empty_hash_is_blake3_of_nothing() {
    let e = BlobHash::empty();
    assert_eq!(e.to_hex(), EMPTY_HEX);
    assert!(e.equals(&BlobHash::empty()));
    assert!(!e.equals(&hash_of(0)));
}

#[test]
fn hash_hex_is_lower_case() {
    let mut bytes = [0u8; 32];
    bytes[0] = 0xAB;
    bytes[31] = 0x0f;
    let h = BlobHash::from_bytes(bytes);
    let hex = h.to_hex();
    assert_eq!(hex.len(), 64);
    assert!(hex.starts_with("ab00"));
    assert!(hex.ends_with("000f"));
}

#[test]
fn default_head_has_no_blocks() {
    let head = BlockHead::default();
    assert!(head.no_blocks());
    assert_eq!(head.height, u128::MAX);
    let other = BlockHead { hash: BlobHash::empty(), height: 3 };
    assert!(!other.no_blocks());
    let other = BlockHead { hash: hash_of(1), height: u128::MAX };
    assert!(!other.no_blocks());
}

#[test]
fn first_block_is_genesis() {
    let b = Block::new_at(BlockHead::default(), "mario".to_string(), ts()).unwrap();
    assert_eq!(b.block_height, 0);
    assert!(b.prev_hash.equals(&BlobHash::empty()));
    assert_eq!(b.miner_name, "mario");
    assert!(b.solution.is_empty());
}

#[test]
fn block_height_follows_head() {
    let head = BlockHead { hash: hash_of(7), height: 41 };
    let b = Block::new(head, "luigi".to_string()).unwrap();
    assert_eq!(b.block_height, 42);
    assert!(b.prev_hash.equals(&hash_of(7)));
}

#[test]
fn long_name_refused() {
    let name = "x".repeat(65);
    let r = Block::new_at(BlockHead::default(), name, ts());
    assert!(matches!(r, Err(BlockError::NameTooLong)));
    let ok = Block::new_at(BlockHead::default(), "x".repeat(64), ts());
    assert!(ok.is_ok());
    // the limit counts bytes: 32 two-byte characters fit, 33 do not
    assert!(Block::new_at(BlockHead::default(), "é".repeat(32), ts()).is_ok());
    assert!(matches!(Block::new_at(BlockHead::default(), "é".repeat(33), ts()), Err(BlockError::NameTooLong)));
}

#[test]
fn seal_limits_solution() {
    let mut b = Block::new_at(BlockHead::default(), "m".to_string(), ts()).unwrap();
    let too_long = vec![GamePad::new(0, 0, 0); 18001];
    assert!(matches!(b.seal(too_long), Err(BlockError::SolutionTooLong)));
    assert!(b.solution.is_empty());
    let fits = vec![GamePad::new(1, 2, 3); 18000];
    assert!(b.seal(fits).is_ok());
    assert_eq!(b.solution.len(), 18000);
    assert_eq!(b.solution[0], GamePad::new(1, 2, 3));
}

#[test]
fn check_limits_order() {
    let mut b = Block::new_at(BlockHead::default(), "m".to_string(), ts()).unwrap();
    assert!(b.check_limits().is_ok());
    b.solution = vec![GamePad::new(0, 0, 0); 18001];
    assert!(matches!(b.check_limits(), Err(BlockError::SolutionTooLong)));
    b.miner_name = "n".repeat(65);
    assert!(matches!(b.check_limits(), Err(BlockError::NameTooLong)));
}

#[test]
fn seed_from_digest_is_big_endian() {
    assert_eq!(seed_from_digest(&[0x12, 0x34, 0x56, 0x78, 0xff]), 0x12345678);
    assert_eq!(seed_from_digest(&[0xff, 0xff, 0xff, 0xff]), u32::MAX);
}

#[test]
fn timestamp_text_is_chrono_display() {
    assert_eq!(ts().to_text(), "2015-05-15 00:00:00 UTC");
    let t = Timestamp::from_parts(0, 5).unwrap();
    assert_eq!(t.to_text(), "1970-01-01 00:00:00.000000005 UTC");
    assert!(Timestamp::from_parts(0, 2_000_000_000).is_none());
    assert!(Timestamp::from_parts(i64::MAX, 0).is_none());
    let now = Timestamp::now();
    assert!(now.to_text().ends_with(" UTC"));
}

#[test]
fn seed_is_sha256_of_the_block_text() {
    let head = BlockHead { hash: hash_of(2), height: 9 };
    let name = "say \"hi\"".to_string();
    let b = Block::new_at(head, name.clone(), ts()).unwrap();
    let prev_text = "prev-hash-text";
    let mut expected_msg = String::new();
    expected_msg.push_str(prev_text);
    expected_msg.push_str("10");
    expected_msg.push_str("2015-05-15 00:00:00 UTC");
    expected_msg.push_str(&format!("{:?}", name));
    assert_eq!(b.seed_message(prev_text), expected_msg.as_bytes().to_vec());
    let digest = sha2::Sha256::digest(expected_msg.as_bytes());
    let expected = u32::from_be_bytes([digest[0], digest[1], digest[2], digest[3]]);
    assert_eq!(b.calc_seed(prev_text), expected);
}

#[test]
fn seal_keeps_seed() {
    let mut b = Block::new_at(BlockHead::default(), "m".to_string(), ts()).unwrap();
    let before = b.calc_seed("x");
    b.seal(vec![GamePad::new(5, 6, 7)]).unwrap();
    assert_eq!(b.calc_seed("x"), before);
    assert_ne!(b.calc_seed("y"), before);
}

fn link(height: u128, prev: BlobHash) -> BlockLink {
    BlockLink { block_height: height, prev_hash: prev }
}

#[test]
fn sync_adopts_genesis_on_empty_chain() {
    let h = hash_of(9);
    let (mut s, a) = NewBlockSync::start(h, &link(0, BlobHash::empty()), &BlockHead::default());
    assert!(matches!(a, SyncAction::LookupHeight(0)));
    let a = s.on_lookup(None);
    assert!(matches!(a, SyncAction::FetchBlock(x) if x.equals(&h)));
    let a = s.on_block(&link(0, BlobHash::empty()));
    assert!(matches!(a, SyncAction::CheckReplay(x) if x.equals(&h)));
    let a = s.on_replay(true);
    assert!(matches!(a, SyncAction::StoreTemp(x) if x.equals(&h)));
    let a = s.on_stored();
    match a {
        SyncAction::Commit { confirm_from, confirm_to, head } => {
            assert_eq!(confirm_from, 0);
            assert_eq!(confirm_to, 0);
            assert!(head.hash.equals(&h));
            assert_eq!(head.height, 0);
        }
        _ => panic!("expected a commit"),
    }
    assert_eq!(s.phase(), SyncPhase::Finished);
}

#[test]
fn sync_walks_down_to_known_block() {
    // local chain holds blocks 0..=4 and its head is at 4; the proposed head is at 6
    let head = BlockHead { hash: hash_of(4), height: 4 };
    let h6 = hash_of(6);
    let h5 = hash_of(5);
    let (mut s, a) = NewBlockSync::start(h6, &link(6, h5), &head);
    assert!(matches!(a, SyncAction::LookupHeight(6)));
    assert!(matches!(s.on_lookup(None), SyncAction::FetchBlock(_)));
    assert!(matches!(s.on_block(&link(6, h5)), SyncAction::CheckReplay(_)));
    assert!(matches!(s.on_replay(true), SyncAction::StoreTemp(_)));
    assert!(matches!(s.on_stored(), SyncAction::LookupHeight(5)));
    assert!(matches!(s.on_lookup(None), SyncAction::FetchBlock(x) if x.equals(&h5)));
    assert!(matches!(s.on_block(&link(5, hash_of(4))), SyncAction::CheckReplay(_)));
    assert!(matches!(s.on_replay(true), SyncAction::StoreTemp(_)));
    assert!(matches!(s.on_stored(), SyncAction::LookupHeight(4)));
    // the local chain holds the expected block at height 4: adopt
    match s.on_lookup(Some(hash_of(4))) {
        SyncAction::Commit { confirm_from, confirm_to, head } => {
            assert_eq!(confirm_from, 5);
            assert_eq!(confirm_to, 6);
            assert!(head.hash.equals(&h6));
            assert_eq!(head.height, 6);
        }
        _ => panic!("expected a commit"),
    }
}

#[test]
fn sync_refuses_worse_head() {
    let head = BlockHead { hash: hash_of(4), height: 4 };
    let (s, a) = NewBlockSync::start(hash_of(8), &link(4, hash_of(3)), &head);
    assert!(matches!(a, SyncAction::Fail(SyncError::WorseHead)));
    assert_eq!(s.phase(), SyncPhase::Finished);
}

#[test]
fn sync_refuses_gap_genesis_and_bad_replay() {
    let head = BlockHead { hash: hash_of(1), height: 1 };
    let (mut s, _) = NewBlockSync::start(hash_of(3), &link(3, hash_of(2)), &head);
    s.on_lookup(None);
    assert!(matches!(s.on_block(&link(7, hash_of(2))), SyncAction::Fail(SyncError::NonSequential)));

    let (mut s, _) = NewBlockSync::start(hash_of(3), &link(0, hash_of(2)), &BlockHead::default());
    s.on_lookup(None);
    assert!(matches!(s.on_block(&link(0, hash_of(2))), SyncAction::Fail(SyncError::FailedGenesis)));

    let (mut s, _) = NewBlockSync::start(hash_of(3), &link(3, hash_of(2)), &head);
    s.on_lookup(None);
    s.on_block(&link(3, hash_of(2)));
    assert!(matches!(s.on_replay(false), SyncAction::Fail(SyncError::ReplayFail)));
}

#[test]
fn sync_commits_at_once_when_head_is_known() {
    let head = BlockHead { hash: hash_of(1), height: 1 };
    let (mut s, _) = NewBlockSync::start(hash_of(3), &link(3, hash_of(2)), &head);
    match s.on_lookup(Some(hash_of(3))) {
        SyncAction::Commit { confirm_from, confirm_to, .. } => {
            assert_eq!(confirm_from, 3);
            assert_eq!(confirm_to, 3);
        }
        _ => panic!("expected a commit"),
    }
}

#[test]
fn sealed_block_passes_the_read_back_checks() {
    let mut b = Block::new_at(BlockHead::default(), "n".repeat(64), ts()).unwrap();
    b.seal(vec![GamePad::new(0, 0, 0); 18000]).unwrap();
    assert!(b.check_limits().is_ok());
}
