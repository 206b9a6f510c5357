use sha2::Digest;
use sm64_blockchain::block::{Block, BlockHead};
use sm64_blockchain::client::{duplicate_block, ticket_option, ClientError, MiningSession};
use sm64_blockchain::config::default_config;
use sm64_blockchain::gamepad::GamePad;
use sm64_blockchain::hash::BlobHash;
use sm64_blockchain::info_file::info_bytes;
use sm64_blockchain::legacy;
use sm64_blockchain::tags::{head_tag, height_tag, is_tmp_library, temp_tag, temp_tag_prefix};
use sm64_blockchain::ticket::Ticket;
use sm64_blockchain::timestamp::Timestamp;
use sm64_blockchain::web::{GamePadWeb, LightBlock};

#[test]
fn mining_round_trip() {
    let mut s = MiningSession::new("mario".to_string()).unwrap();
    assert!(matches!(s.submit_mine(1, vec![]), Err(ClientError::NoMiningBlock)));
    let head = BlockHead { hash: BlobHash::from_bytes([3; 32]), height: 10 };
    let seed = s.start_mine(head, "prev".to_string()).unwrap();
    assert!(matches!(s.submit_mine(seed.wrapping_add(1), vec![]), Err(ClientError::SeedMismatch)));
    assert!(matches!(s.submit_mine(seed, vec![GamePad::new(0, 0, 0); 18001]), Err(ClientError::SolutionTooLong)));
    let block = s.submit_mine(seed, vec![GamePad::new(1, 2, 3)]).unwrap();
    assert_eq!(block.block_height, 11);
    assert_eq!(block.miner_name, "mario");
    assert_eq!(block.solution, vec![GamePad::new(1, 2, 3)]);
    assert_eq!(block.calc_seed("prev"), seed);
    s.finish_submit();
    assert!(matches!(s.submit_mine(seed, vec![]), Err(ClientError::NoMiningBlock)));
}

#[test]
fn mining_name_limit() {
    assert!(matches!(MiningSession::new("a".repeat(65)), Err(ClientError::NameTooLong)));
    assert!(MiningSession::new("a".repeat(64)).is_ok());
}

#[test]
fn ticket_text_option() {
    assert_eq!(ticket_option(String::new()), None);
    assert_eq!(ticket_option("abc".to_string()), Some("abc".to_string()));
}

#[test]
fn duplicated_block_is_equal() {
    let t = Timestamp::from_parts(10, 20).unwrap();
    let mut b = Block::new_at(BlockHead::default(), "m".to_string(), t).unwrap();
    b.seal(vec![GamePad::new(4, 5, 6)]).unwrap();
    let c = duplicate_block(&b);
    assert_eq!(c.miner_name, b.miner_name);
    assert_eq!(c.solution, b.solution);
    assert_eq!(c.block_height, b.block_height);
    assert_eq!(c.timestamp.secs(), 10);
    assert_eq!(c.timestamp.nanos(), 20);
}

#[test]
fn tickets_hold_peers_once() {
    let t = Ticket::for_peer([1; 32], [2; 32]);
    assert_eq!(t.topic_id(), [1; 32]);
    assert_eq!(t.bootstrap(), &vec![[2u8; 32]]);
    let mut t = Ticket::new([0; 32]);
    assert!(t.bootstrap().is_empty());
    t.add_peer([5; 32]);
    t.add_peer([6; 32]);
    t.add_peer([5; 32]);
    assert_eq!(t.bootstrap().len(), 2);
    let r1 = Ticket::new_random();
    let r2 = Ticket::new_random();
    assert_ne!(r1.topic_id(), r2.topic_id());
}

#[test]
fn web_pads_and_light_blocks() {
    let p = GamePadWeb::new(0x8000, -3, 4).unwrap();
    assert_eq!((p.button, p.stick_x, p.stick_y), (0x8000, -3, 4));
    let pads = GamePadWeb::to_pads(&vec![p, GamePadWeb::new(1, 2, 3).unwrap()]);
    assert_eq!(pads, vec![GamePad::new(0x8000, -3, 4), GamePad::new(1, 2, 3)]);
    let t = Timestamp::from_parts(1431648000, 0).unwrap();
    let head = BlockHead { hash: BlobHash::from_bytes([0xab; 32]), height: 1 };
    let b = Block::new_at(head, "peach".to_string(), t).unwrap();
    let l = LightBlock::from_block(b);
    assert_eq!(l.prev_hash, "ab".repeat(32));
    assert_eq!(l.block_height, 2);
    assert_eq!(l.timestamp, "2015-05-15 00:00:00 UTC");
    assert_eq!(l.miner_name, "peach");
}

#[test]
fn info_file_layout() {
    let bytes = info_bytes(0x01020304, 1, default_config());
    assert_eq!(bytes.len(), 20);
    assert_eq!(&bytes[0..4], &[4, 3, 2, 1]);
    assert_eq!(&bytes[4..8], &[1, 0, 0, 0]);
    assert_eq!(&bytes[8..12], &72000u32.to_le_bytes());
    assert_eq!(&bytes[12..16], &100u32.to_le_bytes());
    assert_eq!(&bytes[16..20], &5u32.to_le_bytes());
}

#[test]
fn storage_tags() {
    assert_eq!(head_tag(), "head");
    assert_eq!(height_tag(0), "0");
    assert_eq!(height_tag(u128::MAX), "340282366920938463463374607431768211455");
    assert_eq!(temp_tag(12), "temp_12");
    assert_eq!(temp_tag_prefix(), "temp_");
}

#[test]
fn temporary_library_names() {
    assert!(is_tmp_library("sm64_123.tmp.so"));
    assert!(is_tmp_library(".tmp.so"));
    assert!(!is_tmp_library("sm64.us.so"));
    assert!(!is_tmp_library("tmp.so"));
    assert!(!is_tmp_library("a.tmp.soo"));
}

#[test]
fn legacy_seed_is_hex_sha256() {
    let s = legacy::calc_seed("abc", 12);
    let expected = hex::encode(sha2::Sha256::digest(b"abc12"));
    assert_eq!(s, expected);
    assert_eq!(s.len(), 64);
}
