use vstd::prelude::*;
use crate::config::Config;

verus! {

/// The four bytes of `v`, least significant first.
pub open spec fn le_bytes(v: u32) -> Seq<u8> {
    seq![(v % 256) as u8, ((v / 256) % 256) as u8, ((v / 65536) % 256) as u8, (v / 16777216) as u8]
}

/// Appends the four bytes of `v`, least significant first.
fn push_u32_le(bytes: &mut Vec<u8>, v: u32)
    ensures
        final(bytes)@ == old(bytes)@ + le_bytes(v),
{
    bytes.push((v % 256) as u8);
    bytes.push(((v / 256) % 256) as u8);
    bytes.push(((v / 65536) % 256) as u8);
    bytes.push((v / 16777216) as u8);
    proof {
        assert(final(bytes)@ =~= old(bytes)@ + le_bytes(v));
    }
}

/// The contents of the file that tells the game program how to run: the
/// seed, the record mode, then the solution, window and random-action limits
/// cut to 32 bits, each as four little-endian bytes.
pub fn info_bytes(seed: u32, record_mode: u32, config: Config) -> (bytes: Vec<u8>)
    ensures
        bytes@ == le_bytes(seed) + le_bytes(record_mode) + le_bytes(config.max_solution_bytes as u32)
            + le_bytes(config.max_window_length as u32) + le_bytes(config.max_random_action as u32),
{
    let mut bytes: Vec<u8> = Vec::new();
    push_u32_le(&mut bytes, seed);
    push_u32_le(&mut bytes, record_mode);
    push_u32_le(&mut bytes, config.max_solution_bytes as u32);
    push_u32_le(&mut bytes, config.max_window_length as u32);
    push_u32_le(&mut bytes, config.max_random_action as u32);
    proof {
        assert(bytes@ =~= le_bytes(seed) + le_bytes(record_mode) + le_bytes(config.max_solution_bytes as u32)
            + le_bytes(config.max_window_length as u32) + le_bytes(config.max_random_action as u32));
    }
    bytes
}

} // verus!
