use vstd::prelude::*;

verus! {

broadcast use vstd::array::group_array_axioms;

/// Bytes the game writes for its state.
pub const GAME_STATE_LEN: usize = 60;

/// The four bytes at `o` read as a little-endian number.
pub open spec fn le_u32(d: Seq<u8>, o: int) -> u32 {
    (d[o] as int + d[o + 1] as int * 256 + d[o + 2] as int * 65536 + d[o + 3] as int * 16777216) as u32
}

/// The game's state after a frame. The position, velocity and camera
/// position are three single-precision floats each, kept here as their bit
/// patterns (`f32::from_bits` gives the numbers).
#[derive(Clone, Copy, Debug)]
pub struct GameState {
    pub num_stars: i32,
    pub pos_bits: [u32; 3],
    pub vel_bits: [u32; 3],
    pub lakitu_pos_bits: [u32; 3],
    pub lakitu_yaw: i32,
    pub in_credits: i32,
    pub course_num: i32,
    pub act_num: i32,
    pub area_index: i32,
}

/// Reads four little-endian bytes at `o`.
fn read_u32_le(data: &[u8], o: usize) -> (v: u32)
    requires
        o + 4 <= data@.len(),
    ensures
        v == le_u32(data@, o as int),
{
    (data[o] as u32) + (data[o + 1] as u32) * 256 + (data[o + 2] as u32) * 65536
        + (data[o + 3] as u32) * 16777216
}

impl GameState {
    /// Reads the state from the bytes the game wrote: nine fields of four
    /// little-endian bytes each, in order, the float triples included.
    pub fn new(data: &[u8]) -> (s: GameState)
        requires
            data@.len() >= GAME_STATE_LEN,
        ensures
            s.num_stars == le_u32(data@, 0) as i32,
            s.pos_bits@ == seq![le_u32(data@, 4), le_u32(data@, 8), le_u32(data@, 12)],
            s.vel_bits@ == seq![le_u32(data@, 16), le_u32(data@, 20), le_u32(data@, 24)],
            s.lakitu_pos_bits@ == seq![le_u32(data@, 28), le_u32(data@, 32), le_u32(data@, 36)],
            s.lakitu_yaw == le_u32(data@, 40) as i32,
            s.in_credits == le_u32(data@, 44) as i32,
            s.course_num == le_u32(data@, 48) as i32,
            s.act_num == le_u32(data@, 52) as i32,
            s.area_index == le_u32(data@, 56) as i32,
    {
        let mut offset: usize = 0;
        let num_stars = read_u32_le(data, offset) as i32;
        offset += 4;
        let pos = [read_u32_le(data, offset), read_u32_le(data, offset + 4), read_u32_le(data, offset + 8)];
        offset += 12;
        let vel = [read_u32_le(data, offset), read_u32_le(data, offset + 4), read_u32_le(data, offset + 8)];
        offset += 12;
        let lakitu_pos = [read_u32_le(data, offset), read_u32_le(data, offset + 4), read_u32_le(data, offset + 8)];
        offset += 12;
        let lakitu_yaw = read_u32_le(data, offset) as i32;
        offset += 4;
        let in_credits = read_u32_le(data, offset) as i32;
        offset += 4;
        let course_num = read_u32_le(data, offset) as i32;
        offset += 4;
        let act_num = read_u32_le(data, offset) as i32;
        offset += 4;
        let area_index = read_u32_le(data, offset) as i32;
        let s = GameState {
            num_stars,
            pos_bits: pos,
            vel_bits: vel,
            lakitu_pos_bits: lakitu_pos,
            lakitu_yaw,
            in_credits,
            course_num,
            act_num,
            area_index,
        };
        proof {
            assert(s.pos_bits@ =~= seq![le_u32(data@, 4), le_u32(data@, 8), le_u32(data@, 12)]);
            assert(s.vel_bits@ =~= seq![le_u32(data@, 16), le_u32(data@, 20), le_u32(data@, 24)]);
            assert(s.lakitu_pos_bits@ =~= seq![le_u32(data@, 28), le_u32(data@, 32), le_u32(data@, 36)]);
        }
        s
    }

    /// The run is won once a star is collected.
    pub fn has_won(&self) -> (won: bool)
        ensures
            won == (self.num_stars > 0),
    {
        self.num_stars > 0
    }
}

} // verus!
