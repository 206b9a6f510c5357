use vstd::prelude::*;

verus! {

/// Where the inputs start in a replay file that carries a header.
pub const HEADER_LEN: usize = 0x400;

/// The frame stored in the four bytes at `pos`: the button word big-endian,
/// then the two stick axes as signed bytes.
pub open spec fn frame_at(data: Seq<u8>, pos: int) -> (u16, i8, i8) {
    ((data[pos] as int * 256 + data[pos + 1] as int) as u16, data[pos + 2] as i8, data[pos + 3] as i8)
}

/// The frames stored from `pos` on, four bytes each; a trailing piece
/// shorter than four bytes is ignored.
pub open spec fn decode_frames(data: Seq<u8>, pos: int) -> Seq<(u16, i8, i8)>
    decreases data.len() - pos,
{
    if pos < 0 || pos + 4 > data.len() {
        Seq::empty()
    } else {
        seq![frame_at(data, pos)] + decode_frames(data, pos + 4)
    }
}

/// The four bytes that store one frame.
pub open spec fn encode_frame(frame: (u16, i8, i8)) -> Seq<u8> {
    seq![(frame.0 >> 8) as u8, (frame.0 & 0xff) as u8, frame.1 as u8, frame.2 as u8]
}

/// The bytes that store a sequence of frames, one after the other.
pub open spec fn encode_frames(frames: Seq<(u16, i8, i8)>) -> Seq<u8>
    decreases frames.len(),
{
    if frames.len() == 0 {
        Seq::empty()
    } else {
        encode_frame(frames[0]) + encode_frames(frames.drop_first())
    }
}

/// A recorded solution read back frame by frame.
pub struct Replay {
    data: Vec<u8>,
    position: usize,
}

impl Replay {
    /// The frames still to be read.
    pub closed spec fn remaining(&self) -> Seq<(u16, i8, i8)> {
        decode_frames(self.data@, self.position as int)
    }

    /// Reads `solution_bytes` from the start, or from just past the header
    /// when `has_header` holds.
    pub fn new(solution_bytes: Vec<u8>, has_header: bool) -> (r: Replay)
        ensures
            r.remaining() == decode_frames(solution_bytes@, if has_header { HEADER_LEN as int } else { 0 }),
    {
        let data = solution_bytes;
        let mut pos: usize = 0;
        if has_header {
            pos = HEADER_LEN;
        }
        Replay { data, position: pos }
    }

    /// The next frame, or `None` when fewer than four bytes are left; a
    /// reader that has given `None` stays where it is.
    pub fn next(&mut self) -> (frame: Option<(u16, i8, i8)>)
        ensures
            old(self).remaining() == (match frame {
                None => Seq::<(u16, i8, i8)>::empty(),
                Some(f) => seq![f] + final(self).remaining(),
            }),
            frame is None ==> *final(self) == *old(self),
    {
        if self.position > self.data.len() || self.data.len() - self.position < 4 {
            return None;
        }
        let p = self.position;
        let button = (self.data[p] as u16) * 256 + (self.data[p + 1] as u16);
        let stick_x = self.data[p + 2] as i8;
        let stick_y = self.data[p + 3] as i8;
        self.position = p + 4;
        Some((button, stick_x, stick_y))
    }
}

/// Appends the four bytes that store a frame: the button word's high byte,
/// its low byte, then the two stick axes.
pub fn push_frame(bytes: &mut Vec<u8>, button: u16, stick_x: i8, stick_y: i8)
    ensures
        final(bytes)@ == old(bytes)@ + encode_frame((button, stick_x, stick_y)),
{
    let high_byte = (button >> 8) as u8;
    let low_byte = (button & 0xff) as u8;
    bytes.push(high_byte);
    bytes.push(low_byte);
    bytes.push(stick_x as u8);
    bytes.push(stick_y as u8);
    proof {
        assert(final(bytes)@ =~= old(bytes)@ + encode_frame((button, stick_x, stick_y)));
    }
}

/// Reading past a prefix of `p.len()` bytes is reading the rest from its start.
proof fn lemma_decode_shift(p: Seq<u8>, s: Seq<u8>, k: int)
    requires
        0 <= k,
    ensures
        decode_frames(p + s, p.len() + k) == decode_frames(s, k),
    decreases s.len() - k,
{
    let d = p + s;
    if k + 4 <= s.len() {
        lemma_decode_shift(p, s, k + 4);
        assert(frame_at(d, p.len() + k) == frame_at(s, k));
    }
}

/// A frame survives being stored in four bytes and read back.
proof fn lemma_frame_round_trip(f: (u16, i8, i8))
    ensures
        frame_at(encode_frame(f), 0) == f,
{
    let b = f.0;
    let x = f.1;
    let y = f.2;
    assert(((b >> 8) as u8) as int * 256 + ((b & 0xff) as u8) as int == b) by (bit_vector);
    assert((x as u8) as i8 == x) by (bit_vector);
    assert((y as u8) as i8 == y) by (bit_vector);
}

/// Reading back the bytes that store a sequence of frames gives the frames:
/// what a recording writes, a replay reads.
pub proof fn lemma_replay_reads_recording(frames: Seq<(u16, i8, i8)>)
    ensures
        decode_frames(encode_frames(frames), 0) == frames,
    decreases frames.len(),
{
    if frames.len() > 0 {
        let e = encode_frame(frames[0]);
        let rest = encode_frames(frames.drop_first());
        lemma_replay_reads_recording(frames.drop_first());
        lemma_decode_shift(e, rest, 0);
        lemma_frame_round_trip(frames[0]);
        assert(frame_at(e + rest, 0) == frame_at(e, 0));
        assert(decode_frames(e + rest, 0) =~= seq![frames[0]] + frames.drop_first());
        assert(seq![frames[0]] + frames.drop_first() =~= frames);
    } else {
        assert(decode_frames(Seq::<u8>::empty(), 0) =~= frames);
    }
}

/// Appending a frame's bytes appends the frame to what is stored.
pub proof fn lemma_encode_push(frames: Seq<(u16, i8, i8)>, f: (u16, i8, i8))
    ensures
        encode_frames(frames.push(f)) == encode_frames(frames) + encode_frame(f),
    decreases frames.len(),
{
    if frames.len() == 0 {
        let one = frames.push(f);
        assert(one.drop_first() =~= Seq::<(u16, i8, i8)>::empty());
        assert(one[0] == f);
        assert(encode_frames(one.drop_first()) =~= Seq::<u8>::empty());
        assert(encode_frames(one) =~= encode_frame(f) + Seq::<u8>::empty());
        assert(encode_frames(one) =~= encode_frame(f));
    } else {
        lemma_encode_push(frames.drop_first(), f);
        assert(frames.push(f).drop_first() =~= frames.drop_first().push(f));
        assert(encode_frames(frames.push(f)) =~= encode_frames(frames) + encode_frame(f));
    }
}

/// A recording that stored `frames` and then records one more frame reads
/// back as `frames` followed by that frame.
pub proof fn lemma_recording_replays(frames: Seq<(u16, i8, i8)>, f: (u16, i8, i8))
    ensures
        decode_frames(encode_frames(frames) + encode_frame(f), 0) == frames.push(f),
{
    lemma_encode_push(frames, f);
    lemma_replay_reads_recording(frames.push(f));
}

} // verus!
