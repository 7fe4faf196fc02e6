//! Sound-server devices and stream framing: which nodes the server reports
//! are audio devices, how a captured chunk of bytes becomes whole frames of
//! samples, and how queued samples fill a playback chunk.
//!
//! Samples cross the stream as little-endian 32-bit floats; here they are
//! carried as their bit patterns (`u32`), which is all the framing needs.

use vstd::prelude::*;
use vstd::string::*;
use crate::buffer::{spec_validate_interleaved, validate_interleaved};
use crate::text::{parse_u32, seq_contains, spec_parse_u32, str_contains};

verus! {

/// Channel count assumed for a device that does not state one.
pub const DEFAULT_DEVICE_CHANNELS: u32 = 2;

/// Sample rate assumed for a device that does not state one, in Hz.
pub const DEFAULT_DEVICE_RATE: u32 = 48000;

/// Direction of an audio device.
#[derive(Debug, Clone, Copy, PartialEq, Eq, Structural)]
pub enum DeviceType {
    /// Produces audio (microphone, line in, monitor).
    Source,
    /// Consumes audio (speakers, headphones).
    Sink,
}

/// An audio device as the sound server describes it.
#[derive(Debug)]
pub struct AudioDevice {
    /// Server object id.
    pub id: u32,
    /// Human-readable name.
    pub name: String,
    /// Whether it records or plays.
    pub device_type: DeviceType,
    /// Channel count.
    pub channels: u32,
    /// Sample rate in Hz.
    pub sample_rate: u32,
}

/// The text of an optional property.
pub open spec fn opt_text(o: Option<&str>) -> Option<Seq<char>> {
    match o {
        Some(s) => Some(s@),
        None => None,
    }
}

/// The direction a node's media class names: a source or input first, then
/// a sink or output; `None` for anything else.
pub open spec fn spec_device_type(media_class: Seq<char>) -> Option<DeviceType> {
    if seq_contains(media_class, "Source"@) || seq_contains(media_class, "Input"@) {
        Some(DeviceType::Source)
    } else if seq_contains(media_class, "Sink"@) || seq_contains(media_class, "Output"@) {
        Some(DeviceType::Sink)
    } else {
        None
    }
}

/// A node of this media class is an audio device.
pub open spec fn is_audio_device_class(media_class: Seq<char>) -> bool {
    spec_device_type(media_class) is Some && seq_contains(media_class, "Audio"@)
}

/// A device's name: its description, else its node name, else `Unknown`.
pub open spec fn spec_device_name(description: Option<Seq<char>>, node_name: Option<Seq<char>>) -> Seq<
    char,
> {
    match description {
        Some(d) => d,
        None => match node_name {
            Some(n) => n,
            None => "Unknown"@,
        },
    }
}

/// A numeric property: its value where it reads as a `u32`, else `default`.
pub open spec fn parsed_or(text: Option<Seq<char>>, default: u32) -> u32 {
    match text {
        Some(t) => match spec_parse_u32(t) {
            Some(v) => v,
            None => default,
        },
        None => default,
    }
}

/// The media class of a node; a node without one has the empty class.
pub open spec fn class_text(media_class: Option<&str>) -> Seq<char> {
    match media_class {
        Some(s) => s@,
        None => Seq::empty(),
    }
}

/// The device that a node with these properties describes, or `None` when
/// the node is not an audio source or sink.
///
/// `media_class`, `description`, `node_name`, `channels` and `rate` are the
/// node's `media.class`, `node.description`, `node.name`, `audio.channels`
/// and `audio.rate` properties.
pub fn device_from_properties(
    id: u32,
    media_class: Option<&str>,
    description: Option<&str>,
    node_name: Option<&str>,
    channels: Option<&str>,
    rate: Option<&str>,
) -> (r: Option<AudioDevice>)
    ensures
        r is Some <==> is_audio_device_class(class_text(media_class)),
        r matches Some(d) ==> {
            &&& d.id == id
            &&& d.device_type == spec_device_type(class_text(media_class))->0
            &&& d.name@ == spec_device_name(opt_text(description), opt_text(node_name))
            &&& d.channels == parsed_or(opt_text(channels), DEFAULT_DEVICE_CHANNELS)
            &&& d.sample_rate == parsed_or(opt_text(rate), DEFAULT_DEVICE_RATE)
        },
{
    let mc: &str = match media_class {
        Some(s) => s,
        None => "",
    };
    proof {
        reveal_strlit("");
    }
    assert(mc@ == class_text(media_class));
    let device_type = if str_contains(mc, "Source") || str_contains(mc, "Input") {
        DeviceType::Source
    } else if str_contains(mc, "Sink") || str_contains(mc, "Output") {
        DeviceType::Sink
    } else {
        return None;
    };
    if !str_contains(mc, "Audio") {
        return None;
    }
    let name = match description {
        Some(d) => String::from_str(d),
        None => match node_name {
            Some(n) => String::from_str(n),
            None => String::from_str("Unknown"),
        },
    };
    let channels = match channels {
        Some(t) => match parse_u32(t) {
            Some(v) => v,
            None => DEFAULT_DEVICE_CHANNELS,
        },
        None => DEFAULT_DEVICE_CHANNELS,
    };
    let sample_rate = match rate {
        Some(t) => match parse_u32(t) {
            Some(v) => v,
            None => DEFAULT_DEVICE_RATE,
        },
        None => DEFAULT_DEVICE_RATE,
    };
    Some(AudioDevice { id, name, device_type, channels, sample_rate })
}

/// Bytes per sample on the stream (32-bit float).
pub const SAMPLE_BYTES: usize = 4;

/// The 32-bit word stored little-endian in `b[4 * i .. 4 * i + 4]`.
pub open spec fn le_word(b: Seq<u8>, i: int) -> u32 {
    (b[4 * i] + 256 * b[4 * i + 1] + 65536 * b[4 * i + 2] + 16777216 * b[4 * i + 3]) as u32
}

/// The first `n` little-endian words of `b`.
pub open spec fn le_words(b: Seq<u8>, n: int) -> Seq<u32> {
    Seq::new(n as nat, |i: int| le_word(b, i))
}

/// The four little-endian bytes of `w`, lowest first.
pub open spec fn word_bytes(w: u32) -> Seq<u8> {
    seq![
        (w % 256) as u8,
        ((w / 256) % 256) as u8,
        ((w / 65536) % 256) as u8,
        (w / 16777216) as u8,
    ]
}

/// The little-endian bytes of `ws`, word after word.
pub open spec fn le_bytes(ws: Seq<u32>) -> Seq<u8>
    decreases ws.len(),
{
    if ws.len() == 0 {
        Seq::empty()
    } else {
        le_bytes(ws.drop_last()) + word_bytes(ws.last())
    }
}

/// Whole samples in a captured chunk: those of the `chunk_size` announced
/// bytes that lie inside the `raw_len` mapped ones.
pub open spec fn captured_samples(raw_len: int, chunk_size: int) -> int {
    let announced = chunk_size / 4;
    let mapped = raw_len / 4;
    if announced <= mapped {
        announced
    } else {
        mapped
    }
}

/// The channel count a capture stream frames by: the negotiated one, at least 1.
pub open spec fn capture_channels(channels: u32) -> u32 {
    if channels == 0 {
        1
    } else {
        channels
    }
}

/// A captured chunk is handed on when it holds at least one whole frame
/// and forms a valid interleaved buffer.
pub open spec fn chunk_delivered(raw_len: int, chunk_size: int, channels: u32, sample_rate: u32) -> bool {
    let n = captured_samples(raw_len, chunk_size);
    &&& n / (capture_channels(channels) as int) > 0
    &&& spec_validate_interleaved(n as usize, capture_channels(channels), sample_rate) is Ok
}

fn read_le_word(raw: &[u8], i: usize) -> (w: u32)
    requires
        4 * i + 4 <= raw@.len(),
    ensures
        w == le_word(raw@, i as int),
{
    let len = raw.len();
    assert(4 * i + 4 <= len);
    let k = 4 * i;
    let w = raw[k] as u32 + raw[k + 1] as u32 * 256 + raw[k + 2] as u32 * 65536 + raw[k + 3] as u32
        * 16777216;
    w
}

/// The samples (as bit patterns) that a captured chunk hands on, framed by
/// `capture_channels(channels)` at `sample_rate`; `None` when the chunk is
/// dropped (no whole frame, or not a valid buffer).
///
/// `raw` is the mapped memory of the chunk and `chunk_size` the byte count
/// the server announced for it.
pub fn capture_chunk(raw: &[u8], chunk_size: usize, channels: u32, sample_rate: u32) -> (r: Option<
    Vec<u32>,
>)
    ensures
        r is Some <==> chunk_delivered(raw@.len() as int, chunk_size as int, channels, sample_rate),
        r matches Some(w) ==> w@ == le_words(
            raw@,
            captured_samples(raw@.len() as int, chunk_size as int),
        ),
{
    let announced = chunk_size / SAMPLE_BYTES;
    let mapped = raw.len() / SAMPLE_BYTES;
    let n = if announced <= mapped {
        announced
    } else {
        mapped
    };
    let ch: u32 = if channels == 0 {
        1
    } else {
        channels
    };
    if n / (ch as usize) == 0 {
        return None;
    }
    match validate_interleaved(n, ch, sample_rate) {
        Err(_) => return None,
        Ok(_) => {},
    }
    let mut words: Vec<u32> = Vec::with_capacity(n);
    let mut i: usize = 0;
    while i < n
        invariant
            i <= n,
            n == captured_samples(raw@.len() as int, chunk_size as int),
            4 * n <= raw@.len(),
            words@ == le_words(raw@, i as int),
        decreases n - i,
    {
        let w = read_le_word(raw, i);
        words.push(w);
        i = i + 1;
        assert(words@ =~= le_words(raw@, i as int));
    }
    Some(words)
}

/// The words a playback chunk of `slots` samples carries, starting at
/// position `pos` of `pending`: queued samples while they last, then silence.
pub open spec fn slot_words(pending: Seq<u32>, pos: int, slots: int) -> Seq<u32> {
    Seq::new(
        slots as nat,
        |j: int|
            if pos + j < pending.len() {
                pending[pos + j]
            } else {
                0u32
            },
    )
}

/// The play position after `slots` samples were taken from position `pos`
/// of a queue of `len` samples: it moves while samples remain, never past the end.
pub open spec fn played_position(len: int, pos: int, slots: int) -> int {
    if pos >= len {
        pos
    } else if pos + slots <= len {
        pos + slots
    } else {
        len
    }
}

/// The samples of `pending` from position `pos` on (none past its end).
pub open spec fn unplayed(pending: Seq<u32>, pos: int) -> Seq<u32> {
    if 0 <= pos < pending.len() {
        pending.subrange(pos, pending.len() as int)
    } else {
        Seq::empty()
    }
}

/// `n` silent samples.
pub open spec fn silence(n: int) -> Seq<u32> {
    Seq::new(n as nat, |j: int| 0u32)
}

/// How many of `available` unplayed samples a chunk of `slots` samples takes.
pub open spec fn played_count(available: int, slots: int) -> int {
    if slots <= available {
        slots
    } else {
        available
    }
}

/// A playback chunk of `slots` samples from position `pos` is the next
/// unplayed samples, as many as there are, then silence; the play position
/// moves past exactly the samples taken.
pub proof fn lemma_render_takes_prefix(pending: Seq<u32>, pos: int, slots: int)
    requires
        0 <= pos,
        0 <= slots,
    ensures
        ({
            let rem = unplayed(pending, pos);
            let m = played_count(rem.len() as int, slots);
            &&& slot_words(pending, pos, slots) == rem.take(m) + silence(slots - m)
            &&& unplayed(pending, played_position(pending.len() as int, pos, slots)) == rem.skip(m)
        }),
{
    let rem = unplayed(pending, pos);
    let m = played_count(rem.len() as int, slots);
    assert(slot_words(pending, pos, slots) =~= rem.take(m) + silence(slots - m));
    assert(unplayed(pending, played_position(pending.len() as int, pos, slots)) =~= rem.skip(m));
}

/// One chunk of playback data: whole frames of little-endian samples.
pub struct PlaybackChunk {
    /// The bytes to write at the start of the stream buffer.
    pub bytes: Vec<u8>,
    /// Bytes per frame.
    pub stride: usize,
    /// Frames written.
    pub frames: usize,
}

/// The samples feeding a playback stream: the queued buffer, the position
/// of the next sample to play, and the stream's channel count.
pub struct PlaybackQueue {
    pending: Vec<u32>,
    write_pos: usize,
    channels: u32,
}

impl PlaybackQueue {
    #[verifier::type_invariant]
    spec fn well_formed(self) -> bool {
        &&& self.channels > 0
        &&& 4 * (self.channels as int) <= usize::MAX
    }

    /// Queued samples (bit patterns).
    pub closed spec fn pending(self) -> Seq<u32> {
        self.pending@
    }

    /// Position of the next sample to play.
    pub closed spec fn position(self) -> int {
        self.write_pos as int
    }

    /// Channel count of the stream.
    pub closed spec fn stream_channels(self) -> u32 {
        self.channels
    }

    /// An empty queue for a stream of `channels` channels.
    pub fn new(channels: u32) -> (q: Self)
        requires
            channels > 0,
            4 * (channels as int) <= usize::MAX,
        ensures
            q.pending() == Seq::<u32>::empty(),
            q.position() == 0,
            q.stream_channels() == channels,
    {
        PlaybackQueue { pending: Vec::new(), write_pos: 0, channels }
    }

    /// Whether every queued sample has been played, so a new buffer is wanted.
    pub fn needs_refill(&self) -> (r: bool)
        ensures
            r == (self.position() >= self.pending().len()),
    {
        self.write_pos >= self.pending.len()
    }

    /// Samples still to play, in order.
    pub open spec fn remaining(self) -> Seq<u32> {
        unplayed(self.pending(), self.position())
    }

    /// Offer the next buffer of `samples`: it is queued, to play from its
    /// start, only once every queued sample has been played; otherwise the
    /// queue is left as it is and the buffer is not taken.
    pub fn offer(&mut self, samples: Vec<u32>) -> (taken: bool)
        ensures
            taken == (old(self).position() >= old(self).pending().len()),
            taken == (old(self).remaining().len() == 0),
            taken ==> final(self).pending() == samples@ && final(self).position() == 0
                && final(self).remaining() == samples@,
            !taken ==> final(self).pending() == old(self).pending() && final(self).position()
                == old(self).position(),
            final(self).stream_channels() == old(self).stream_channels(),
    {
        proof {
            use_type_invariant(&*self);
        }
        if self.write_pos >= self.pending.len() {
            self.pending = samples;
            self.write_pos = 0;
            proof {
                assert(self.pending@.subrange(0, self.pending@.len() as int) =~= self.pending@);
            }
            true
        } else {
            false
        }
    }

    /// Fill a stream buffer of `slice_len` bytes with as many whole frames
    /// as fit, taking queued samples in order and silence once they run out.
    pub fn render(&mut self, slice_len: usize) -> (c: PlaybackChunk)
        ensures
            c.stride == 4 * (old(self).stream_channels() as int),
            c.frames == slice_len / c.stride,
            c.bytes@ == le_bytes(
                slot_words(
                    old(self).pending(),
                    old(self).position(),
                    c.frames * (old(self).stream_channels() as int),
                ),
            ),
            c.bytes@.len() == c.frames * c.stride,
            final(self).pending() == old(self).pending(),
            final(self).stream_channels() == old(self).stream_channels(),
            final(self).position() == played_position(
                old(self).pending().len() as int,
                old(self).position(),
                c.frames * (old(self).stream_channels() as int),
            ),
            ({
                let slots = c.frames * (old(self).stream_channels() as int);
                let m = played_count(old(self).remaining().len() as int, slots);
                &&& slot_words(old(self).pending(), old(self).position(), slots)
                    == old(self).remaining().take(m) + silence(slots - m)
                &&& final(self).remaining() == old(self).remaining().skip(m)
            }),
    {
        proof {
            use_type_invariant(&*self);
        }
        let ch = self.channels as usize;
        let stride = 4 * ch;
        let frames = slice_len / stride;
        proof {
            assert(frames * stride <= slice_len) by (nonlinear_arith)
                requires
                    stride > 0,
                    frames == slice_len / stride,
            ;
            assert(frames * ch * 4 == frames * stride) by (nonlinear_arith)
                requires
                    stride == 4 * ch,
            ;
        }
        let slots = frames * ch;
        let len = self.pending.len();
        let ghost start = self.write_pos as int;
        let mut pos = self.write_pos;
        let mut bytes: Vec<u8> = Vec::new();
        let mut k: usize = 0;
        while k < slots
            invariant
                k <= slots,
                len == self.pending@.len(),
                pos == played_position(len as int, start, k as int),
                bytes@ == le_bytes(slot_words(self.pending@, start, k as int)),
                bytes@.len() == 4 * k,
                slots * 4 <= usize::MAX,
            decreases slots - k,
        {
            let w: u32 = if pos < len {
                let s = self.pending[pos];
                pos = pos + 1;
                s
            } else {
                0
            };
            bytes.push((w % 256) as u8);
            bytes.push(((w / 256) % 256) as u8);
            bytes.push(((w / 65536) % 256) as u8);
            bytes.push((w / 16777216) as u8);
            proof {
                let ws = slot_words(self.pending@, start, k + 1);
                assert(ws.drop_last() =~= slot_words(self.pending@, start, k as int));
                assert(ws.last() == w);
            }
            k = k + 1;
        }
        self.write_pos = pos;
        proof {
            lemma_render_takes_prefix(self.pending@, start, slots as int);
        }
        PlaybackChunk { bytes, stride, frames }
    }
}

proof fn lemma_word_bytes_roundtrip(w: u32)
    ensures
        le_word(word_bytes(w), 0) == w,
{
    let b = word_bytes(w);
    assert(b[0] == w % 256);
    assert(b[1] == (w / 256) % 256);
    assert(b[2] == (w / 65536) % 256);
    assert(b[3] == w / 16777216) by {
        assert(w / 16777216 < 256);
    }
    assert(w % 256 + 256 * ((w / 256) % 256) + 65536 * ((w / 65536) % 256) + 16777216 * (w
        / 16777216) == w) by (bit_vector);
}

proof fn lemma_le_bytes_layout(ws: Seq<u32>)
    ensures
        le_bytes(ws).len() == 4 * ws.len(),
        forall|i: int, t: int|
            0 <= i < ws.len() && 0 <= t < 4 ==> #[trigger] le_bytes(ws)[4 * i + t] == word_bytes(
                ws[i],
            )[t],
    decreases ws.len(),
{
    if ws.len() > 0 {
        let init = ws.drop_last();
        lemma_le_bytes_layout(init);
        assert forall|i: int, t: int| 0 <= i < ws.len() && 0 <= t < 4 implies #[trigger] le_bytes(
            ws,
        )[4 * i + t] == word_bytes(ws[i])[t] by {
            if i < init.len() {
                assert(init[i] == ws[i]);
                assert(le_bytes(init)[4 * i + t] == word_bytes(init[i])[t]);
            }
        }
    }
}

/// Samples that a playback chunk carries read back unchanged when the same
/// bytes are decoded as a captured chunk: the two encodings are inverse.
pub proof fn lemma_playback_capture_roundtrip(ws: Seq<u32>)
    ensures
        le_words(le_bytes(ws), ws.len() as int) == ws,
{
    lemma_le_bytes_layout(ws);
    let b = le_bytes(ws);
    assert forall|i: int| 0 <= i < ws.len() implies #[trigger] le_word(b, i) == ws[i] by {
        lemma_word_bytes_roundtrip(ws[i]);
        assert(b[4 * i + 0] == word_bytes(ws[i])[0]);
        assert(b[4 * i + 1] == word_bytes(ws[i])[1]);
        assert(b[4 * i + 2] == word_bytes(ws[i])[2]);
        assert(b[4 * i + 3] == word_bytes(ws[i])[3]);
    }
    assert(le_words(b, ws.len() as int) =~= ws);
}

/// Two renders in a row play what one render of both sizes would: queued
/// samples come out in order, none twice and none skipped, then silence.
pub proof fn lemma_render_in_order(pending: Seq<u32>, pos: int, a: int, b: int)
    requires
        0 <= pos,
        0 <= a,
        0 <= b,
    ensures
        slot_words(pending, pos, a) + slot_words(
            pending,
            played_position(pending.len() as int, pos, a),
            b,
        ) == slot_words(pending, pos, a + b),
        played_position(
            pending.len() as int,
            played_position(pending.len() as int, pos, a),
            b,
        ) == played_position(pending.len() as int, pos, a + b),
{
    assert(slot_words(pending, pos, a) + slot_words(
        pending,
        played_position(pending.len() as int, pos, a),
        b,
    ) =~= slot_words(pending, pos, a + b));
}

/// One callback of a playback stream whose unplayed samples are `rem`: the
/// `waiting` buffer is queued only when nothing is left to play, then `slots`
/// samples are played. Gives the samples taken, what stays unplayed, and
/// whether the waiting buffer was queued.
pub open spec fn playback_step(rem: Seq<u32>, waiting: Option<Seq<u32>>, slots: int) -> (
    Seq<u32>,
    Seq<u32>,
    bool,
) {
    let took = rem.len() == 0 && waiting is Some;
    let r = if took {
        waiting->0
    } else {
        rem
    };
    let m = played_count(r.len() as int, slots);
    (r.take(m), r.skip(m), took)
}

/// Callbacks in turn, with buffers `bufs` arriving in order: in each step
/// `(ready, slots)` the next buffer is waiting when `ready` holds (and one is
/// left) and `slots` samples are played. Gives every sample taken, in order,
/// what stays unplayed, and how many buffers were queued.
pub open spec fn playback_run(rem: Seq<u32>, bufs: Seq<Seq<u32>>, steps: Seq<(bool, nat)>) -> (
    Seq<u32>,
    Seq<u32>,
    nat,
)
    decreases steps.len(),
{
    if steps.len() == 0 {
        (Seq::empty(), rem, 0)
    } else {
        let waiting = if steps[0].0 && bufs.len() > 0 {
            Some(bufs[0])
        } else {
            None
        };
        let (t, r, took) = playback_step(rem, waiting, steps[0].1 as int);
        let rest = if took {
            bufs.drop_first()
        } else {
            bufs
        };
        let (t2, r2, n2) = playback_run(r, rest, steps.drop_first());
        (t + t2, r2, n2 + if took {
            1nat
        } else {
            0nat
        })
    }
}

/// Across callbacks no sample is dropped, repeated or reordered: what was
/// played, then what is still queued, then the buffers not yet queued, is
/// exactly what was queued at the start followed by every buffer in order;
/// buffers are queued in order and only as many as arrived.
pub proof fn lemma_playback_plays_every_buffer_in_order(
    rem: Seq<u32>,
    bufs: Seq<Seq<u32>>,
    steps: Seq<(bool, nat)>,
)
    ensures
        ({
            let (taken, left, n) = playback_run(rem, bufs, steps);
            &&& n <= bufs.len()
            &&& taken + left + bufs.skip(n as int).flatten() == rem + bufs.flatten()
        }),
    decreases steps.len(),
{
    if steps.len() == 0 {
        assert(bufs.skip(0) =~= bufs);
        assert(Seq::<u32>::empty() + rem =~= rem);
    } else {
        let waiting = if steps[0].0 && bufs.len() > 0 {
            Some(bufs[0])
        } else {
            None
        };
        let (t, r, took) = playback_step(rem, waiting, steps[0].1 as int);
        let rest = if took {
            bufs.drop_first()
        } else {
            bufs
        };
        lemma_playback_plays_every_buffer_in_order(r, rest, steps.drop_first());
        let (t2, r2, n2) = playback_run(r, rest, steps.drop_first());
        let q = if took {
            waiting->0
        } else {
            rem
        };
        let m = played_count(q.len() as int, steps[0].1 as int);
        assert(q.take(m) + q.skip(m) =~= q);
        if took {
            assert(rem =~= Seq::<u32>::empty());
            assert(bufs.flatten() == bufs[0] + bufs.drop_first().flatten());
            assert(rest.skip(n2 as int) =~= bufs.skip(n2 as int + 1));
            assert(t + t2 + r2 + bufs.skip(n2 as int + 1).flatten() =~= t + (t2 + r2 + rest.skip(
                n2 as int,
            ).flatten()));
            assert(rem + bufs.flatten() =~= q + rest.flatten());
        } else {
            assert(t + t2 + r2 + bufs.skip(n2 as int).flatten() =~= t + (t2 + r2 + rest.skip(
                n2 as int,
            ).flatten()));
        }
    }
}

impl Clone for AudioDevice {
    fn clone(&self) -> (r: Self)
        ensures
            r.id == self.id,
            r.name@ == self.name@,
            r.device_type == self.device_type,
            r.channels == self.channels,
            r.sample_rate == self.sample_rate,
    {
        AudioDevice {
            id: self.id,
            name: self.name.clone(),
            device_type: self.device_type,
            channels: self.channels,
            sample_rate: self.sample_rate,
        }
    }
}

} // verus!
