//! The roam peer's framing and replay decisions.

use vstd::prelude::*;
use vstd::string::*;
use vstd::utf8::*;

use crate::text::str_eq;
use crate::types::{Message, MessageV};

verus! {

/// Hard cap on a single frame (the partial-frame buffer) in bytes.
pub const MAX_FRAME_BYTES: usize = 1048576;

/// What `String::from_utf8_lossy` makes of a byte sequence.
pub uninterp spec fn utf8_lossy(bytes: Seq<u8>) -> Seq<char>;

/// `String::from_utf8_lossy(bytes).into_owned()`. The contract names the
/// result as a function of the bytes alone and states what the std
/// documentation promises of valid input: it is decoded as UTF-8. How invalid
/// sequences are replaced by U+FFFD is left unsaid.
#[verifier::external_body]
fn lossy_string(bytes: &[u8]) -> (s: String)
    ensures
        s@ == utf8_lossy(bytes@),
        valid_utf8(bytes@) ==> s@ == decode_utf8(bytes@),
{
    String::from_utf8_lossy(bytes).into_owned()
}

/// ACP byte-stream framing over the roam transport: one JSON-RPC message per
/// newline-terminated line. Partial frames stay buffered until their newline
/// arrives; CRLF is tolerated.
pub struct RoamCodec {
    buf: Vec<u8>,
}

/// One byte through the codec: a newline completes the buffered frame, a
/// carriage return is dropped, any other byte is buffered up to the cap.
pub open spec fn codec_step(buf: Seq<u8>, frames: Seq<Seq<u8>>, byte: u8) -> (Seq<u8>, Seq<Seq<u8>>) {
    if byte == 10 {
        (Seq::empty(), frames.push(buf))
    } else if byte == 13 {
        (buf, frames)
    } else if buf.len() < MAX_FRAME_BYTES {
        (buf.push(byte), frames)
    } else {
        (buf, frames)
    }
}

/// Feed a chunk: the buffer afterwards and the raw bytes of every completed
/// frame, in order.
pub open spec fn feed_v(buf: Seq<u8>, chunk: Seq<u8>) -> (Seq<u8>, Seq<Seq<u8>>)
    decreases chunk.len(),
{
    if chunk.len() == 0 {
        (buf, Seq::empty())
    } else {
        let prev = feed_v(buf, chunk.drop_last());
        codec_step(prev.0, prev.1, chunk.last())
    }
}

/// Every valid UTF-8 frame among `frames` decodes exactly.
pub open spec fn decodes(frames: Seq<Seq<u8>>) -> bool {
    forall|i: int| 0 <= i < frames.len() && valid_utf8(#[trigger] frames[i]) ==> utf8_lossy(frames[i]) == decode_utf8(frames[i])
}

/// The frames a chunk completes, decoded.
pub open spec fn frames_text(frames: Seq<Seq<u8>>) -> Seq<Seq<char>> {
    frames.map_values(|f: Seq<u8>| utf8_lossy(f))
}

impl RoamCodec {
    /// The partial frame never outgrows the cap.
    #[verifier::type_invariant]
    closed spec fn buffer_capped(self) -> bool {
        self.buf@.len() <= MAX_FRAME_BYTES
    }
}

impl View for RoamCodec {
    type V = Seq<u8>;

    closed spec fn view(&self) -> Seq<u8> {
        self.buf@
    }
}

impl RoamCodec {
    /// A fresh codec with an empty partial-frame buffer.
    pub fn new() -> (c: Self)
        ensures
            c@ == Seq::<u8>::empty(),
    {
        RoamCodec { buf: Vec::new() }
    }

    /// Feed raw stream bytes; returns every complete frame (newline removed).
    /// The partial-frame buffer stops growing at [`MAX_FRAME_BYTES`]: bytes
    /// past the cap are dropped until the next newline re-syncs the codec.
    pub fn feed(&mut self, chunk: &[u8]) -> (frames: Vec<String>)
        ensures
            old(self)@.len() <= MAX_FRAME_BYTES,
            final(self)@.len() <= MAX_FRAME_BYTES,
            forall|i: int| 0 <= i < feed_v(old(self)@, chunk@).1.len()
                ==> (#[trigger] feed_v(old(self)@, chunk@).1[i]).len() <= MAX_FRAME_BYTES,
            final(self)@ == feed_v(old(self)@, chunk@).0,
            frames.deep_view() == frames_text(feed_v(old(self)@, chunk@).1),
            decodes(feed_v(old(self)@, chunk@).1),
    {
        proof {
            use_type_invariant(&*self);
            the_partial_frame_stays_capped(self.buf@, chunk@);
        }
        let mut buf: Vec<u8> = Vec::new();
        std::mem::swap(&mut buf, &mut self.buf);
        let ghost b0 = buf@;
        let mut frames: Vec<String> = Vec::new();
        let n = chunk.len();
        assert(chunk@.take(0) =~= Seq::<u8>::empty());
        assert(frames.deep_view() =~= frames_text(Seq::<Seq<u8>>::empty()));
        for i in 0..n
            invariant
                n == chunk@.len(),
                b0.len() <= MAX_FRAME_BYTES,
                buf@ == feed_v(b0, chunk@.take(i as int)).0,
                frames.deep_view() == frames_text(feed_v(b0, chunk@.take(i as int)).1),
                decodes(feed_v(b0, chunk@.take(i as int)).1),
        {
            let byte = chunk[i];
            assert(chunk@.take(i + 1).drop_last() =~= chunk@.take(i as int));
            let ghost fs = feed_v(b0, chunk@.take(i as int)).1;
            if byte == 10u8 {
                let mut frame: Vec<u8> = Vec::new();
                std::mem::swap(&mut frame, &mut buf);
                let ghost fv = frame@;
                frames.push(lossy_string(frame.as_slice()));
                assert(frames_text(fs.push(fv)) =~= frames_text(fs).push(utf8_lossy(fv)));
                assert forall|j: int| 0 <= j < fs.push(fv).len() && valid_utf8(#[trigger] fs.push(fv)[j]) implies utf8_lossy(fs.push(fv)[j]) == decode_utf8(fs.push(fv)[j]) by {
                    if j < fs.len() {
                        assert(fs.push(fv)[j] == fs[j]);
                    }
                }
                assert(buf@ =~= Seq::<u8>::empty());
            } else if byte == 13u8 {
            } else if buf.len() < MAX_FRAME_BYTES {
                buf.push(byte);
            }
        }
        assert(chunk@.take(n as int) =~= chunk@);
        std::mem::swap(&mut buf, &mut self.buf);
        frames
    }

    /// One outbound frame: the message plus its terminating newline.
    pub fn encode(text: &str) -> (bytes: Vec<u8>)
        ensures
            bytes@ == text.spec_bytes().push(10u8),
    {
        let mut bytes = vstd::slice::slice_to_vec(text.as_bytes());
        bytes.push(10u8);
        bytes
    }
}

/// Trailing messages requested from `session/load` when the cache is current.
pub const REPLAY_TAIL: usize = 100;

/// Whether a bounded replay tail is safe: only when both the cache's stamp
/// and the listed stamp exist and agree.
pub open spec fn tail_safe(cached_at: Seq<char>, listed_at: Seq<char>) -> bool {
    cached_at.len() > 0 && cached_at == listed_at
}

/// The stamp comparison behind the replay tail: a tail only when both stamps
/// exist and agree.
pub fn replay_tail_decision(cached_at: &str, listed_at: &str) -> (r: Option<usize>)
    ensures
        r == (if tail_safe(cached_at@, listed_at@) { Some(REPLAY_TAIL) } else { None::<usize> }),
{
    if cached_at.unicode_len() > 0 && str_eq(cached_at, listed_at) {
        Some(REPLAY_TAIL)
    } else {
        None
    }
}

/// Cap on a roam-side message list.
pub const MAX_MESSAGES: usize = 2000;

/// The messages kept by the cap: past it the oldest are evicted in bulk down
/// to three quarters of the cap.
pub open spec fn capped<T>(ms: Seq<T>) -> Seq<T> {
    if ms.len() <= MAX_MESSAGES {
        ms
    } else {
        ms.skip(ms.len() - (MAX_MESSAGES - MAX_MESSAGES / 4))
    }
}

/// Cap a roam-side message list so a pathological session cannot grow
/// memory without bound.
pub fn cap_messages(messages: &mut Vec<Message>)
    ensures
        final(messages).deep_view() == capped(old(messages).deep_view()),
{
    let n = messages.len();
    if n <= MAX_MESSAGES {
        return;
    }
    let drop = n - (MAX_MESSAGES - MAX_MESSAGES / 4);
    let ghost before = messages.deep_view();
    let kept = messages.split_off(drop);
    *messages = kept;
    assert(messages.deep_view() =~= before.skip(drop as int));
}

// ---------------------------------------------------------------------------
// Laws
// ---------------------------------------------------------------------------

/// Framing is independent of how the stream is chunked: feeding `a` then `b`
/// yields the same frames, in order, and the same buffer as feeding `a ++ b`.
pub proof fn feed_is_chunking_independent(buf: Seq<u8>, a: Seq<u8>, b: Seq<u8>)
    ensures
        feed_v(buf, a + b) == (
            feed_v(feed_v(buf, a).0, b).0,
            feed_v(buf, a).1 + feed_v(feed_v(buf, a).0, b).1,
        ),
    decreases b.len(),
{
    if b.len() == 0 {
        assert(a + b =~= a);
        assert(feed_v(buf, a).1 + Seq::<Seq<u8>>::empty() =~= feed_v(buf, a).1);
    } else {
        feed_is_chunking_independent(buf, a, b.drop_last());
        assert((a + b).drop_last() =~= a + b.drop_last());
        assert((a + b).last() == b.last());
        let mid = feed_v(buf, a);
        let rest = feed_v(mid.0, b.drop_last());
        let step = codec_step(rest.0, rest.1, b.last());
        let whole = codec_step(rest.0, mid.1 + rest.1, b.last());
        assert(whole.1 =~= mid.1 + step.1);
    }
}

proof fn lemma_feed_plain(buf: Seq<u8>, bytes: Seq<u8>)
    requires
        !bytes.contains(10u8),
        !bytes.contains(13u8),
        buf.len() + bytes.len() <= MAX_FRAME_BYTES,
    ensures
        feed_v(buf, bytes) == (buf + bytes, Seq::<Seq<u8>>::empty()),
    decreases bytes.len(),
{
    if bytes.len() == 0 {
        assert(buf + bytes =~= buf);
    } else {
        let init = bytes.drop_last();
        assert(!init.contains(10u8)) by {
            if init.contains(10u8) {
                let j = choose|j: int| 0 <= j < init.len() && init[j] == 10u8;
                assert(bytes[j] == 10u8);
            }
        }
        assert(!init.contains(13u8)) by {
            if init.contains(13u8) {
                let j = choose|j: int| 0 <= j < init.len() && init[j] == 13u8;
                assert(bytes[j] == 13u8);
            }
        }
        lemma_feed_plain(buf, init);
        assert(bytes.last() != 10u8) by {
            if bytes.last() == 10u8 {
                assert(bytes[bytes.len() - 1] == 10u8);
            }
        }
        assert(bytes.last() != 13u8) by {
            if bytes.last() == 13u8 {
                assert(bytes[bytes.len() - 1] == 13u8);
            }
        }
        assert((buf + init).push(bytes.last()) =~= buf + bytes);
    }
}

/// Encoding a message and feeding its bytes to a fresh codec gives the
/// message back as exactly one frame, and the codec ends empty (for messages
/// whose bytes hold no raw newline or carriage return and fit the frame cap,
/// as compact JSON always does).
pub proof fn encode_then_feed_round_trips(text: Seq<char>)
    requires
        !encode_utf8(text).contains(10u8),
        !encode_utf8(text).contains(13u8),
        encode_utf8(text).len() <= MAX_FRAME_BYTES,
    ensures
        feed_v(Seq::empty(), encode_utf8(text).push(10u8)) == (Seq::<u8>::empty(), seq![encode_utf8(text)]),
        valid_utf8(encode_utf8(text)),
        decode_utf8(encode_utf8(text)) == text,
{
    let bytes = encode_utf8(text);
    lemma_feed_plain(Seq::empty(), bytes);
    assert(bytes.push(10u8).drop_last() =~= bytes);
    assert(Seq::<u8>::empty() + bytes =~= bytes);
    encode_utf8_valid_utf8(text);
    encode_utf8_decode_utf8(text);
}

/// The partial frame never outgrows the cap: from a buffer within the cap,
/// feeding any chunk leaves the buffer within the cap, and every frame it
/// completes was built from at most that many bytes.
pub proof fn the_partial_frame_stays_capped(buf: Seq<u8>, chunk: Seq<u8>)
    requires
        buf.len() <= MAX_FRAME_BYTES,
    ensures
        feed_v(buf, chunk).0.len() <= MAX_FRAME_BYTES,
        forall|i: int| 0 <= i < feed_v(buf, chunk).1.len() ==> (#[trigger] feed_v(buf, chunk).1[i]).len() <= MAX_FRAME_BYTES,
    decreases chunk.len(),
{
    if chunk.len() > 0 {
        the_partial_frame_stays_capped(buf, chunk.drop_last());
        let prev = feed_v(buf, chunk.drop_last());
        let next = codec_step(prev.0, prev.1, chunk.last());
        assert forall|i: int| 0 <= i < next.1.len() implies (#[trigger] next.1[i]).len() <= MAX_FRAME_BYTES by {
            if i < prev.1.len() {
                assert(next.1[i] == prev.1[i]);
            }
        }
    }
}

proof fn lemma_scalar_plain(c: char)
    requires
        c != '\n',
        c != '\r',
    ensures
        forall|i: int| 0 <= i < encode_scalar(c as u32).len() ==> {
            &&& #[trigger] encode_scalar(c as u32)[i] != 10u8
            &&& encode_scalar(c as u32)[i] != 13u8
        },
{
    let v = c as u32;
    assert(v != 10u32 && v != 13u32);
    if has_width_1_encoding(v) {
        assert(leading_byte_width_1(v) != 10u8 && leading_byte_width_1(v) != 13u8) by (bit_vector)
            requires
                v <= 0x7F,
                v != 10u32,
                v != 13u32,
        ;
    } else if has_width_2_encoding(v) {
        assert(leading_byte_width_2(v) >= 0x80u8) by (bit_vector);
        assert(last_continuation_byte(v) >= 0x80u8) by (bit_vector);
    } else if has_width_3_encoding(v) {
        assert(leading_byte_width_3(v) >= 0x80u8) by (bit_vector);
        assert(second_last_continuation_byte(v) >= 0x80u8) by (bit_vector);
        assert(last_continuation_byte(v) >= 0x80u8) by (bit_vector);
    } else {
        assert(leading_byte_width_4(v) >= 0x80u8) by (bit_vector);
        assert(third_last_continuation_byte(v) >= 0x80u8) by (bit_vector);
        assert(second_last_continuation_byte(v) >= 0x80u8) by (bit_vector);
        assert(last_continuation_byte(v) >= 0x80u8) by (bit_vector);
    }
}

proof fn lemma_utf8_plain(text: Seq<char>)
    requires
        !text.contains('\n'),
        !text.contains('\r'),
    ensures
        !encode_utf8(text).contains(10u8),
        !encode_utf8(text).contains(13u8),
    decreases text.len(),
{
    if text.len() > 0 {
        let rest = text.drop_first();
        assert(!rest.contains('\n')) by {
            if rest.contains('\n') {
                let j = choose|j: int| 0 <= j < rest.len() && rest[j] == '\n';
                assert(text[j + 1] == '\n');
            }
        }
        assert(!rest.contains('\r')) by {
            if rest.contains('\r') {
                let j = choose|j: int| 0 <= j < rest.len() && rest[j] == '\r';
                assert(text[j + 1] == '\r');
            }
        }
        lemma_utf8_plain(rest);
        assert(text[0] != '\n' && text[0] != '\r') by {
            if text[0] == '\n' || text[0] == '\r' {
                assert(text.contains(text[0]));
            }
        }
        lemma_scalar_plain(text[0]);
        let head = encode_scalar(text[0] as u32);
        let tail = encode_utf8(rest);
        assert(encode_utf8(text) == head + tail);
        assert forall|i: int| 0 <= i < (head + tail).len() implies (head + tail)[i] != 10u8 && (head + tail)[i] != 13u8 by {
            if i < head.len() {
                assert((head + tail)[i] == head[i]);
            } else {
                let k = i - head.len();
                assert((head + tail)[i] == tail[k]);
                assert(tail[k] != 10u8 && tail[k] != 13u8) by {
                    assert(tail.contains(tail[k]));
                }
            }
        }
    }
}

/// A text without a newline or a carriage return comes back whole: its
/// encoding, fed to a fresh codec, completes exactly one frame holding the
/// text's bytes, leaves the codec empty, and that frame decodes to the text
/// wherever the decoding behaves as `feed` promises (within the frame cap).
pub proof fn a_plain_text_survives_the_codec(text: Seq<char>)
    requires
        !text.contains('\n'),
        !text.contains('\r'),
        encode_utf8(text).len() <= MAX_FRAME_BYTES,
    ensures
        feed_v(Seq::empty(), encode_utf8(text).push(10u8)) == (Seq::<u8>::empty(), seq![encode_utf8(text)]),
        decodes(seq![encode_utf8(text)]) ==> frames_text(seq![encode_utf8(text)]) == seq![text],
{
    lemma_utf8_plain(text);
    encode_then_feed_round_trips(text);
    if decodes(seq![encode_utf8(text)]) {
        assert(seq![encode_utf8(text)][0] == encode_utf8(text));
        assert(frames_text(seq![encode_utf8(text)]) =~= seq![text]);
    }
}

/// Capping keeps the newest messages: up to the cap the list is untouched;
/// past it exactly the newest 1500 remain, in order, aligned with the end
/// of the old list (its last message stays the last).
pub proof fn capping_keeps_the_newest<T>(ms: Seq<T>)
    ensures
        ms.len() <= 2000 ==> capped(ms) == ms,
        ms.len() > 2000 ==> capped(ms).len() == 1500,
        ms.len() > 2000 ==> forall|i: int| 0 <= i < 1500 ==> #[trigger] capped(ms)[1499 - i] == ms[ms.len() - 1 - i],
        ms.len() > 2000 ==> capped(ms).last() == ms.last(),
{
    if ms.len() > 2000 {
        assert(capped(ms).len() == 1500);
        assert forall|i: int| 0 <= i < 1500 implies #[trigger] capped(ms)[1499 - i] == ms[ms.len() - 1 - i] by {
            assert(capped(ms)[1499 - i] == ms[ms.len() - 1500 + 1499 - i]);
        }
        assert(capped(ms)[1499] == ms[ms.len() - 1]);
    }
}

} // verus!
