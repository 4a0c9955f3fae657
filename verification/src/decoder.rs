//! The frame decoder: from raw chunks of the response body to frames.
//!
//! The body is a sequence of lines, one record each, but a chunk may end
//! anywhere. The decoder keeps the bytes that do not yet make up a frame. A
//! frame ends at the first line feed before which the pending bytes decode as
//! a record: a line that does not decode is taken to be the beginning of a
//! record that goes on behind the line feed, and stays pending. A record that
//! is done or reports an error ends the stream: what follows it is dropped.
//! When the body is exhausted, `finish` decodes what is still pending, and
//! bytes that do not decode then are an error.

use vstd::prelude::*;
use vstd::slice::slice_subrange;
use crate::ollama::{
    decode_line, frame_views, frames_of, is_terminal, Frame, FrameView, OllamaResponse,
};

verus! {

/// Whether a frame ends at offset `k` of `buf`: a line feed stands there, and
/// the bytes before it decode as a record.
pub open spec fn is_frame_end(buf: Seq<u8>, k: int) -> bool {
    0 <= k < buf.len() && buf[k] == 10u8 && decode_line(buf.take(k)) is Some
}

/// The first offset at or after `from` at which a frame ends, or the length
/// of `buf` where there is none.
pub open spec fn frame_end(buf: Seq<u8>, from: int) -> int
    decreases buf.len() - from,
{
    if from < 0 || from >= buf.len() {
        buf.len() as int
    } else if is_frame_end(buf, from) {
        from
    } else {
        frame_end(buf, from + 1)
    }
}

/// What a run of bytes decodes to.
pub struct Decoded {
    /// The frames, in the order of the bytes.
    pub frames: Seq<FrameView>,
    /// The bytes behind the last frame, which make up no frame yet.
    pub rest: Seq<u8>,
    /// Whether a record ended the stream.
    pub ended: bool,
}

/// Decodes `buf` from its start.
pub open spec fn decode_stream(buf: Seq<u8>) -> Decoded
    decreases buf.len(),
{
    let end = frame_end(buf, 0);
    if 0 <= end < buf.len() {
        let record = decode_line(buf.take(end))->0;
        if is_terminal(record) {
            Decoded { frames: frames_of(record), rest: Seq::<u8>::empty(), ended: true }
        } else {
            let later = decode_stream(buf.skip(end + 1));
            Decoded {
                frames: frames_of(record) + later.frames,
                rest: later.rest,
                ended: later.ended,
            }
        }
    } else {
        Decoded { frames: Seq::<FrameView>::empty(), rest: buf, ended: false }
    }
}

/// The state of a decoder between two chunks.
pub struct DecoderState {
    /// The bytes received that make up no frame yet.
    pub pending: Seq<u8>,
    /// Whether a record ended the stream.
    pub ended: bool,
}

/// The state of a decoder that has received nothing.
pub open spec fn initial_state() -> DecoderState {
    DecoderState { pending: Seq::<u8>::empty(), ended: false }
}

/// Whether no frame ends anywhere in `buf`.
pub open spec fn holds_no_frame(buf: Seq<u8>) -> bool {
    forall|k: int| 0 <= k < buf.len() ==> !is_frame_end(buf, k)
}

/// Whether a state is one that a decoder can be in: its pending bytes hold no
/// frame, and none at all once the stream has ended.
pub open spec fn valid_state(state: DecoderState) -> bool {
    holds_no_frame(state.pending) && (state.ended ==> state.pending.len() == 0)
}

/// The state after `chunk` has arrived in `state`, and the frames that the
/// chunk completes.
pub open spec fn feed_spec(state: DecoderState, chunk: Seq<u8>) -> (DecoderState, Seq<FrameView>) {
    if state.ended {
        (state, Seq::<FrameView>::empty())
    } else {
        let d = decode_stream(state.pending + chunk);
        (DecoderState { pending: d.rest, ended: d.ended }, d.frames)
    }
}

/// What the end of the body makes of `state`: the last frames, or the bytes
/// that decode as no record.
pub open spec fn finish_spec(state: DecoderState) -> Result<Seq<FrameView>, Seq<u8>> {
    if state.ended || state.pending.len() == 0 {
        Ok(Seq::<FrameView>::empty())
    } else {
        match decode_line(state.pending) {
            Some(record) => Ok(frames_of(record)),
            None => Err(state.pending),
        }
    }
}

/// The bytes at the end of a stream that decode as no record.
pub struct DecodeError {
    pub bytes: Vec<u8>,
}

/// The frame decoder.
pub struct FrameDecoder {
    pending: Vec<u8>,
    ended: bool,
}

impl View for FrameDecoder {
    type V = DecoderState;

    closed spec fn view(&self) -> DecoderState {
        DecoderState { pending: self.pending@, ended: self.ended }
    }
}

proof fn lemma_frame_end_bounds(buf: Seq<u8>, from: int)
    requires
        0 <= from <= buf.len(),
    ensures
        from <= frame_end(buf, from) <= buf.len(),
        frame_end(buf, from) < buf.len() ==> is_frame_end(buf, frame_end(buf, from)),
        forall|k: int| from <= k < frame_end(buf, from) ==> !is_frame_end(buf, k),
    decreases buf.len() - from,
{
    if from < buf.len() && !is_frame_end(buf, from) {
        lemma_frame_end_bounds(buf, from + 1);
    }
}

proof fn lemma_frame_end_is(buf: Seq<u8>, from: int, end: int)
    requires
        0 <= from <= end <= buf.len(),
        forall|k: int| from <= k < end ==> !is_frame_end(buf, k),
        end < buf.len() ==> is_frame_end(buf, end),
    ensures
        frame_end(buf, from) == end,
    decreases end - from,
{
    if from < end {
        lemma_frame_end_is(buf, from + 1, end);
    }
}

/// A frame end of `x` is a frame end of `x + y`, and the other way round.
proof fn lemma_frame_end_prefix(x: Seq<u8>, y: Seq<u8>, k: int)
    requires
        0 <= k < x.len(),
    ensures
        is_frame_end(x + y, k) == is_frame_end(x, k),
{
    assert((x + y).take(k) =~= x.take(k));
}

proof fn lemma_no_frame_decodes_to_itself(buf: Seq<u8>)
    requires
        holds_no_frame(buf),
    ensures
        decode_stream(buf) == (Decoded {
            frames: Seq::<FrameView>::empty(),
            rest: buf,
            ended: false,
        }),
{
    lemma_frame_end_is(buf, 0, buf.len() as int);
}

/// What is left pending by `decode_stream` holds no frame.
proof fn lemma_rest_holds_no_frame(buf: Seq<u8>)
    ensures
        valid_state(
            DecoderState { pending: decode_stream(buf).rest, ended: decode_stream(buf).ended },
        ),
    decreases buf.len(),
{
    lemma_frame_end_bounds(buf, 0);
    let end = frame_end(buf, 0);
    if 0 <= end < buf.len() {
        let record = decode_line(buf.take(end))->0;
        if !is_terminal(record) {
            lemma_rest_holds_no_frame(buf.skip(end + 1));
        }
    }
}

/// Decoding does not depend on where the bytes are cut: the frames of `x + y`
/// are those of `x`, followed by those of what `x` left pending and `y`;
/// unless `x` ended the stream, and then `y` adds nothing.
proof fn lemma_decode_append(x: Seq<u8>, y: Seq<u8>)
    ensures
        decode_stream(x).ended ==> decode_stream(x + y) == decode_stream(x),
        !decode_stream(x).ended ==> decode_stream(x + y) == ({
            let first = decode_stream(x);
            let second = decode_stream(first.rest + y);
            Decoded {
                frames: first.frames + second.frames,
                rest: second.rest,
                ended: second.ended,
            }
        }),
    decreases x.len(),
{
    lemma_frame_end_bounds(x, 0);
    let end = frame_end(x, 0);
    if 0 <= end < x.len() {
        assert forall|k: int| 0 <= k < end implies !is_frame_end(x + y, k) by {
            lemma_frame_end_prefix(x, y, k);
        }
        lemma_frame_end_prefix(x, y, end);
        lemma_frame_end_is(x + y, 0, end);
        assert((x + y).take(end) =~= x.take(end));
        let record = decode_line(x.take(end))->0;
        if !is_terminal(record) {
            lemma_decode_append(x.skip(end + 1), y);
            assert((x + y).skip(end + 1) =~= x.skip(end + 1) + y);
            let later = decode_stream(x.skip(end + 1));
            if !later.ended {
                let second = decode_stream(later.rest + y);
                assert(frames_of(record) + (later.frames + second.frames) =~= (frames_of(record)
                    + later.frames) + second.frames);
            }
        }
    } else {
        let first = decode_stream(x);
        assert(first.rest == x);
        assert(first.frames + decode_stream(x + y).frames =~= decode_stream(x + y).frames);
    }
}

impl FrameDecoder {
    /// Whether the decoder is in a state that it can be in.
    pub closed spec fn wf(&self) -> bool {
        valid_state(self@)
    }

    /// A decoder that has received nothing.
    pub fn new() -> (d: FrameDecoder)
        ensures
            d.wf(),
            d@ == initial_state(),
    {
        FrameDecoder { pending: Vec::new(), ended: false }
    }

    /// Whether a record has ended the stream.
    pub fn has_ended(&self) -> (b: bool)
        ensures
            b == self@.ended,
    {
        self.ended
    }

    /// The number of bytes that are pending.
    pub fn pending_len(&self) -> (n: usize)
        ensures
            n == self@.pending.len(),
    {
        self.pending.len()
    }

    /// Takes in the next chunk of the body and hands out the frames that it
    /// completes. An empty chunk changes nothing, and so does any chunk once
    /// the stream has ended.
    pub fn feed(&mut self, chunk: &[u8]) -> (frames: Vec<Frame>)
        requires
            old(self).wf(),
        ensures
            final(self).wf(),
            (final(self)@, frame_views(frames@)) == feed_spec(old(self)@, chunk@),
    {
        let mut frames: Vec<Frame> = Vec::new();
        if self.ended {
            assert(frame_views(frames@) =~= Seq::<FrameView>::empty());
            return frames;
        }
        let ghost start = self.pending@ + chunk@;
        let mut i: usize = self.pending.len();
        proof {
            assert forall|k: int| 0 <= k < i implies !is_frame_end(start, k) by {
                lemma_frame_end_prefix(self.pending@, chunk@, k);
            }
            assert(frame_views(frames@) =~= Seq::<FrameView>::empty());
            assert(frame_views(frames@) + decode_stream(start).frames =~= decode_stream(
                start,
            ).frames);
        }
        self.pending.extend_from_slice(chunk);
        assert(self.pending@ =~= start);
        while i < self.pending.len()
            invariant
                !self.ended,
                !old(self)@.ended,
                start == old(self)@.pending + chunk@,
                i <= self.pending.len(),
                forall|k: int| 0 <= k < i ==> !is_frame_end(self.pending@, k),
                decode_stream(start).frames == frame_views(frames@) + decode_stream(
                    self.pending@,
                ).frames,
                decode_stream(start).rest == decode_stream(self.pending@).rest,
                decode_stream(start).ended == decode_stream(self.pending@).ended,
            decreases self.pending.len(), self.pending.len() - i,
        {
            let record = if self.pending[i] == 10u8 {
                OllamaResponse::decode(slice_subrange(self.pending.as_slice(), 0, i))
            } else {
                None
            };
            match record {
                Some(record) => {
                    let ghost before = frame_views(frames@);
                    let ghost buf = self.pending@;
                    proof {
                        assert(buf.subrange(0, i as int) =~= buf.take(i as int));
                        assert(is_frame_end(buf, i as int));
                        lemma_frame_end_is(buf, 0, i as int);
                        assert(decode_line(buf.take(i as int))->0 == record@);
                    }
                    let terminal = record.is_terminal();
                    record.into_frames(&mut frames);
                    if terminal {
                        self.pending.clear();
                        self.ended = true;
                        proof {
                            assert(decode_stream(buf).frames == frames_of(record@));
                            assert(decode_stream(buf).rest == Seq::<u8>::empty());
                            assert(self.pending@ =~= Seq::<u8>::empty());
                        }
                        return frames;
                    }
                    let tail = self.pending.split_off(i + 1);
                    self.pending = tail;
                    proof {
                        assert(self.pending@ =~= buf.skip(i + 1));
                        let later = decode_stream(buf.skip(i + 1));
                        assert((before + frames_of(record@)) + later.frames =~= before + (
                        frames_of(record@) + later.frames));
                    }
                    i = 0;
                },
                None => {
                    proof {
                        assert(self.pending@.subrange(0, i as int) =~= self.pending@.take(
                            i as int,
                        ));
                    }
                    i += 1;
                },
            }
        }
        proof {
            lemma_no_frame_decodes_to_itself(self.pending@);
            assert(frame_views(frames@) + Seq::<FrameView>::empty() =~= frame_views(frames@));
        }
        frames
    }

    /// Ends the stream: decodes what is still pending as one last record.
    /// Pending bytes that decode as no record are handed back as the error.
    /// Afterwards nothing is pending and the stream has ended.
    pub fn finish(&mut self) -> (r: Result<Vec<Frame>, DecodeError>)
        requires
            old(self).wf(),
        ensures
            final(self).wf(),
            final(self)@ == (DecoderState { pending: Seq::<u8>::empty(), ended: true }),
            match r {
                Ok(frames) => finish_spec(old(self)@) == Ok::<Seq<FrameView>, Seq<u8>>(
                    frame_views(frames@),
                ),
                Err(e) => finish_spec(old(self)@) == Err::<Seq<FrameView>, Seq<u8>>(e.bytes@),
            },
    {
        let mut frames: Vec<Frame> = Vec::new();
        assert(frame_views(frames@) =~= Seq::<FrameView>::empty());
        let was_ended = self.ended;
        self.ended = true;
        if was_ended || self.pending.len() == 0 {
            self.pending.clear();
            return Ok(frames);
        }
        let record = OllamaResponse::decode(self.pending.as_slice());
        let bytes = self.pending.split_off(0);
        assert(bytes@ =~= old(self)@.pending);
        assert(self.pending@ =~= Seq::<u8>::empty());
        match record {
            Some(record) => {
                record.into_frames(&mut frames);
                assert(frame_views(frames@) =~= frames_of(record@));
                Ok(frames)
            },
            None => Err(DecodeError { bytes }),
        }
    }
}

/// The state after the chunks of `chunks` have arrived one after the other in
/// `state`, and the frames that they complete, in order.
pub open spec fn feed_all(state: DecoderState, chunks: Seq<Seq<u8>>) -> (
    DecoderState,
    Seq<FrameView>,
)
    decreases chunks.len(),
{
    if chunks.len() == 0 {
        (state, Seq::<FrameView>::empty())
    } else {
        let first = feed_spec(state, chunks.first());
        let later = feed_all(first.0, chunks.drop_first());
        (later.0, first.1 + later.1)
    }
}

/// The text fragments of `frames`, one behind the other.
pub open spec fn response_text(frames: Seq<FrameView>) -> Seq<char>
    decreases frames.len(),
{
    if frames.len() == 0 {
        Seq::<char>::empty()
    } else {
        response_text(frames.drop_last()) + (match frames.last() {
            FrameView::Text(s) => s,
            _ => Seq::<char>::empty(),
        })
    }
}

/// What a body that arrives as `chunks` decodes to, from the first chunk to
/// the end of the body: all its frames, or the bytes at its end that decode
/// as no record.
pub open spec fn decode_chunks(chunks: Seq<Seq<u8>>) -> Result<Seq<FrameView>, Seq<u8>> {
    let fed = feed_all(initial_state(), chunks);
    match finish_spec(fed.0) {
        Ok(last) => Ok(fed.1 + last),
        Err(bytes) => Err(bytes),
    }
}

proof fn lemma_feed_all_ended(state: DecoderState, chunks: Seq<Seq<u8>>)
    requires
        state.ended,
    ensures
        feed_all(state, chunks) == (state, Seq::<FrameView>::empty()),
    decreases chunks.len(),
{
    if chunks.len() > 0 {
        lemma_feed_all_ended(state, chunks.drop_first());
        assert(Seq::<FrameView>::empty() + Seq::<FrameView>::empty() =~= Seq::<
            FrameView,
        >::empty());
    }
}

/// Feeding chunks one by one decodes the bytes that they make up together.
proof fn lemma_feed_all_decodes(state: DecoderState, chunks: Seq<Seq<u8>>)
    requires
        valid_state(state),
        !state.ended,
    ensures
        feed_all(state, chunks) == ({
            let d = decode_stream(state.pending + chunks.flatten());
            (DecoderState { pending: d.rest, ended: d.ended }, d.frames)
        }),
    decreases chunks.len(),
{
    if chunks.len() == 0 {
        assert(state.pending + chunks.flatten() =~= state.pending);
        lemma_no_frame_decodes_to_itself(state.pending);
    } else {
        let head = chunks.first();
        let tail = chunks.drop_first();
        let x = state.pending + head;
        let first = decode_stream(x);
        assert(state.pending + chunks.flatten() =~= x + tail.flatten());
        lemma_decode_append(x, tail.flatten());
        let next = DecoderState { pending: first.rest, ended: first.ended };
        if first.ended {
            lemma_feed_all_ended(next, tail);
            assert(first.frames + Seq::<FrameView>::empty() =~= first.frames);
            lemma_rest_holds_no_frame(x);
        } else {
            lemma_rest_holds_no_frame(x);
            lemma_feed_all_decodes(next, tail);
        }
    }
}

/// Where the body is cut into chunks makes no difference: fed chunk by
/// chunk, a decoder hands out the same frames, and is left in the same state,
/// as when it is fed all the bytes as one chunk. So the text fragments, one
/// behind the other, are the same, and so is what the end of the body makes
/// of the rest.
pub proof fn reconstruction_invariant(chunks: Seq<Seq<u8>>)
    ensures
        feed_all(initial_state(), chunks) == feed_all(initial_state(), seq![chunks.flatten()]),
        response_text(feed_all(initial_state(), chunks).1) == response_text(
            feed_all(initial_state(), seq![chunks.flatten()]).1,
        ),
        decode_chunks(chunks) == decode_chunks(seq![chunks.flatten()]),
{
    let whole = seq![chunks.flatten()];
    lemma_feed_all_decodes(initial_state(), chunks);
    lemma_feed_all_decodes(initial_state(), whole);
    whole.lemma_flatten_one_element();
    assert(whole.first() == chunks.flatten());
}

/// An empty chunk is a no-op: it completes no frame and leaves the state of
/// the decoder as it was.
pub proof fn empty_chunk_changes_nothing(state: DecoderState)
    requires
        valid_state(state),
    ensures
        feed_spec(state, Seq::<u8>::empty()) == (state, Seq::<FrameView>::empty()),
{
    if !state.ended {
        assert(state.pending + Seq::<u8>::empty() =~= state.pending);
        lemma_no_frame_decodes_to_itself(state.pending);
    }
}

} // verus!
