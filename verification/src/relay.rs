//! The output relay: from chunks on the child's event channel to events for
//! the presentation layer.
//!
//! The host shell runs the relay as an independent concurrent task: it waits
//! on the channel that carries the child process's output and hands each
//! received message to [`relay_step`], which decides whether and what to emit.
//! Raw bytes are decoded lossily — malformed sequences become replacement
//! characters, never a failure — and every other kind of channel message is
//! observed and discarded by an explicit `Other` arm. Chunks are forwarded in
//! the order they are read; [`relay_batch`] states that over a whole channel
//! log.

use vstd::prelude::*;

verus! {

/// Which of the child's two output streams a chunk came from.
#[derive(Clone, Copy, Debug, PartialEq, Eq, Structural)]
pub enum StreamKind {
    Stdout,
    Stderr,
}

/// One message read from the child process's event channel.
pub enum ChildEvent {
    /// A chunk of raw bytes from the child's standard output.
    Stdout(Vec<u8>),
    /// A chunk of raw bytes from the child's standard error.
    Stderr(Vec<u8>),
    /// Any other kind of message the channel carries (a termination notice,
    /// for instance): observed and discarded, not forwarded.
    Other,
}

/// One event forwarded to the presentation layer: a decoded chunk tagged with
/// the stream it came from.
#[derive(Debug)]
pub struct OutputEvent {
    pub stream: StreamKind,
    pub payload: String,
}

/// What the relay does with one channel message.
#[derive(Debug)]
pub enum RelayAction {
    /// Emit this event to the presentation layer.
    Emit(OutputEvent),
    /// Forward nothing.
    Ignore,
}

/// The text that lossy decoding gives for a byte sequence: each maximal
/// malformed subsequence becomes a replacement character, so decoding is total.
pub uninterp spec fn lossy_text_of(bytes: Seq<u8>) -> Seq<char>;

/// Relies on `String::from_utf8_lossy`: the text depends on the bytes alone —
/// invalid sequences are replaced with U+FFFD, and decoding never fails.
#[verifier::external_body]
fn decode_lossy(bytes: &Vec<u8>) -> (text: String)
    ensures
        text@ == lossy_text_of(bytes@),
{
    String::from_utf8_lossy(bytes).into_owned()
}

/// The stream a channel message belongs to, if it is an output chunk.
pub open spec fn event_stream(e: ChildEvent) -> Option<StreamKind> {
    match e {
        ChildEvent::Stdout(_) => Some(StreamKind::Stdout),
        ChildEvent::Stderr(_) => Some(StreamKind::Stderr),
        ChildEvent::Other => None,
    }
}

/// The raw bytes an output chunk carries.
pub open spec fn event_bytes(e: ChildEvent) -> Seq<u8> {
    match e {
        ChildEvent::Stdout(b) => b@,
        ChildEvent::Stderr(b) => b@,
        ChildEvent::Other => Seq::empty(),
    }
}

/// What the relay owes for one channel message: an output chunk is forwarded
/// as one event on its own stream with its bytes decoded lossily; every other
/// message is ignored.
pub open spec fn forwards(e: ChildEvent, a: RelayAction) -> bool {
    match event_stream(e) {
        Some(k) => {
            &&& a matches RelayAction::Emit(out)
            &&& out.stream == k
            &&& out.payload@ == lossy_text_of(event_bytes(e))
        },
        None => a is Ignore,
    }
}

/// One turn of the relay loop: decide what to do with the next channel
/// message. Decoding is lossy, so no byte sequence can make this fail.
pub fn relay_step(event: &ChildEvent) -> (a: RelayAction)
    ensures
        forwards(*event, a),
{
    match event {
        ChildEvent::Stdout(bytes) => RelayAction::Emit(
            OutputEvent { stream: StreamKind::Stdout, payload: decode_lossy(bytes) },
        ),
        ChildEvent::Stderr(bytes) => RelayAction::Emit(
            OutputEvent { stream: StreamKind::Stderr, payload: decode_lossy(bytes) },
        ),
        ChildEvent::Other => RelayAction::Ignore,
    }
}

/// Everything a channel log makes the relay forward, in order: one entry per
/// output chunk, in the order the chunks were read, each tagged with its
/// stream and carrying its lossily decoded text. Messages of other kinds
/// contribute nothing.
pub open spec fn relay_log(events: Seq<ChildEvent>) -> Seq<(StreamKind, Seq<char>)>
    decreases events.len(),
{
    if events.len() == 0 {
        Seq::empty()
    } else {
        relay_log(events.drop_last()) + (match event_stream(events.last()) {
            Some(k) => seq![(k, lossy_text_of(event_bytes(events.last())))],
            None => Seq::empty(),
        })
    }
}

/// The relay over a whole channel log: exactly the output chunks are
/// forwarded, in the order they were read — no reordering, no batching, no
/// chunk dropped or invented.
pub fn relay_batch(events: &Vec<ChildEvent>) -> (out: Vec<OutputEvent>)
    ensures
        out@.len() == relay_log(events@).len(),
        forall|j: int|
            0 <= j < out@.len() ==> ((#[trigger] out@[j]).stream, out@[j].payload@)
                == relay_log(events@)[j],
{
    let mut out: Vec<OutputEvent> = Vec::new();
    for i in 0..events.len()
        invariant
            out@.len() == relay_log(events@.take(i as int)).len(),
            forall|j: int|
                0 <= j < out@.len() ==> ((#[trigger] out@[j]).stream, out@[j].payload@)
                    == relay_log(events@.take(i as int))[j],
    {
        proof {
            assert(events@.take(i + 1).drop_last() =~= events@.take(i as int));
            assert(events@.take(i + 1).last() == events@[i as int]);
        }
        match relay_step(&events[i]) {
            RelayAction::Emit(ev) => out.push(ev),
            RelayAction::Ignore => {},
        }
    }
    proof {
        assert(events@.take(events@.len() as int) =~= events@);
    }
    out
}

/// The event channel on which a chunk from the given stream is emitted to the
/// presentation layer.
pub fn channel_name(stream: StreamKind) -> (name: &'static str)
    ensures
        stream is Stdout ==> name@ == "sidecar-stdout"@,
        stream is Stderr ==> name@ == "sidecar-stderr"@,
{
    match stream {
        StreamKind::Stdout => "sidecar-stdout",
        StreamKind::Stderr => "sidecar-stderr",
    }
}

} // verus!
