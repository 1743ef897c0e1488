//! The output relay: consumes the child's standard-output byte stream chunk
//! by chunk, splits it into newline-terminated lines, decodes each line as
//! text (substituting empty content for invalid bytes), and hands the decoded
//! lines to the caller for forwarding to the log sink.

use vstd::prelude::*;
use vstd::utf8::{decode_utf8, valid_utf8};

verus! {

/// The byte value that terminates a line.
pub open spec fn newline() -> u8 {
    10
}

/// The bytes of the stream after its last newline: the line still being
/// accumulated, not yet complete.
pub open spec fn line_pending(bytes: Seq<u8>) -> Seq<u8>
    decreases bytes.len(),
{
    if bytes.len() == 0 {
        Seq::empty()
    } else if bytes.last() == newline() {
        Seq::empty()
    } else {
        line_pending(bytes.drop_last()).push(bytes.last())
    }
}

/// The newline-terminated lines of the stream, in order, without their
/// terminators.
pub open spec fn completed_lines(bytes: Seq<u8>) -> Seq<Seq<u8>>
    decreases bytes.len(),
{
    if bytes.len() == 0 {
        Seq::empty()
    } else if bytes.last() == newline() {
        completed_lines(bytes.drop_last()).push(line_pending(bytes.drop_last()))
    } else {
        completed_lines(bytes.drop_last())
    }
}

/// The line split of the whole stream once it has closed: the completed
/// lines, plus the trailing unterminated line if there is one.
pub open spec fn all_lines(bytes: Seq<u8>) -> Seq<Seq<u8>> {
    if line_pending(bytes).len() == 0 {
        completed_lines(bytes)
    } else {
        completed_lines(bytes).push(line_pending(bytes))
    }
}

/// The text a line of raw bytes is forwarded as: its decoding when the bytes
/// are valid UTF-8, and empty content otherwise. Decode failures are
/// non-fatal and must never stop the relay.
pub open spec fn decoded_or_empty(line: Seq<u8>) -> Seq<char> {
    if valid_utf8(line) {
        decode_utf8(line)
    } else {
        Seq::empty()
    }
}

/// The lines forwarded while the stream is still open: the decodings of the
/// completed lines.
pub open spec fn relayed_so_far(bytes: Seq<u8>) -> Seq<Seq<char>> {
    completed_lines(bytes).map_values(|line: Seq<u8>| decoded_or_empty(line))
}

/// The lines forwarded once the stream has closed: the decodings of the line
/// split of the whole stream.
pub open spec fn relayed_lines(bytes: Seq<u8>) -> Seq<Seq<char>> {
    all_lines(bytes).map_values(|line: Seq<u8>| decoded_or_empty(line))
}

/// A closed, empty output stream yields no forwarded lines: a child that
/// writes nothing before exiting produces no log entries.
pub proof fn lemma_empty_stream_yields_no_lines()
    ensures
        relayed_lines(Seq::<u8>::empty()) == Seq::<Seq<char>>::empty(),
{
    assert(relayed_lines(Seq::<u8>::empty()) =~= Seq::<Seq<char>>::empty());
}

/// Once its stream has closed, a relay's forwarded lines are final and
/// complete: they are exactly the decoded line split of every byte the child
/// wrote, in order, with no line dropped or duplicated, however the stream
/// was cut into chunks.
pub proof fn lemma_closed_relay_lines_are_complete(r: Relay)
    requires
        r.wf(),
        r.done(),
    ensures
        r.forwarded() == relayed_lines(r.consumed()),
{
}

/// How one more byte of the stream changes the pending line and the relayed
/// lines: a newline completes and emits the pending line, any other byte
/// extends it.
proof fn lemma_relayed_push(bytes: Seq<u8>, b: u8)
    ensures
        b == newline() ==> line_pending(bytes.push(b)) == Seq::<u8>::empty(),
        b == newline() ==> relayed_so_far(bytes.push(b)) == relayed_so_far(bytes).push(
            decoded_or_empty(line_pending(bytes)),
        ),
        b != newline() ==> line_pending(bytes.push(b)) == line_pending(bytes).push(b),
        b != newline() ==> relayed_so_far(bytes.push(b)) == relayed_so_far(bytes),
{
    assert(bytes.push(b).drop_last() =~= bytes);
    assert(bytes.push(b).last() == b);
    if b == newline() {
        assert(completed_lines(bytes.push(b)) == completed_lines(bytes).push(line_pending(bytes)));
        assert(relayed_so_far(bytes.push(b)) =~= relayed_so_far(bytes).push(
            decoded_or_empty(line_pending(bytes)),
        ));
    } else {
        assert(completed_lines(bytes.push(b)) == completed_lines(bytes));
    }
}

/// Relies on std's `String::from_utf8`: it returns `Ok` with the decoded
/// characters exactly when the bytes are valid UTF-8, and `Err` otherwise.
#[verifier::external_body]
fn utf8_to_string(bytes: Vec<u8>) -> (r: Option<String>)
    ensures
        match r {
            Some(s) => valid_utf8(bytes@) && s@ == decode_utf8(bytes@),
            None => !valid_utf8(bytes@),
        },
{
    String::from_utf8(bytes).ok()
}

/// Decodes one line of raw bytes as text, substituting empty content when the
/// bytes are not valid UTF-8.
pub fn decode_or_empty(bytes: Vec<u8>) -> (r: String)
    ensures
        r@ == decoded_or_empty(bytes@),
{
    match utf8_to_string(bytes) {
        Some(s) => s,
        None => String::new(),
    }
}

/// Prefixes a decoded line with the fixed tag that marks log entries as
/// originating from the backend.
pub fn format_log_entry(line: &str) -> (r: String)
    ensures
        r@ == "Backend: "@ + line@,
{
    let mut entry = String::from_str("Backend: ");
    entry.append(line);
    entry
}

/// The drain state of one output stream: the trailing bytes not yet ended by
/// a newline, whether the stream has closed, and (for specification only) the
/// bytes consumed and the lines handed out so far.
pub struct Relay {
    pending: Vec<u8>,
    finished: bool,
    bytes_seen: Ghost<Seq<u8>>,
    lines_out: Ghost<Seq<Seq<char>>>,
}

impl Relay {
    /// All bytes of the stream consumed so far.
    pub closed spec fn consumed(self) -> Seq<u8> {
        self.bytes_seen@
    }

    /// The decoded lines handed out for forwarding so far, in order.
    pub closed spec fn forwarded(self) -> Seq<Seq<char>> {
        self.lines_out@
    }

    /// Whether the stream has reported end of data.
    pub closed spec fn done(self) -> bool {
        self.finished
    }

    /// While the stream is open, the buffered bytes are exactly the stream's
    /// unterminated tail and the lines handed out are the decodings of its
    /// completed lines; once it has closed, the lines handed out are the
    /// decodings of the whole stream's line split.
    pub closed spec fn wf(self) -> bool {
        if self.finished {
            self.lines_out@ == relayed_lines(self.bytes_seen@)
        } else {
            self.pending@ == line_pending(self.bytes_seen@) && self.lines_out@ == relayed_so_far(
                self.bytes_seen@,
            )
        }
    }

    /// A relay for a stream of which nothing has been consumed.
    pub fn new() -> (r: Relay)
        ensures
            r.wf(),
            !r.done(),
            r.consumed() == Seq::<u8>::empty(),
            r.forwarded() == Seq::<Seq<char>>::empty(),
    {
        let r = Relay {
            pending: Vec::new(),
            finished: false,
            bytes_seen: Ghost(Seq::empty()),
            lines_out: Ghost(Seq::empty()),
        };
        proof {
            assert(r.lines_out@ =~= relayed_so_far(r.bytes_seen@));
        }
        r
    }

    /// Consumes the next chunk of the open stream and returns the newly
    /// completed lines, decoded, in order. However the stream is cut into
    /// chunks, the lines handed out depend only on the bytes consumed.
    pub fn accept_chunk(&mut self, chunk: &[u8]) -> (lines: Vec<String>)
        requires
            old(self).wf(),
            !old(self).done(),
        ensures
            final(self).wf(),
            !final(self).done(),
            final(self).consumed() == old(self).consumed() + chunk@,
            final(self).forwarded() == old(self).forwarded() + lines.deep_view(),
            final(self).forwarded() == relayed_so_far(final(self).consumed()),
    {
        let mut lines: Vec<String> = Vec::new();
        let ghost base_forwarded: Seq<Seq<char>> = self.lines_out@;
        let ghost base_seen: Seq<u8> = self.bytes_seen@;
        let mut i: usize = 0;
        while i < chunk.len()
            invariant
                0 <= i <= chunk.len(),
                !self.finished,
                self.bytes_seen@ == base_seen + chunk@.take(i as int),
                self.pending@ == line_pending(self.bytes_seen@),
                self.lines_out@ == relayed_so_far(self.bytes_seen@),
                self.lines_out@ == base_forwarded + lines.deep_view(),
            decreases chunk.len() - i,
        {
            let b = chunk[i];
            proof {
                lemma_relayed_push(self.bytes_seen@, b);
                assert((base_seen + chunk@.take(i as int)).push(b) =~= base_seen + chunk@.take(
                    i + 1,
                ));
            }
            if b == 10 {
                let mut line: Vec<u8> = Vec::new();
                core::mem::swap(&mut line, &mut self.pending);
                let ghost line_view: Seq<u8> = line@;
                let decoded = decode_or_empty(line);
                proof {
                    assert(lines.deep_view().push(decoded@) =~= lines@.push(decoded).map_values(
                        |s: String| s.deep_view(),
                    ));
                }
                self.lines_out = Ghost(self.lines_out@.push(decoded@));
                lines.push(decoded);
                proof {
                    assert(lines.deep_view() =~= lines@.map_values(|s: String| s.deep_view()));
                }
            } else {
                self.pending.push(b);
            }
            self.bytes_seen = Ghost(self.bytes_seen@.push(b));
            i = i + 1;
        }
        proof {
            assert(chunk@.take(chunk@.len() as int) =~= chunk@);
        }
        lines
    }

    /// Records end of data on the stream. Any trailing unterminated line is
    /// decoded and returned as the last line to forward; after this, the
    /// lines handed out are exactly the decoded line split of the whole
    /// stream, and no further chunk is accepted.
    pub fn end_of_stream(&mut self) -> (last: Option<String>)
        requires
            old(self).wf(),
            !old(self).done(),
        ensures
            final(self).wf(),
            final(self).done(),
            final(self).consumed() == old(self).consumed(),
            final(self).forwarded() == relayed_lines(final(self).consumed()),
            match last {
                Some(s) => line_pending(old(self).consumed()).len() > 0 && s@ == decoded_or_empty(
                    line_pending(old(self).consumed()),
                ) && final(self).forwarded() == old(self).forwarded().push(s@),
                None => line_pending(old(self).consumed()).len() == 0 && final(self).forwarded()
                    == old(self).forwarded(),
            },
    {
        self.finished = true;
        if self.pending.len() == 0 {
            None
        } else {
            let mut line: Vec<u8> = Vec::new();
            core::mem::swap(&mut line, &mut self.pending);
            let decoded = decode_or_empty(line);
            self.lines_out = Ghost(self.lines_out@.push(decoded@));
            proof {
                assert(self.lines_out@ =~= relayed_lines(self.bytes_seen@));
            }
            Some(decoded)
        }
    }
}

} // verus!
