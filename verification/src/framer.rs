//! Reassembly of a raw byte stream into lines.
//!
//! A source hands over its output in chunks whose boundaries say nothing about
//! where a line ends. A line ends at a line feed (byte 10); the line feed is
//! not part of the line, and every other byte is, a carriage return included.
//! What follows the last line feed is kept until more bytes arrive, and
//! becomes the last line when the stream ends.

use vstd::prelude::*;
use vstd::utf8::decode_utf8;
use vstd::utf8::valid_utf8;

verus! {

/// The byte that ends a line.
pub const LINE_FEED: u8 = 10;

/// `bytes` holds no line terminator.
pub open spec fn has_no_terminator(bytes: Seq<u8>) -> bool {
    forall|i: int| 0 <= i < bytes.len() ==> bytes[i] != LINE_FEED
}

/// The number of line terminators in `bytes`.
pub open spec fn terminator_count(bytes: Seq<u8>) -> nat
    decreases bytes.len(),
{
    if bytes.len() == 0 {
        0
    } else if bytes.last() == LINE_FEED {
        terminator_count(bytes.drop_last()) + 1
    } else {
        terminator_count(bytes.drop_last())
    }
}

/// The terminated lines of `bytes`, in stream order, each without its
/// terminator.
pub open spec fn complete_lines(bytes: Seq<u8>) -> Seq<Seq<u8>>
    decreases bytes.len(),
{
    if bytes.len() == 0 {
        seq![]
    } else if bytes.last() == LINE_FEED {
        complete_lines(bytes.drop_last()).push(remainder(bytes.drop_last()))
    } else {
        complete_lines(bytes.drop_last())
    }
}

/// What follows the last terminator of `bytes`: the line that is not yet
/// complete.
pub open spec fn remainder(bytes: Seq<u8>) -> Seq<u8>
    decreases bytes.len(),
{
    if bytes.len() == 0 {
        seq![]
    } else if bytes.last() == LINE_FEED {
        seq![]
    } else {
        remainder(bytes.drop_last()).push(bytes.last())
    }
}

/// The lines of a stream that ended after `bytes`: the terminated lines, then
/// the remainder as a last line unless it is empty.
pub open spec fn all_lines(bytes: Seq<u8>) -> Seq<Seq<u8>> {
    if remainder(bytes).len() == 0 {
        complete_lines(bytes)
    } else {
        complete_lines(bytes).push(remainder(bytes))
    }
}

/// The bytes of `lines` with a terminator behind each line.
pub open spec fn join_lines(lines: Seq<Seq<u8>>) -> Seq<u8>
    decreases lines.len(),
{
    if lines.len() == 0 {
        seq![]
    } else {
        join_lines(lines.drop_last()) + lines.last().push(LINE_FEED)
    }
}

/// The lines that a new framer has handed out after taking `chunks` one by
/// one.
pub open spec fn fed_lines(chunks: Seq<Seq<u8>>) -> Seq<Seq<u8>>
    decreases chunks.len(),
{
    if chunks.len() == 0 {
        seq![]
    } else {
        fed_lines(chunks.drop_last()) + complete_lines(
            fed_pending(chunks.drop_last()) + chunks.last(),
        )
    }
}

/// What a new framer holds back after taking `chunks` one by one.
pub open spec fn fed_pending(chunks: Seq<Seq<u8>>) -> Seq<u8>
    decreases chunks.len(),
{
    if chunks.len() == 0 {
        seq![]
    } else {
        remainder(fed_pending(chunks.drop_last()) + chunks.last())
    }
}

/// Bytes without a terminator hold no complete line and are their own
/// remainder.
pub proof fn lemma_unterminated(bytes: Seq<u8>)
    requires
        has_no_terminator(bytes),
    ensures
        complete_lines(bytes) == Seq::<Seq<u8>>::empty(),
        remainder(bytes) == bytes,
        terminator_count(bytes) == 0,
    decreases bytes.len(),
{
    if bytes.len() > 0 {
        lemma_unterminated(bytes.drop_last());
    }
}

/// No line that the framing yields holds a terminator, and neither does the
/// remainder.
pub proof fn lemma_lines_hold_no_terminator(bytes: Seq<u8>)
    ensures
        forall|k: int|
            0 <= k < complete_lines(bytes).len() ==> has_no_terminator(
                #[trigger] complete_lines(bytes)[k],
            ),
        has_no_terminator(remainder(bytes)),
    decreases bytes.len(),
{
    if bytes.len() > 0 {
        let head = bytes.drop_last();
        lemma_lines_hold_no_terminator(head);
        assert forall|k: int| 0 <= k < complete_lines(bytes).len() implies has_no_terminator(
            #[trigger] complete_lines(bytes)[k],
        ) by {
            if k < complete_lines(head).len() {
                assert(complete_lines(bytes)[k] == complete_lines(head)[k]);
            } else {
                assert(complete_lines(bytes)[k] == remainder(head));
            }
        }
    }
}

/// There is one complete line for each terminator.
pub proof fn lemma_line_count(bytes: Seq<u8>)
    ensures
        complete_lines(bytes).len() == terminator_count(bytes),
    decreases bytes.len(),
{
    if bytes.len() > 0 {
        lemma_line_count(bytes.drop_last());
    }
}

/// The terminators of two pieces put together are those of the first and
/// those of the second.
pub proof fn lemma_terminator_count_adds(first: Seq<u8>, second: Seq<u8>)
    ensures
        terminator_count(first + second) == terminator_count(first) + terminator_count(second),
    decreases second.len(),
{
    if second.len() == 0 {
        assert(first + second =~= first);
    } else {
        lemma_terminator_count_adds(first, second.drop_last());
        assert((first + second).drop_last() =~= first + second.drop_last());
    }
}

/// No byte is lost or added: the complete lines, each with its terminator put
/// back, followed by the remainder, are the stream itself.
pub proof fn lemma_reassembly(bytes: Seq<u8>)
    ensures
        join_lines(complete_lines(bytes)) + remainder(bytes) == bytes,
    decreases bytes.len(),
{
    if bytes.len() > 0 {
        let head = bytes.drop_last();
        lemma_reassembly(head);
        assert(head.push(bytes.last()) =~= bytes);
        if bytes.last() == LINE_FEED {
            let lines = complete_lines(head).push(remainder(head));
            assert(lines.drop_last() =~= complete_lines(head));
        }
    }
}

/// Where a stream is cut into two pieces does not matter: framing the second
/// piece behind the remainder of the first gives the lines and the remainder
/// of the whole.
pub proof fn lemma_framing_continues(first: Seq<u8>, second: Seq<u8>)
    ensures
        complete_lines(first + second) == complete_lines(first) + complete_lines(
            remainder(first) + second,
        ),
        remainder(first + second) == remainder(remainder(first) + second),
    decreases second.len(),
{
    let kept = remainder(first);
    if second.len() == 0 {
        lemma_lines_hold_no_terminator(first);
        lemma_unterminated(kept);
    } else {
        let head = second.drop_last();
        lemma_framing_continues(first, head);
        assert((first + second).drop_last() =~= first + head);
        assert((kept + second).drop_last() =~= kept + head);
    }
}

/// The framing is the only way to cut a stream into lines: bytes put together
/// from lines without terminators, a terminator behind each, and a rest
/// without terminator, are framed into exactly these lines and this rest.
pub proof fn lemma_framing_of_joined(lines: Seq<Seq<u8>>, rest: Seq<u8>)
    requires
        forall|k: int| 0 <= k < lines.len() ==> has_no_terminator(#[trigger] lines[k]),
        has_no_terminator(rest),
    ensures
        complete_lines(join_lines(lines) + rest) == lines,
        remainder(join_lines(lines) + rest) == rest,
        terminator_count(join_lines(lines) + rest) == lines.len(),
    decreases lines.len(),
{
    lemma_unterminated(rest);
    if lines.len() > 0 {
        let head = lines.drop_last();
        let line = lines.last();
        let joined = join_lines(lines);
        lemma_framing_of_joined(head, line);
        assert(joined.drop_last() =~= join_lines(head) + line);
        lemma_framing_continues(joined, rest);
    }
    lemma_line_count(join_lines(lines) + rest);
}

/// Chunk boundaries do not matter: a framer that takes a stream chunk by
/// chunk hands out the lines of the chunks put together, and holds back their
/// remainder.
pub proof fn lemma_chunks_frame_as_whole(chunks: Seq<Seq<u8>>)
    ensures
        fed_lines(chunks) == complete_lines(chunks.flatten()),
        fed_pending(chunks) == remainder(chunks.flatten()),
    decreases chunks.len(),
{
    if chunks.len() > 0 {
        let head = chunks.drop_last();
        lemma_chunks_frame_as_whole(head);
        head.lemma_flatten_push(chunks.last());
        assert(head.push(chunks.last()) =~= chunks);
        lemma_framing_continues(head.flatten(), chunks.last());
    }
}

/// A stream of K terminated lines and an unterminated rest that is not empty,
/// cut into chunks in any way, yields the K lines and then the rest: K + 1
/// lines, in stream order, that hold every byte of the stream but its
/// terminators.
pub proof fn lemma_stream_yields_its_lines(
    chunks: Seq<Seq<u8>>,
    lines: Seq<Seq<u8>>,
    rest: Seq<u8>,
)
    requires
        chunks.flatten() == join_lines(lines) + rest,
        forall|k: int| 0 <= k < lines.len() ==> has_no_terminator(#[trigger] lines[k]),
        has_no_terminator(rest),
        rest.len() > 0,
    ensures
        fed_lines(chunks) == lines,
        fed_pending(chunks) == rest,
        all_lines(chunks.flatten()) == lines.push(rest),
        all_lines(chunks.flatten()).len() == terminator_count(chunks.flatten()) + 1,
{
    lemma_chunks_frame_as_whole(chunks);
    lemma_framing_of_joined(lines, rest);
}

/// The text that `String::from_utf8_lossy` makes of `bytes`: their decoding
/// as UTF-8, with a replacement character in place of whatever is not valid.
pub uninterp spec fn lossy_text(bytes: Seq<u8>) -> Seq<char>;

/// Calls `String::from_utf8_lossy` and takes the text out of what it returns.
///
/// Trusted: the result is a function of the bytes alone, named `lossy_text`,
/// and bytes that are valid UTF-8 are decoded as they stand.
#[verifier::external_body]
fn decode_lossy(bytes: &[u8]) -> (text: String)
    ensures
        text@ == lossy_text(bytes@),
        valid_utf8(bytes@) ==> text@ == decode_utf8(bytes@),
{
    String::from_utf8_lossy(bytes).into_owned()
}

/// One line of a log: its bytes as the source sent them, without terminator.
#[derive(Debug, PartialEq, Eq)]
pub struct LogLine {
    bytes: Vec<u8>,
}

impl View for LogLine {
    type V = Seq<u8>;

    closed spec fn view(&self) -> Seq<u8> {
        self.bytes@
    }
}

impl DeepView for LogLine {
    type V = Seq<u8>;

    open spec fn deep_view(&self) -> Seq<u8> {
        self@
    }
}

impl Clone for LogLine {
    fn clone(&self) -> (copy: LogLine)
        ensures
            copy@ == self@,
    {
        proof {
            use_type_invariant(self);
        }
        let bytes = self.bytes.clone();
        LogLine { bytes }
    }
}

impl LogLine {
    #[verifier::type_invariant]
    spec fn holds_no_terminator(&self) -> bool {
        has_no_terminator(self.bytes@)
    }

    /// The line made of `bytes`, unless they hold a terminator.
    pub fn new(bytes: Vec<u8>) -> (line: Option<LogLine>)
        ensures
            line is Some <==> has_no_terminator(bytes@),
            line is Some ==> line->0@ == bytes@,
    {
        let mut i: usize = 0;
        while i < bytes.len()
            invariant
                i <= bytes.len(),
                has_no_terminator(bytes@.take(i as int)),
            decreases bytes.len() - i,
        {
            if bytes[i] == LINE_FEED {
                return None;
            }
            i += 1;
        }
        assert(bytes@.take(i as int) =~= bytes@);
        Some(LogLine { bytes })
    }

    /// The bytes of the line.
    pub fn as_bytes(&self) -> (bytes: &[u8])
        ensures
            bytes@ == self@,
            has_no_terminator(self@),
    {
        proof {
            use_type_invariant(self);
        }
        self.bytes.as_slice()
    }

    /// The number of bytes in the line.
    pub fn len(&self) -> (n: usize)
        ensures
            n == self@.len(),
    {
        self.bytes.len()
    }

    /// The text of the line. Bytes that are not valid UTF-8 are replaced,
    /// never refused.
    pub fn text(&self) -> (text: String)
        ensures
            text@ == lossy_text(self@),
            valid_utf8(self@) ==> text@ == decode_utf8(self@),
    {
        decode_lossy(self.bytes.as_slice())
    }
}

/// Turns the chunks of a byte stream into lines.
///
/// A line may be as long as memory allows. `pending_len` tells how many bytes
/// are held back, for a caller that wants to give up on a line without end.
#[derive(Debug)]
pub struct LineFramer {
    pending: Vec<u8>,
}

impl View for LineFramer {
    type V = Seq<u8>;

    /// The bytes held back: what has arrived behind the last terminator.
    closed spec fn view(&self) -> Seq<u8> {
        self.pending@
    }
}

impl LineFramer {
    #[verifier::type_invariant]
    spec fn holds_no_terminator(&self) -> bool {
        has_no_terminator(self.pending@)
    }

    /// A framer that has seen no byte yet.
    pub fn new() -> (framer: LineFramer)
        ensures
            framer@ == Seq::<u8>::empty(),
    {
        LineFramer { pending: Vec::new() }
    }

    /// The number of bytes held back.
    pub fn pending_len(&self) -> (n: usize)
        ensures
            n == self@.len(),
    {
        self.pending.len()
    }

    /// Takes the next chunk of the stream and hands out the lines that it
    /// completes, in stream order. The first of them starts with the bytes
    /// held back so far; what follows the last terminator of the chunk is
    /// held back in turn.
    pub fn push(&mut self, chunk: &[u8]) -> (lines: Vec<LogLine>)
        ensures
            lines.deep_view() == complete_lines(old(self)@ + chunk@),
            final(self)@ == remainder(old(self)@ + chunk@),
    {
        proof {
            use_type_invariant(&*self);
            lemma_unterminated(self@);
        }
        let ghost before = self@;
        let mut kept: Vec<u8> = Vec::new();
        core::mem::swap(&mut self.pending, &mut kept);
        let mut lines: Vec<LogLine> = Vec::new();
        let mut i: usize = 0;
        while i < chunk.len()
            invariant
                i <= chunk.len(),
                lines.deep_view() == complete_lines(before + chunk@.take(i as int)),
                kept@ == remainder(before + chunk@.take(i as int)),
            decreases chunk.len() - i,
        {
            let ghost seen = before + chunk@.take(i as int);
            let byte = chunk[i];
            proof {
                assert((seen.push(byte)).drop_last() =~= seen);
                assert(before + chunk@.take(i + 1) =~= seen.push(byte));
                lemma_lines_hold_no_terminator(seen);
            }
            if byte == LINE_FEED {
                let mut line: Vec<u8> = Vec::new();
                core::mem::swap(&mut kept, &mut line);
                lines.push(LogLine { bytes: line });
            } else {
                kept.push(byte);
            }
            i += 1;
        }
        proof {
            assert(chunk@.take(i as int) =~= chunk@);
            lemma_lines_hold_no_terminator(before + chunk@);
        }
        self.pending = kept;
        lines
    }

    /// Ends the stream: hands out the bytes held back as the last line,
    /// unless there are none, and holds nothing back any more.
    pub fn finish(&mut self) -> (last: Option<LogLine>)
        ensures
            final(self)@ == Seq::<u8>::empty(),
            last is Some <==> old(self)@.len() > 0,
            last is Some ==> last->0@ == old(self)@,
    {
        proof {
            use_type_invariant(&*self);
        }
        let mut kept: Vec<u8> = Vec::new();
        core::mem::swap(&mut self.pending, &mut kept);
        if kept.len() == 0 {
            None
        } else {
            Some(LogLine { bytes: kept })
        }
    }

    /// Drops the bytes held back.
    pub fn clear(&mut self)
        ensures
            final(self)@ == Seq::<u8>::empty(),
    {
        self.pending = Vec::new();
    }
}

} // verus!
