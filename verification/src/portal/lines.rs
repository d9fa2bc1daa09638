//! Line framing: the bytes that arrive from an interpreter's pipe, cut into
//! lines.
//!
//! A pipe hands over bytes in pieces that end anywhere. A [`LineBuffer`]
//! takes the pieces as they come and hands out each line once its line break
//! has arrived. How the bytes were cut into pieces makes no difference to the
//! lines.

use crate::portal::execution::{ProcessEvent, ProcessEventView};
use crate::portal::output::{OutputLine, OutputLineView, Stream};
use vstd::prelude::*;
use vstd::utf8::{decode_utf8, valid_utf8};

verus! {

/// The byte that ends a line.
pub const LINE_FEED: u8 = 10;

/// The byte that may stand before the end of a line and is not part of it.
pub const CARRIAGE_RETURN: u8 = 13;

/// What follows the last line break of `bytes`: the beginning of a line
/// whose end has not arrived.
pub open spec fn unfinished(bytes: Seq<u8>) -> Seq<u8>
    decreases bytes.len(),
{
    if bytes.len() == 0 {
        Seq::empty()
    } else if bytes.last() == LINE_FEED {
        Seq::empty()
    } else {
        unfinished(bytes.drop_last()).push(bytes.last())
    }
}

/// The lines of `bytes` whose line break has arrived, each without its line
/// break, in their order.
pub open spec fn complete_lines(bytes: Seq<u8>) -> Seq<Seq<u8>>
    decreases bytes.len(),
{
    if bytes.len() == 0 {
        Seq::empty()
    } else if bytes.last() == LINE_FEED {
        complete_lines(bytes.drop_last()).push(unfinished(bytes.drop_last()))
    } else {
        complete_lines(bytes.drop_last())
    }
}

/// The lines written out again, each followed by a line break.
pub open spec fn written(lines: Seq<Seq<u8>>) -> Seq<u8>
    decreases lines.len(),
{
    if lines.len() == 0 {
        Seq::empty()
    } else {
        written(lines.drop_last()) + lines.last().push(LINE_FEED)
    }
}

/// Whether no byte of `bytes` is a line break.
pub open spec fn unbroken(bytes: Seq<u8>) -> bool {
    forall|i: int| 0 <= i < bytes.len() ==> #[trigger] bytes[i] != LINE_FEED
}

/// A line without the carriage return that may end it.
pub open spec fn trimmed(line: Seq<u8>) -> Seq<u8> {
    if line.len() > 0 && line.last() == CARRIAGE_RETURN {
        line.drop_last()
    } else {
        line
    }
}

/// Nothing is lost and nothing is made up: the lines with their line breaks,
/// followed by the unfinished line, are the bytes that arrived. No line and
/// no unfinished line holds a line break.
pub proof fn lemma_lines_are_the_bytes(bytes: Seq<u8>)
    ensures
        written(complete_lines(bytes)) + unfinished(bytes) == bytes,
        unbroken(unfinished(bytes)),
        forall|k: int|
            0 <= k < complete_lines(bytes).len() ==> unbroken(#[trigger] complete_lines(bytes)[k]),
    decreases bytes.len(),
{
    if bytes.len() == 0 {
        assert(written(complete_lines(bytes)) + unfinished(bytes) =~= bytes);
    } else {
        let front = bytes.drop_last();
        lemma_lines_are_the_bytes(front);
        if bytes.last() == LINE_FEED {
            let lines = complete_lines(bytes);
            assert(lines.drop_last() =~= complete_lines(front));
            assert(lines.last() == unfinished(front));
            assert(written(lines) + unfinished(bytes) =~= (written(complete_lines(front))
                + unfinished(front)).push(LINE_FEED));
            assert(front.push(LINE_FEED) =~= bytes);
        } else {
            assert(written(complete_lines(bytes)) + unfinished(bytes) =~= (written(
                complete_lines(front),
            ) + unfinished(front)).push(bytes.last()));
            assert(front.push(bytes.last()) =~= bytes);
        }
    }
}

/// How the bytes are cut into pieces makes no difference. Taking `first` and
/// then `second` gives the lines of both taken at once; what is kept between
/// the two is the unfinished line of `first`.
pub proof fn lemma_pieces_make_no_difference(first: Seq<u8>, second: Seq<u8>)
    ensures
        complete_lines(first + second) == complete_lines(first) + complete_lines(
            unfinished(first) + second,
        ),
        unfinished(first + second) == unfinished(unfinished(first) + second),
    decreases second.len(),
{
    if second.len() == 0 {
        assert(first + second =~= first);
        assert(unfinished(first) + second =~= unfinished(first));
        lemma_unfinished_is_whole(first);
        assert(complete_lines(first) + Seq::<Seq<u8>>::empty() =~= complete_lines(first));
    } else {
        let front = second.drop_last();
        lemma_pieces_make_no_difference(first, front);
        assert((first + second).drop_last() =~= first + front);
        assert((unfinished(first) + second).drop_last() =~= unfinished(first) + front);
        assert((first + second).last() == second.last());
        assert((unfinished(first) + second).last() == second.last());
        if second.last() == LINE_FEED {
            assert(complete_lines(first + second) =~= complete_lines(first) + complete_lines(
                unfinished(first) + second,
            ));
        }
    }
}

/// An unfinished line holds no complete line and is its own unfinished line.
pub proof fn lemma_unfinished_is_whole(bytes: Seq<u8>)
    ensures
        complete_lines(unfinished(bytes)) == Seq::<Seq<u8>>::empty(),
        unfinished(unfinished(bytes)) == unfinished(bytes),
{
    lemma_lines_are_the_bytes(bytes);
    lemma_unbroken_is_whole(unfinished(bytes));
}

/// Bytes without a line break hold no complete line and are all unfinished.
pub proof fn lemma_unbroken_is_whole(bytes: Seq<u8>)
    requires
        unbroken(bytes),
    ensures
        complete_lines(bytes) == Seq::<Seq<u8>>::empty(),
        unfinished(bytes) == bytes,
    decreases bytes.len(),
{
    if bytes.len() > 0 {
        let front = bytes.drop_last();
        assert(bytes.last() == bytes[bytes.len() - 1]);
        assert forall|i: int| 0 <= i < front.len() implies #[trigger] front[i] != LINE_FEED by {
            assert(front[i] == bytes[i]);
        }
        lemma_unbroken_is_whole(front);
        assert(front.push(bytes.last()) =~= bytes);
    } else {
        assert(unfinished(bytes) =~= bytes);
    }
}

/// The text of bytes that are read as UTF-8, with a replacement character in
/// the place of each part that is none.
pub uninterp spec fn lossy_text(bytes: Seq<u8>) -> Seq<char>;

/// Decodes bytes with `String::from_utf8_lossy`. The text depends on the
/// bytes alone, and valid UTF-8 is decoded as it stands.
#[verifier::external_body]
pub(crate) fn decode_lossy(bytes: &[u8]) -> (s: String)
    ensures
        s@ == lossy_text(bytes@),
        valid_utf8(bytes@) ==> s@ == decode_utf8(bytes@),
{
    String::from_utf8_lossy(bytes).into_owned()
}

/// The text of a line: of its bytes without the carriage return that may end
/// them.
pub open spec fn text_of(line: Seq<u8>) -> Seq<char> {
    lossy_text(trimmed(line))
}

/// Returns the text of a line.
pub fn line_text(line: &Vec<u8>) -> (s: String)
    ensures
        s@ == text_of(line@),
        valid_utf8(trimmed(line@)) ==> s@ == decode_utf8(trimmed(line@)),
{
    let n = line.len();
    if n > 0 && line[n - 1] == CARRIAGE_RETURN {
        let body = vstd::slice::slice_subrange(line.as_slice(), 0, n - 1);
        assert(body@ =~= trimmed(line@));
        decode_lossy(body)
    } else {
        decode_lossy(line.as_slice())
    }
}

/// Returns the event for a line that arrived on `stream`.
pub fn line_event(stream: Stream, line: &Vec<u8>) -> (e: ProcessEvent)
    ensures
        e@ == ProcessEventView::Line(OutputLineView { stream, text: text_of(line@) }),
{
    ProcessEvent::Line(OutputLine::new(stream, line_text(line)))
}

/// The bytes of one pipe that wait for their line break.
#[derive(Debug, Clone, PartialEq, Eq)]
pub struct LineBuffer {
    pending: Vec<u8>,
}

impl View for LineBuffer {
    type V = Seq<u8>;

    closed spec fn view(&self) -> Seq<u8> {
        self.pending@
    }
}

impl LineBuffer {
    /// The buffer holds the beginning of one line, without a line break.
    pub open spec fn wf(&self) -> bool {
        unbroken(self@)
    }

    /// Makes an empty buffer.
    pub fn new() -> (b: LineBuffer)
        ensures
            b@ == Seq::<u8>::empty(),
            b.wf(),
    {
        LineBuffer { pending: Vec::new() }
    }

    /// Takes the next piece of bytes and returns the lines that it
    /// completes, in their order and without their line breaks. What follows
    /// the last line break is kept for the next piece.
    pub fn push(&mut self, piece: &[u8]) -> (lines: Vec<Vec<u8>>)
        requires
            old(self).wf(),
        ensures
            final(self).wf(),
            lines.deep_view() == complete_lines(old(self)@ + piece@),
            final(self)@ == unfinished(old(self)@ + piece@),
    {
        let ghost before = self@;
        let mut lines: Vec<Vec<u8>> = Vec::new();
        let mut i: usize = 0;
        proof {
            lemma_unbroken_is_whole(before);
            assert(before + piece@.take(0) =~= before);
            assert(lines.deep_view() =~= complete_lines(before));
        }
        while i < piece.len()
            invariant
                i <= piece.len(),
                lines.deep_view() == complete_lines(before + piece@.take(i as int)),
                self.pending@ == unfinished(before + piece@.take(i as int)),
            decreases piece.len() - i,
        {
            let byte = piece[i];
            let ghost seen = before + piece@.take(i as int);
            let ghost next = before + piece@.take(i + 1);
            let ghost collected = lines.deep_view();
            assert(next.drop_last() =~= seen);
            assert(next.last() == byte);
            if byte == LINE_FEED {
                let mut line: Vec<u8> = Vec::new();
                std::mem::swap(&mut line, &mut self.pending);
                assert(line.deep_view() =~= unfinished(seen));
                lines.push(line);
                assert(lines.deep_view() =~= collected.push(unfinished(seen)));
            } else {
                self.pending.push(byte);
            }
            i += 1;
        }
        proof {
            assert(piece@.take(i as int) =~= piece@);
            lemma_lines_are_the_bytes(before + piece@);
        }
        lines
    }

    /// Hands out the line that was begun and not ended, when the pipe is
    /// closed, and leaves the buffer empty. There is none where the last
    /// byte that arrived was a line break.
    pub fn finish(&mut self) -> (line: Option<Vec<u8>>)
        ensures
            final(self)@ == Seq::<u8>::empty(),
            final(self).wf(),
            match line {
                Some(l) => old(self)@.len() > 0 && l@ == old(self)@,
                None => old(self)@.len() == 0,
            },
    {
        let mut line: Vec<u8> = Vec::new();
        std::mem::swap(&mut line, &mut self.pending);
        if line.len() > 0 {
            Some(line)
        } else {
            None
        }
    }
}

} // verus!
