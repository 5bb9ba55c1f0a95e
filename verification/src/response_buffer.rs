//! The byte stream buffer: bytes received from the channel accumulate here, and
//! complete lines are taken from the front.

use crate::io::IoFailure;
use crate::text::{find_byte, lemma_run_len, lemma_run_len_is, run_len};
use vstd::prelude::*;

verus! {

/// The byte that ends a line.
pub const LINE_DELIM: u8 = 10;

/// Number of bytes that stand before the first line delimiter of `s`, or the
/// length of `s` where it holds no delimiter.
pub open spec fn line_len(s: Seq<u8>) -> nat {
    run_len(s, LINE_DELIM)
}

/// Whether `s` holds at least one complete line.
pub open spec fn has_line(s: Seq<u8>) -> bool {
    line_len(s) < s.len()
}

/// The first complete line of `s`, without its delimiter.
pub open spec fn first_line(s: Seq<u8>) -> Option<Seq<u8>> {
    if has_line(s) {
        Some(s.take(line_len(s) as int))
    } else {
        None
    }
}

/// What is left of `s` once its first complete line and the delimiter are gone;
/// `s` itself where it holds no complete line.
pub open spec fn after_line(s: Seq<u8>) -> Seq<u8> {
    if has_line(s) {
        s.skip(line_len(s) as int + 1)
    } else {
        s
    }
}

/// All complete lines of `s`, in order.
pub open spec fn lines(s: Seq<u8>) -> Seq<Seq<u8>>
    decreases s.len(),
{
    if has_line(s) {
        seq![s.take(line_len(s) as int)] + lines(s.skip(line_len(s) as int + 1))
    } else {
        Seq::empty()
    }
}

/// The unfinished line at the end of `s`: what follows its last delimiter.
pub open spec fn partial_line(s: Seq<u8>) -> Seq<u8>
    decreases s.len(),
{
    if has_line(s) {
        partial_line(s.skip(line_len(s) as int + 1))
    } else {
        s
    }
}

/// All the chunks of `chunks` joined into one stream.
pub open spec fn concat_chunks(chunks: Seq<Seq<u8>>) -> Seq<u8>
    decreases chunks.len(),
{
    if chunks.len() == 0 {
        Seq::empty()
    } else {
        chunks[0] + concat_chunks(chunks.drop_first())
    }
}

/// The lines obtained by appending one chunk at a time to the unfinished line
/// `rest` and taking every complete line after each chunk.
pub open spec fn lines_by_chunk(rest: Seq<u8>, chunks: Seq<Seq<u8>>) -> Seq<Seq<u8>>
    decreases chunks.len(),
{
    if chunks.len() == 0 {
        Seq::empty()
    } else {
        lines(rest + chunks[0]) + lines_by_chunk(
            partial_line(rest + chunks[0]),
            chunks.drop_first(),
        )
    }
}

/// `line_len(s)` is the position of the first delimiter of `s`.
pub proof fn lemma_line_len(s: Seq<u8>)
    ensures
        line_len(s) <= s.len(),
        forall|i: int| 0 <= i < line_len(s) ==> s[i] != LINE_DELIM,
        line_len(s) < s.len() ==> s[line_len(s) as int] == LINE_DELIM,
{
    lemma_run_len(s, LINE_DELIM);
}

/// A delimiter at `i` with none before it is where the first line ends.
pub proof fn lemma_line_len_is(s: Seq<u8>, i: int)
    requires
        0 <= i <= s.len(),
        forall|j: int| 0 <= j < i ==> s[j] != LINE_DELIM,
        i < s.len() ==> s[i] == LINE_DELIM,
    ensures
        line_len(s) == i,
{
    lemma_run_len_is(s, LINE_DELIM, i);
}

/// Bytes that arrive after a complete line do not change that line.
pub proof fn lemma_line_len_append(a: Seq<u8>, b: Seq<u8>)
    requires
        has_line(a),
    ensures
        line_len(a + b) == line_len(a),
        has_line(a + b),
        (a + b).take(line_len(a) as int) == a.take(line_len(a) as int),
        (a + b).skip(line_len(a) as int + 1) == a.skip(line_len(a) as int + 1) + b,
{
    lemma_line_len(a);
    let n = line_len(a) as int;
    assert forall|j: int| 0 <= j < n implies (a + b)[j] != LINE_DELIM by {
        assert((a + b)[j] == a[j]);
    }
    assert((a + b)[n] == a[n]);
    lemma_line_len_is(a + b, n);
    assert((a + b).take(n) =~= a.take(n));
    assert((a + b).skip(n + 1) =~= a.skip(n + 1) + b);
}

/// The lines of a stream do not depend on where it was cut into two chunks:
/// taking the lines of the first chunk, then those of its unfinished line
/// followed by the second chunk, gives the lines of the whole, and leaves the
/// same unfinished line.
pub proof fn lemma_lines_split(a: Seq<u8>, b: Seq<u8>)
    ensures
        lines(a + b) == lines(a) + lines(partial_line(a) + b),
        partial_line(a + b) == partial_line(partial_line(a) + b),
    decreases a.len(),
{
    if has_line(a) {
        lemma_line_len(a);
        lemma_line_len_append(a, b);
        let n = line_len(a) as int;
        let rest = a.skip(n + 1);
        lemma_lines_split(rest, b);
        assert(lines(a + b) =~= lines(a) + lines(partial_line(a) + b));
    } else {
        assert(lines(a) =~= Seq::<Seq<u8>>::empty());
        assert(lines(a + b) =~= lines(a) + lines(partial_line(a) + b));
    }
}

/// However a stream is cut into chunks, appending the chunks one at a time and
/// taking every complete line after each gives exactly the lines of the stream.
pub proof fn lemma_lines_by_chunk(rest: Seq<u8>, chunks: Seq<Seq<u8>>)
    requires
        !has_line(rest),
    ensures
        lines_by_chunk(rest, chunks) == lines(rest + concat_chunks(chunks)),
    decreases chunks.len(),
{
    if chunks.len() == 0 {
        assert(rest + concat_chunks(chunks) =~= rest);
    } else {
        let head = chunks[0];
        let tail = chunks.drop_first();
        let joined = rest + head;
        lemma_partial_line_has_no_line(joined);
        lemma_lines_by_chunk(partial_line(joined), tail);
        lemma_lines_split(joined, concat_chunks(tail));
        assert(joined + concat_chunks(tail) =~= rest + concat_chunks(chunks));
    }
}

/// A delimiter behind an unfinished line completes it: the line is then the
/// first that is read, and nothing is left behind it.
pub proof fn lemma_delimiter_completes_the_line(s: Seq<u8>)
    requires
        !has_line(s),
    ensures
        first_line(s.push(LINE_DELIM)) == Some(s),
        after_line(s.push(LINE_DELIM)) == Seq::<u8>::empty(),
{
    lemma_line_len(s);
    let t = s.push(LINE_DELIM);
    assert forall|j: int| 0 <= j < s.len() implies t[j] != LINE_DELIM by {
        assert(t[j] == s[j]);
    }
    lemma_line_len_is(t, s.len() as int);
    assert(t.take(s.len() as int) =~= s);
    assert(t.skip(s.len() as int + 1) =~= Seq::<u8>::empty());
}

/// The lines of `ls`, each followed by the line delimiter.
pub open spec fn delimited(ls: Seq<Seq<u8>>) -> Seq<u8>
    decreases ls.len(),
{
    if ls.len() == 0 {
        Seq::empty()
    } else {
        ls[0] + seq![LINE_DELIM] + delimited(ls.drop_first())
    }
}

/// The complete lines and the unfinished line are the stream cut at its
/// delimiters: none of them holds a delimiter, and the lines, each with its
/// delimiter, followed by the unfinished line, make up the stream.
pub proof fn lemma_lines_are_the_stream(s: Seq<u8>)
    ensures
        delimited(lines(s)) + partial_line(s) == s,
        forall|i: int, j: int|
            0 <= i < lines(s).len() && 0 <= j < lines(s)[i].len() ==> #[trigger] lines(
                s,
            )[i][j] != LINE_DELIM,
        forall|j: int| 0 <= j < partial_line(s).len() ==> #[trigger] partial_line(s)[j] != LINE_DELIM,
    decreases s.len(),
{
    lemma_line_len(s);
    if has_line(s) {
        let n = line_len(s) as int;
        let line = s.take(n);
        let rest = s.skip(n + 1);
        lemma_lines_are_the_stream(rest);
        assert(lines(s) == seq![line] + lines(rest));
        assert(lines(s).drop_first() =~= lines(rest));
        assert(lines(s)[0] == line);
        assert(delimited(lines(s)) == line + seq![LINE_DELIM] + delimited(lines(rest)));
        assert(line + seq![LINE_DELIM] + (delimited(lines(rest)) + partial_line(rest)) =~= s);
        assert(delimited(lines(s)) + partial_line(s) =~= s);
        assert forall|i: int, j: int|
            0 <= i < lines(s).len() && 0 <= j < lines(s)[i].len() implies #[trigger] lines(
            s,
        )[i][j] != LINE_DELIM by {
            if i == 0 {
                assert(line[j] == s[j]);
            } else {
                assert(lines(s)[i] == lines(rest)[i - 1]);
            }
        }
    } else {
        assert(lines(s) =~= Seq::<Seq<u8>>::empty());
        assert(delimited(lines(s)) + partial_line(s) =~= s);
    }
}

/// The unfinished line holds no delimiter.
pub proof fn lemma_partial_line_has_no_line(s: Seq<u8>)
    ensures
        !has_line(partial_line(s)),
    decreases s.len(),
{
    if has_line(s) {
        lemma_line_len(s);
        lemma_partial_line_has_no_line(s.skip(line_len(s) as int + 1));
    }
}

/// Bytes received from the channel, with a cursor that marks where the
/// unconsumed bytes start.
pub struct ResponseBuffer {
    buffer: Vec<u8>,
    position: usize,
}

impl ResponseBuffer {
    /// The cursor does not pass the end of the buffer.
    pub closed spec fn wf(&self) -> bool {
        self.position <= self.buffer@.len()
    }

    /// Every byte the buffer holds, consumed or not.
    pub closed spec fn bytes(&self) -> Seq<u8> {
        self.buffer@
    }

    /// Where the unconsumed bytes start.
    pub closed spec fn cursor(&self) -> nat {
        self.position as nat
    }

    /// The unconsumed bytes.
    pub closed spec fn pending(&self) -> Seq<u8> {
        self.buffer@.skip(self.position as int)
    }

    /// In a well-formed buffer the cursor does not pass the end, and the
    /// unconsumed bytes are those from the cursor on.
    pub proof fn lemma_pending(&self)
        requires
            self.wf(),
        ensures
            self.cursor() <= self.bytes().len(),
            self.pending() == self.bytes().skip(self.cursor() as int),
    {
    }

    /// Compaction is not seen by reading: where `once` is what a shift makes of
    /// `before`, the lines that are read from it are those that would have been
    /// read from `before`. It is also idempotent: where `twice` is what a shift
    /// makes of `once`, it holds the same bytes at the same cursor.
    pub proof fn lemma_shift(before: ResponseBuffer, once: ResponseBuffer, twice: ResponseBuffer)
        requires
            before.wf(),
            once.wf(),
            twice.wf(),
            once.cursor() == 0,
            once.bytes() == before.pending(),
            once.pending() == before.pending(),
            twice.cursor() == 0,
            twice.bytes() == once.pending(),
            twice.pending() == once.pending(),
        ensures
            first_line(once.pending()) == first_line(before.pending()),
            after_line(once.pending()) == after_line(before.pending()),
            lines(once.pending()) == lines(before.pending()),
            twice.bytes() == once.bytes(),
            twice.cursor() == once.cursor(),
            twice.pending() == once.pending(),
    {
        assert(once.bytes().skip(0) =~= once.bytes());
    }

    const RESERVE_SIZE: usize = 128;

    /// An empty buffer.
    pub fn new() -> (r: Self)
        ensures
            r.wf(),
            r.bytes() == Seq::<u8>::empty(),
            r.cursor() == 0,
            r.pending() == Seq::<u8>::empty(),
    {
        let r = ResponseBuffer { buffer: Vec::with_capacity(Self::RESERVE_SIZE), position: 0 };
        assert(r.buffer@.skip(0) =~= Seq::<u8>::empty());
        r
    }

    /// Takes in what one non-blocking read of everything available gave:
    /// `received` holds the bytes that were read, `outcome` how the read ended.
    /// That the read would have blocked is no error; any other failure is handed
    /// back. The bytes are kept either way.
    pub fn read_nonblocking(&mut self, received: &[u8], outcome: Result<(), IoFailure>) -> (r:
        Result<(), IoFailure>)
        requires
            old(self).wf(),
        ensures
            final(self).wf(),
            final(self).bytes() == old(self).bytes() + received@,
            final(self).cursor() == old(self).cursor(),
            final(self).pending() == old(self).pending() + received@,
            r == match outcome {
                Ok(()) => Ok::<(), IoFailure>(()),
                Err(e) => if e.kind == crate::io::IoErrorKind::WouldBlock {
                    Ok(())
                } else {
                    Err(e)
                },
            },
    {
        self.buffer.extend_from_slice(received);
        assert(self.buffer@ =~= old(self).buffer@ + received@);
        assert(self.buffer@.skip(self.position as int) =~= old(self).buffer@.skip(
            self.position as int,
        ) + received@);
        match outcome {
            Ok(()) => Ok(()),
            Err(e) => if e.is_would_block() {
                Ok(())
            } else {
                Err(e)
            },
        }
    }

    /// Takes in what one read gave: `received` holds the bytes that were read,
    /// `outcome` how the read ended. The bytes are put behind those that the
    /// buffer holds. That the read would have blocked is no error; any other
    /// failure is handed back.
    pub fn read_from(&mut self, received: &[u8], outcome: Result<(), IoFailure>) -> (r: Result<
        (),
        IoFailure,
    >)
        requires
            old(self).wf(),
        ensures
            final(self).wf(),
            final(self).bytes() == old(self).bytes() + received@,
            final(self).cursor() == old(self).cursor(),
            final(self).pending() == old(self).pending() + received@,
            r == match outcome {
                Ok(()) => Ok::<(), IoFailure>(()),
                Err(e) => if e.kind == crate::io::IoErrorKind::WouldBlock {
                    Ok(())
                } else {
                    Err(e)
                },
            },
    {
        self.read_nonblocking(received, outcome)
    }

    /// Takes in what reading one more byte from a blocking source gave, and says
    /// whether to read on. Every byte is kept. After a byte other than the
    /// delimiter reading goes on; the delimiter stops it, with the line that it
    /// ends complete in the buffer. The end of the stream and a read that would
    /// have blocked stop the reading too. Any other failure is handed back.
    pub fn read_blocking(&mut self, read: Option<Result<u8, IoFailure>>) -> (r: Result<
        bool,
        IoFailure,
    >)
        requires
            old(self).wf(),
        ensures
            final(self).wf(),
            final(self).cursor() == old(self).cursor(),
            match read {
                Some(Ok(byte)) => {
                    &&& r == Ok::<bool, IoFailure>(byte != LINE_DELIM)
                    &&& final(self).bytes() == old(self).bytes().push(byte)
                    &&& final(self).pending() == old(self).pending().push(byte)
                },
                Some(Err(e)) => {
                    &&& r == if e.kind == crate::io::IoErrorKind::WouldBlock {
                        Ok::<bool, IoFailure>(false)
                    } else {
                        Err::<bool, IoFailure>(e)
                    }
                    &&& final(self).bytes() == old(self).bytes()
                    &&& final(self).pending() == old(self).pending()
                },
                None => {
                    &&& r == Ok::<bool, IoFailure>(false)
                    &&& final(self).bytes() == old(self).bytes()
                    &&& final(self).pending() == old(self).pending()
                },
            },
    {
        match read {
            Some(Ok(byte)) => {
                self.buffer.push(byte);
                assert(self.buffer@.skip(self.position as int) =~= old(self).buffer@.skip(
                    self.position as int,
                ).push(byte));
                Ok(byte != LINE_DELIM)
            },
            Some(Err(e)) => if e.is_would_block() {
                Ok(false)
            } else {
                Err(e)
            },
            None => Ok(false),
        }
    }

    /// Takes the next complete line, if one is buffered: the bytes up to the
    /// first delimiter, without it. The cursor moves past the delimiter. Without
    /// a complete line nothing changes.
    pub fn consume_line(&mut self) -> (r: Option<&[u8]>)
        requires
            old(self).wf(),
        ensures
            final(self).wf(),
            match r {
                Some(line) => first_line(old(self).pending()) == Some(line@),
                None => first_line(old(self).pending()) is None,
            },
            final(self).pending() == after_line(old(self).pending()),
            final(self).bytes() == old(self).bytes(),
            final(self).cursor() + final(self).pending().len() == old(self).cursor() + old(
                self,
            ).pending().len(),
    {
        let start: usize = self.position;
        let len: usize = self.buffer.len();
        let end: usize = find_byte(self.buffer.as_slice(), start, LINE_DELIM);
        let ghost pending = self.buffer@.skip(start as int);
        proof {
            lemma_run_len(pending, LINE_DELIM);
        }
        if end == len {
            None
        } else {
            self.position = end + 1;
            let line = vstd::slice::slice_subrange(self.buffer.as_slice(), start, end);
            proof {
                assert(line@ =~= pending.take(end - start));
                assert(self.buffer@.skip(end + 1) =~= pending.skip(end - start + 1));
            }
            Some(line)
        }
    }

    /// Drops the consumed bytes and puts the cursor back to the start. The
    /// unconsumed bytes stay as they are.
    pub fn shift(&mut self)
        requires
            old(self).wf(),
        ensures
            final(self).wf(),
            final(self).cursor() == 0,
            final(self).pending() == old(self).pending(),
            final(self).bytes() == old(self).pending(),
    {
        let consumed: usize = self.position;
        self.position = 0;
        let rest = self.buffer.split_off(consumed);
        self.buffer = rest;
        assert(self.buffer@.skip(0) =~= self.buffer@);
        assert(self.buffer@ =~= old(self).buffer@.skip(consumed as int));
    }
}

} // verus!
