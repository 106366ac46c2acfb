//! Frames on the worker's pipes: one record per line.
//!
//! What the worker reads and writes is a sequence of lines, each ended by a
//! line feed. The bytes come from the pipe in pieces of any size; a
//! [`LineReader`] collects them and hands out each line as soon as it is
//! whole.
use vstd::prelude::*;
use vstd::string::StrSliceExecFns;
use vstd::string::StringSliceAdditionalSpecFns;

verus! {

/// The byte that ends a line.
pub const LINE_END: u8 = 10;

/// `bytes` hold a line end.
pub open spec fn has_line_end(bytes: Seq<u8>) -> bool {
    exists|i: int| 0 <= i < bytes.len() && bytes[i] == LINE_END
}

/// The first line end of `bytes` stands at `at`.
pub open spec fn first_line_end(bytes: Seq<u8>, at: int) -> bool {
    &&& 0 <= at < bytes.len()
    &&& bytes[at] == LINE_END
    &&& forall|i: int| 0 <= i < at ==> bytes[i] != LINE_END
}

/// The frame of a line: its bytes and the line end.
pub open spec fn framed(line: Seq<u8>) -> Seq<u8> {
    line.push(LINE_END)
}

/// The frame of `line`, for the worker's input.
pub fn frame(line: &str) -> (bytes: Vec<u8>)
    ensures
        bytes@ == framed(line.spec_bytes()),
{
    let mut bytes = line.as_bytes_vec();
    bytes.push(LINE_END);
    bytes
}

/// The bytes that were read from a pipe and belong to no line that was handed
/// out.
#[derive(Debug)]
pub struct LineReader {
    pending: Vec<u8>,
}

impl View for LineReader {
    type V = Seq<u8>;

    closed spec fn view(&self) -> Seq<u8> {
        self.pending@
    }
}

impl LineReader {
    /// A reader that has read nothing.
    pub fn new() -> (reader: LineReader)
        ensures
            reader@ == Seq::<u8>::empty(),
    {
        LineReader { pending: Vec::new() }
    }

    /// Takes in what the pipe gave.
    pub fn feed(&mut self, bytes: &[u8])
        ensures
            final(self)@ == old(self)@ + bytes@,
    {
        let ghost before = self.pending@;
        let mut i: usize = 0;
        while i < bytes.len()
            invariant
                i <= bytes.len(),
                self.pending@ == before + bytes@.take(i as int),
            decreases bytes.len() - i,
        {
            self.pending.push(bytes[i]);
            i += 1;
            assert(self.pending@ =~= before + bytes@.take(i as int));
        }
        assert(bytes@.take(i as int) =~= bytes@);
    }

    /// Hands out the first line, without its end, where one is whole. What
    /// follows the line stays for the next call. Where no line is whole,
    /// nothing changes.
    pub fn next_line(&mut self) -> (next: Option<Vec<u8>>)
        ensures
            match next {
                Some(line) => {
                    &&& first_line_end(old(self)@, line@.len() as int)
                    &&& line@ == old(self)@.take(line@.len() as int)
                    &&& final(self)@ == old(self)@.skip(line@.len() as int + 1)
                },
                None => !has_line_end(old(self)@) && final(self)@ == old(self)@,
            },
    {
        let ghost before = self.pending@;
        let mut at: usize = 0;
        while at < self.pending.len() && self.pending[at] != LINE_END
            invariant
                at <= self.pending.len(),
                self.pending@ == before,
                forall|i: int| 0 <= i < at ==> before[i] != LINE_END,
            decreases self.pending.len() - at,
        {
            at += 1;
        }
        if at == self.pending.len() {
            return None;
        }
        let mut line = self.pending.split_off(at + 1);
        self.pending.pop();
        core::mem::swap(&mut self.pending, &mut line);
        assert(line@ =~= before.take(at as int));
        assert(self.pending@ =~= before.skip(at + 1));
        Some(line)
    }

    /// Hands out what is left when the pipe has ended: a last line that was
    /// never ended, if there are any bytes at all. Nothing stays.
    pub fn take_rest(&mut self) -> (rest: Option<Vec<u8>>)
        ensures
            final(self)@ == Seq::<u8>::empty(),
            match rest {
                Some(line) => line@ == old(self)@ && line@.len() > 0,
                None => old(self)@.len() == 0,
            },
    {
        let mut rest: Vec<u8> = Vec::new();
        core::mem::swap(&mut self.pending, &mut rest);
        if rest.len() == 0 {
            None
        } else {
            Some(rest)
        }
    }
}

/// A reader that was fed the frame of a line, and nothing else, hands that
/// line out and keeps nothing, provided that the line holds no line end of
/// its own.
pub proof fn lemma_frame_is_one_line(line: Seq<u8>)
    requires
        !has_line_end(line),
    ensures
        first_line_end(framed(line), line.len() as int),
        framed(line).take(line.len() as int) == line,
        framed(line).skip(line.len() as int + 1) == Seq::<u8>::empty(),
{
    let bytes = framed(line);
    assert forall|i: int| 0 <= i < line.len() implies bytes[i] != LINE_END by {
        assert(bytes[i] == line[i]);
    }
    assert(bytes.take(line.len() as int) =~= line);
    assert(bytes.skip(line.len() as int + 1) =~= Seq::<u8>::empty());
}

} // verus!
