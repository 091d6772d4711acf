//! The line buffer that assembles chunks of received bytes into
//! newline-terminated lines.

use vstd::prelude::*;
use vstd::slice::slice_subrange;
use vstd::string::StringSliceAdditionalSpecFns;
use vstd::utf8::valid_utf8;

verus! {

/// Number of bytes that the line buffer can hold.
pub const LINE_CAPACITY: usize = 128;

/// The byte that ends a line.
pub const NEWLINE: u8 = 10;

/// The held bytes up to the terminator are not text.
#[derive(Copy, Clone, Debug, PartialEq, Eq, Structural)]
pub struct DecodeError;

/// What one non-blocking read of the serial port gave.
#[derive(Copy, Clone, Debug)]
pub enum PortRead<'a> {
    /// Nothing was there to read.
    Quiet,
    /// These bytes arrived.
    Data(&'a [u8]),
    /// The transport reported a fault.
    Failed,
}

/// `core::str::Utf8Error`, the error of `core::str::from_utf8`: a value that is
/// never looked into.
#[verifier::external_type_specification]
#[verifier::external_body]
pub struct ExUtf8Error(core::str::Utf8Error);

/// Calls `core::str::from_utf8`: it succeeds exactly on well-formed UTF-8, and
/// the text it returns is made of the bytes it was given.
#[verifier::external_body]
fn text_of(bytes: &[u8]) -> (res: Result<&str, core::str::Utf8Error>)
    ensures
        res is Ok <==> valid_utf8(bytes@),
        res matches Ok(text) ==> text.spec_bytes() == bytes@,
{
    core::str::from_utf8(bytes)
}

/// Whether `chunk` holds its first newline at `at`.
pub open spec fn first_newline_at(chunk: Seq<u8>, at: int) -> bool {
    &&& 0 <= at < chunk.len()
    &&& chunk[at] == NEWLINE
    &&& forall|k: int| 0 <= k < at ==> chunk[k] != NEWLINE
}

/// The bounds that a buffer keeps: the terminator lies within the held bytes,
/// and these within the capacity.
pub open spec fn in_bounds(held: Seq<u8>, terminator: int) -> bool {
    0 <= terminator <= held.len() <= LINE_CAPACITY
}

/// What pushing `chunk` makes of a buffer that held `held` with the terminator
/// at `terminator`: the bytes and the terminator afterwards, and whether a
/// line is ready.
pub open spec fn pushed(
    held: Seq<u8>,
    terminator: int,
    chunk: Seq<u8>,
    held_after: Seq<u8>,
    terminator_after: int,
    ready: bool,
) -> bool {
    let fits = held.len() + chunk.len() <= LINE_CAPACITY;
    &&& fits ==> held_after == held + chunk
    &&& !fits ==> held_after == Seq::<u8>::empty() && terminator_after == 0
    &&& ready <==> fits && chunk.contains(NEWLINE)
    &&& ready ==> first_newline_at(chunk, terminator_after - held.len() - 1)
    &&& !ready && fits ==> terminator_after == terminator
}

/// A fixed-capacity accumulator of received bytes.
///
/// `held()` is what the buffer holds and `terminator()` the offset just past
/// the newline that completed a line, or 0 while no line is complete. At all
/// times `terminator() <= held().len() <= LINE_CAPACITY`.
pub struct InputLine {
    term: usize,
    length: usize,
    data: [u8; 128],
}

impl InputLine {
    /// The terminator lies within the held bytes, and these within the array.
    #[verifier::type_invariant]
    spec fn inv(&self) -> bool {
        self.term <= self.length <= LINE_CAPACITY
    }

    /// The bytes that the buffer holds, oldest first.
    pub closed spec fn held(&self) -> Seq<u8> {
        self.data@.subrange(0, self.length as int)
    }

    /// The offset just past the newline of the complete line, or 0.
    pub closed spec fn terminator(&self) -> int {
        self.term as int
    }

    /// The bytes of the complete line, newline included.
    pub open spec fn line(&self) -> Seq<u8> {
        self.held().subrange(0, self.terminator())
    }

    /// An empty buffer.
    pub fn new() -> (input: InputLine)
        ensures
            input.held() == Seq::<u8>::empty(),
            input.terminator() == 0,
            in_bounds(input.held(), input.terminator()),
    {
        let input = InputLine { term: 0, length: 0, data: [0u8; 128] };
        assert(input.held() =~= Seq::<u8>::empty());
        input
    }

    /// Number of bytes held.
    pub fn length(&self) -> (n: usize)
        ensures
            n == self.held().len(),
            in_bounds(self.held(), self.terminator()),
    {
        proof {
            use_type_invariant(self);
        }
        self.length
    }

    /// The offset just past the newline of the complete line, or 0.
    pub fn term(&self) -> (n: usize)
        ensures
            n == self.terminator(),
            in_bounds(self.held(), self.terminator()),
    {
        proof {
            use_type_invariant(self);
        }
        self.term
    }

    /// The bytes that the buffer holds, oldest first.
    pub fn as_bytes(&self) -> (bytes: &[u8])
        ensures
            bytes@ == self.held(),
    {
        proof {
            use_type_invariant(self);
        }
        slice_subrange(self.data.as_slice(), 0, self.length)
    }

    /// Appends a chunk of received bytes and says whether it completed a line.
    ///
    /// Only the chunk is searched for a newline. If it holds one, the
    /// terminator moves just past the first newline of the chunk and a line is
    /// ready; otherwise the terminator stays.
    ///
    /// A chunk that does not fit in the free space is rejected: nothing of it is
    /// stored, the bytes held so far are dropped with it, and no line is ready.
    pub fn push_data(&mut self, s: &[u8]) -> (ready: bool)
        ensures
            pushed(
                old(self).held(),
                old(self).terminator(),
                s@,
                final(self).held(),
                final(self).terminator(),
                ready,
            ),
            in_bounds(final(self).held(), final(self).terminator()),
    {
        proof {
            use_type_invariant(&*self);
        }
        let start: usize = self.length;
        if s.len() > LINE_CAPACITY - start {
            self.term = 0;
            self.length = 0;
            assert(self.held() =~= Seq::<u8>::empty());
            return false;
        }
        let mut i: usize = 0;
        while i < s.len()
            invariant
                i <= s.len(),
                start + s.len() <= LINE_CAPACITY,
                self.length == start + i,
                self.term == old(self).term,
                self.term <= start,
                self.data@.subrange(0, start as int) == old(self).held(),
                forall|k: int| 0 <= k < i ==> self.data@[start + k] == s@[k],
            decreases s.len() - i,
        {
            let ghost prior = self.data@;
            self.data[self.length] = s[i];
            assert(self.data@.subrange(0, start as int) =~= prior.subrange(0, start as int));
            self.length = self.length + 1;
            i = i + 1;
        }
        assert(self.held() =~= old(self).held() + s@);
        let mut j: usize = start;
        while j < self.length
            invariant
                start <= j <= self.length,
                self.length == start + s.len(),
                self.length <= LINE_CAPACITY,
                self.term == old(self).term,
                self.term <= start,
                self.held() == old(self).held() + s@,
                forall|k: int| 0 <= k < s.len() ==> self.data@[start + k] == s@[k],
                forall|k: int| 0 <= k < j - start ==> s@[k] != NEWLINE,
            decreases self.length - j,
        {
            if self.data[j] == NEWLINE {
                let ghost held = self.held();
                self.term = j + 1;
                assert(self.held() == held);
                assert(s@[j - start] == NEWLINE);
                return true;
            }
            j = j + 1;
        }
        false
    }

    /// Empties the buffer.
    pub fn clear(&mut self)
        ensures
            final(self).held() == Seq::<u8>::empty(),
            final(self).terminator() == 0,
            in_bounds(final(self).held(), final(self).terminator()),
    {
        proof {
            use_type_invariant(&*self);
        }
        self.term = 0;
        self.length = 0;
        assert(self.held() =~= Seq::<u8>::empty());
    }

    /// Drops the complete line: the bytes after the terminator move to the
    /// front of the buffer, and the terminator goes back to 0.
    pub fn discard(&mut self)
        ensures
            final(self).held() == old(self).held().subrange(
                old(self).terminator(),
                old(self).held().len() as int,
            ),
            final(self).terminator() == 0,
            in_bounds(final(self).held(), final(self).terminator()),
    {
        proof {
            use_type_invariant(&*self);
        }
        let term: usize = self.term;
        let diff: usize = self.length - term;
        let mut i: usize = 0;
        while i < diff
            invariant
                i <= diff,
                term + diff == self.length,
                self.length == old(self).length,
                self.term == old(self).term,
                self.term == term,
                self.length <= LINE_CAPACITY,
                forall|k: int| 0 <= k < i ==> self.data@[k] == old(self).data@[term + k],
                forall|k: int| i <= k < 128 ==> self.data@[k] == old(self).data@[k],
            decreases diff - i,
        {
            let byte: u8 = self.data[term + i];
            self.data[i] = byte;
            i = i + 1;
        }
        self.term = 0;
        self.length = diff;
        assert(self.held() =~= old(self).held().subrange(
            old(self).terminator(),
            old(self).held().len() as int,
        ));
    }

    /// The complete line as text, newline included, if its bytes are
    /// well-formed UTF-8.
    pub fn to_str(&self) -> (res: Result<&str, DecodeError>)
        ensures
            res is Ok <==> valid_utf8(self.line()),
            res matches Ok(text) ==> text.spec_bytes() == self.line(),
    {
        proof {
            use_type_invariant(self);
        }
        let bytes = slice_subrange(self.data.as_slice(), 0, self.term);
        assert(bytes@ =~= self.line());
        match text_of(bytes) {
            Ok(text) => Ok(text),
            Err(_) => Err(DecodeError),
        }
    }

    /// Takes in what one read of the port gave and says whether a line is
    /// ready. Received bytes are pushed; a transport fault empties the buffer;
    /// a quiet port changes nothing.
    pub fn poll_read(&mut self, read: PortRead<'_>) -> (ready: bool)
        ensures
            read is Quiet ==> {
                &&& !ready
                &&& final(self).held() == old(self).held()
                &&& final(self).terminator() == old(self).terminator()
            },
            read is Failed ==> {
                &&& !ready
                &&& final(self).held() == Seq::<u8>::empty()
                &&& final(self).terminator() == 0
            },
            read matches PortRead::Data(s) ==> pushed(
                old(self).held(),
                old(self).terminator(),
                s@,
                final(self).held(),
                final(self).terminator(),
                ready,
            ),
            in_bounds(final(self).held(), final(self).terminator()),
    {
        proof {
            use_type_invariant(&*self);
        }
        match read {
            PortRead::Quiet => false,
            PortRead::Data(s) => {
                if s.len() > 0 {
                    self.push_data(s)
                } else {
                    proof {
                        use_type_invariant(&*self);
                        assert(old(self).held() + s@ =~= old(self).held());
                    }
                    false
                }
            },
            PortRead::Failed => {
                self.clear();
                false
            },
        }
    }
}

} // verus!
