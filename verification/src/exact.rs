//! The exact-count read: collect the results of successive reads until exactly the
//! requested number of bytes is there.
//!
//! A driver asks [`ExactRead::missing`] or [`ExactRead::room`] how many bytes are
//! still to come, performs one read of at most that many bytes, and hands what came
//! back to [`ExactRead::absorb`]. A read that brings nothing before the count is
//! reached means that the peer closed the stream, which is told apart from every
//! other failure.

use vstd::prelude::*;
use vstd::slice::slice_subrange;

verus! {

/// Why an exact-count read did not deliver its bytes.
#[derive(Clone, Copy, Debug, PartialEq, Eq, Structural)]
pub enum ReadError {
    /// The stream ended before the requested count was reached.
    UnexpectedEof,
    /// The stream reported any other failure.
    Io,
}

/// The bytes collected so far towards a requested count.
pub struct ExactRead {
    wanted: u64,
    bytes: Vec<u8>,
}

/// What one read brought, with the bytes as a sequence.
pub open spec fn read_view(read: Result<&[u8], ReadError>) -> Result<Seq<u8>, ReadError> {
    match read {
        Ok(chunk) => Ok(chunk@),
        Err(e) => Err(e),
    }
}

/// The part of `chunk` that still fits when `collected` of `wanted` bytes are there.
pub open spec fn accepted(wanted: nat, collected: Seq<u8>, chunk: Seq<u8>) -> Seq<u8> {
    if collected.len() + chunk.len() <= wanted {
        chunk
    } else {
        chunk.take(wanted - collected.len())
    }
}

/// The bytes collected after one more read, or the failure that ends the read.
///
/// Once the count is reached nothing more is taken. Before that, a failed read ends
/// the whole read with the same failure, an empty read ends it with
/// [`ReadError::UnexpectedEof`], and any other read adds its bytes, as far as they fit.
pub open spec fn absorbed(wanted: nat, collected: Seq<u8>, read: Result<Seq<u8>, ReadError>)
    -> Result<Seq<u8>, ReadError> {
    if collected.len() >= wanted {
        Ok(collected)
    } else {
        match read {
            Err(e) => Err(e),
            Ok(chunk) => if chunk.len() == 0 {
                Err(ReadError::UnexpectedEof)
            } else {
                Ok(collected + accepted(wanted, collected, chunk))
            },
        }
    }
}

impl ExactRead {
    #[verifier::type_invariant]
    spec fn within_count(self) -> bool {
        self.bytes@.len() <= self.wanted
    }

    /// The requested count.
    pub closed spec fn wanted(&self) -> nat {
        self.wanted as nat
    }

    /// The bytes collected so far, in the order in which they arrived.
    pub closed spec fn collected(&self) -> Seq<u8> {
        self.bytes@
    }

    /// Starts a read of exactly `wanted` bytes.
    pub fn new(wanted: u64) -> (read: Self)
        ensures
            read.wanted() == wanted,
            read.collected() == Seq::<u8>::empty(),
    {
        ExactRead { wanted, bytes: Vec::new() }
    }

    /// The number of bytes that are still to come.
    pub fn missing(&self) -> (n: u64)
        ensures
            n == self.wanted() - self.collected().len(),
    {
        proof {
            use_type_invariant(self);
        }
        self.wanted - self.bytes.len() as u64
    }

    /// The number of bytes to ask of the stream in one read, for a driver whose buffer
    /// holds at most `most` bytes: what is missing, as far as the buffer has room.
    pub fn room(&self, most: usize) -> (n: usize)
        ensures
            n == if self.wanted() - self.collected().len() <= most {
                self.wanted() - self.collected().len()
            } else {
                most as int
            },
    {
        proof {
            use_type_invariant(self);
        }
        let missing = self.wanted - self.bytes.len() as u64;
        if missing <= most as u64 {
            missing as usize
        } else {
            most
        }
    }

    /// Whether the requested count is reached. A read of zero bytes is complete from
    /// the start.
    pub fn is_complete(&self) -> (done: bool)
        ensures
            done == (self.collected().len() == self.wanted()),
            self.collected().len() <= self.wanted(),
    {
        proof {
            use_type_invariant(self);
        }
        self.bytes.len() as u64 == self.wanted
    }

    /// Takes in the result of one read and returns how many of its bytes were taken.
    pub fn absorb(&mut self, read: Result<&[u8], ReadError>) -> (taken: Result<usize, ReadError>)
        ensures
            final(self).wanted() == old(self).wanted(),
            match absorbed(old(self).wanted(), old(self).collected(), read_view(read)) {
                Ok(collected) => {
                    &&& final(self).collected() == collected
                    &&& taken matches Ok(count)
                    &&& count == collected.len() - old(self).collected().len()
                },
                Err(failure) => {
                    &&& final(self).collected() == old(self).collected()
                    &&& taken matches Err(e)
                    &&& e == failure
                },
            },
    {
        proof {
            use_type_invariant(&*self);
        }
        let missing = self.wanted - self.bytes.len() as u64;
        if missing == 0 {
            return Ok(0);
        }
        match read {
            Err(e) => Err(e),
            Ok(chunk) => {
                if chunk.len() == 0 {
                    Err(ReadError::UnexpectedEof)
                } else {
                    let count: usize = if chunk.len() as u64 <= missing {
                        chunk.len()
                    } else {
                        missing as usize
                    };
                    let mut bytes: Vec<u8> = Vec::new();
                    core::mem::swap(&mut self.bytes, &mut bytes);
                    let ghost before = bytes@;
                    bytes.extend_from_slice(slice_subrange(chunk, 0, count));
                    self.bytes = bytes;
                    Ok(count)
                }
            },
        }
    }

    /// Ends the read and hands out the bytes collected.
    pub fn into_bytes(self) -> (bytes: Vec<u8>)
        ensures
            bytes@ == self.collected(),
    {
        self.bytes
    }
}

/// A stream as its reader meets it: what it answers to one read after the other,
/// bytes or a failure. Behind the last answer the stream is at its end.
pub type Answers = Seq<Result<Seq<u8>, ReadError>>;

/// One read of at most `max` bytes from a stream: what the read brings, and what the
/// stream has left. Bytes that the read does not take stay in the stream. A read at
/// the end of the stream brings nothing.
pub open spec fn read_once(answers: Answers, max: nat) -> (Result<Seq<u8>, ReadError>, Answers) {
    if answers.len() == 0 {
        (Ok(Seq::empty()), answers)
    } else {
        match answers.first() {
            Err(e) => (Err(e), answers.drop_first()),
            Ok(chunk) => if chunk.len() <= max {
                (Ok(chunk), answers.drop_first())
            } else {
                (
                    Ok(chunk.take(max as int)),
                    seq![Ok(chunk.skip(max as int))] + answers.drop_first(),
                )
            },
        }
    }
}

/// The exact-count read as a driver performs it on a stream: while bytes are missing,
/// one read of at most the missing count, taken in by [`absorbed`]. Gives the bytes or
/// the failure, and what the stream has left.
pub open spec fn read_from(answers: Answers, wanted: nat, collected: Seq<u8>) -> (
    Result<Seq<u8>, ReadError>,
    Answers,
)
    decreases wanted - collected.len(),
{
    if collected.len() >= wanted {
        (Ok(collected), answers)
    } else {
        let (read, left) = read_once(answers, (wanted - collected.len()) as nat);
        match absorbed(wanted, collected, read) {
            Err(e) => (Err(e), left),
            Ok(longer) => read_from(left, wanted, longer),
        }
    }
}

/// The stream only hands out bytes: none of its reads fails, and each read before its
/// end brings at least one byte.
pub open spec fn plain(answers: Answers) -> bool {
    forall|i: int|
        0 <= i < answers.len() ==> (#[trigger] answers[i]) is Ok && answers[i]->Ok_0.len() > 0
}

/// The bytes that the stream holds, whatever the chunks are in which it hands them
/// out.
pub open spec fn content(answers: Answers) -> Seq<u8>
    decreases answers.len(),
{
    if answers.len() == 0 {
        Seq::empty()
    } else {
        let chunk = match answers.first() {
            Ok(chunk) => chunk,
            Err(_) => Seq::empty(),
        };
        chunk + content(answers.drop_first())
    }
}

/// What an exact-count read gives on a stream that holds `stream` and then ends.
pub open spec fn read_exact(stream: Seq<u8>, wanted: nat) -> Result<Seq<u8>, ReadError> {
    if stream.len() >= wanted {
        Ok(stream.take(wanted as int))
    } else {
        Err(ReadError::UnexpectedEof)
    }
}

proof fn lemma_read_from_plain(answers: Answers, wanted: nat, collected: Seq<u8>)
    requires
        plain(answers),
        collected.len() <= wanted,
    ensures
        read_from(answers, wanted, collected).0 == if collected.len() + content(answers).len()
            >= wanted {
            Ok::<Seq<u8>, ReadError>((collected + content(answers)).take(wanted as int))
        } else {
            Err::<Seq<u8>, ReadError>(ReadError::UnexpectedEof)
        },
        plain(read_from(answers, wanted, collected).1),
        read_from(answers, wanted, collected).0 is Ok ==> content(
            read_from(answers, wanted, collected).1,
        ) == content(answers).skip(wanted - collected.len()),
    decreases wanted - collected.len(),
{
    let missing = (wanted - collected.len()) as nat;
    let whole = collected + content(answers);
    if missing == 0 {
        assert(whole.take(wanted as int) =~= collected);
    } else if answers.len() > 0 {
        let chunk = answers.first()->Ok_0;
        let rest = answers.drop_first();
        if chunk.len() <= missing {
            // the whole chunk is taken, and the read goes on behind it
            let longer = collected + chunk;
            lemma_read_from_plain(rest, wanted, longer);
            assert(longer + content(rest) =~= whole);
        } else {
            // the chunk is cut: its start completes the read, its end stays in the stream
            let longer = collected + chunk.take(missing as int);
            let left = seq![Ok::<Seq<u8>, ReadError>(chunk.skip(missing as int))] + rest;
            assert(read_from(left, wanted, longer) == (Ok::<Seq<u8>, ReadError>(longer), left));
            assert(left.drop_first() =~= rest);
            assert(longer =~= whole.take(wanted as int));
        }
    }
}

/// Over a stream that only hands out bytes, in chunks of any sizes, an exact-count
/// read gives the first `wanted` bytes of the stream where it holds that many, and
/// fails with [`ReadError::UnexpectedEof`] where it holds fewer. It leaves the bytes
/// behind those it gave in the stream.
pub proof fn lemma_read_from_plain_stream(answers: Answers, wanted: nat)
    requires
        plain(answers),
    ensures
        read_from(answers, wanted, Seq::empty()).0 == read_exact(content(answers), wanted),
        plain(read_from(answers, wanted, Seq::empty()).1),
        content(answers).len() >= wanted ==> content(read_from(answers, wanted, Seq::empty()).1)
            == content(answers).skip(wanted as int),
{
    lemma_read_from_plain(answers, wanted, Seq::empty());
}

/// Chunk independence: two streams that hold the same bytes, cut into chunks in two
/// different ways, give the same result and leave the same bytes behind. In
/// particular a stream that trickles its bytes one at a time gives what a stream
/// gives that hands them out at once.
pub proof fn lemma_chunking_is_irrelevant(wanted: nat, one: Answers, other: Answers)
    requires
        plain(one),
        plain(other),
        content(one) == content(other),
    ensures
        read_from(one, wanted, Seq::empty()).0 == read_from(other, wanted, Seq::empty()).0,
        read_from(one, wanted, Seq::empty()).0 is Ok ==> content(
            read_from(one, wanted, Seq::empty()).1,
        ) == content(read_from(other, wanted, Seq::empty()).1),
{
    lemma_read_from_plain_stream(one, wanted);
    lemma_read_from_plain_stream(other, wanted);
}

/// A stream that holds at least `wanted` bytes gives exactly its first `wanted` bytes,
/// however it cuts them into chunks.
pub proof fn lemma_enough_bytes_complete(answers: Answers, wanted: nat)
    requires
        plain(answers),
        content(answers).len() >= wanted,
    ensures
        read_from(answers, wanted, Seq::empty()).0 == Ok::<Seq<u8>, ReadError>(
            content(answers).take(wanted as int),
        ),
{
    lemma_read_from_plain_stream(answers, wanted);
}

/// End of stream is told apart: a stream that ends after fewer than `wanted` bytes
/// fails the read with [`ReadError::UnexpectedEof`], never with [`ReadError::Io`].
pub proof fn lemma_early_close_is_eof(answers: Answers, wanted: nat)
    requires
        plain(answers),
        content(answers).len() < wanted,
    ensures
        read_from(answers, wanted, Seq::empty()).0 == Err::<Seq<u8>, ReadError>(
            ReadError::UnexpectedEof,
        ),
{
    lemma_read_from_plain_stream(answers, wanted);
}

/// A read that fails while bytes are missing fails the exact-count read at once and
/// with the same failure; the bytes collected until then are given up.
pub proof fn lemma_failed_read_is_passed_on(
    failure: ReadError,
    later: Answers,
    wanted: nat,
    collected: Seq<u8>,
)
    requires
        collected.len() < wanted,
    ensures
        read_from(seq![Err(failure)] + later, wanted, collected) == (
            Err::<Seq<u8>, ReadError>(failure),
            later,
        ),
{
}

/// A read of zero bytes succeeds without a single read of the stream.
pub proof fn lemma_nothing_wanted(answers: Answers)
    ensures
        read_from(answers, 0, Seq::empty()) == (Ok::<Seq<u8>, ReadError>(Seq::empty()), answers),
{
}

} // verus!
