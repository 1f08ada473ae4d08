//! The body of a request as a stream that was read ahead.

use vstd::prelude::*;

verus! {

/// The failure of a read from a body stream, with the reader's message.
#[derive(Debug)]
pub struct StreamError {
    pub message: String,
}

/// Why a drain of a body stopped short.
#[derive(Debug)]
pub enum DrainError {
    /// A read from the stream failed.
    Stream(StreamError),
    /// The body holds more bytes than its limit allows.
    TooLarge,
}

/// The reason of a drain error, with the stream's message where the
/// stream failed.
pub enum DrainFault {
    Stream(Seq<char>),
    TooLarge,
}

impl View for DrainError {
    type V = DrainFault;

    open spec fn view(&self) -> DrainFault {
        match self {
            DrainError::Stream(e) => DrainFault::Stream(e.message@),
            DrainError::TooLarge => DrainFault::TooLarge,
        }
    }
}

/// One item of a body stream by its view: the bytes of a chunk, or the
/// message of a failed read.
pub type ChunkView = Result<Seq<u8>, Seq<char>>;

/// What a body is to a contract: the items that were not read yet, in
/// order, how often the body was drained, and the largest number of bytes
/// that one drain may gather, where there is a limit.
pub struct BodyView {
    pub pending: Seq<ChunkView>,
    pub drains: nat,
    pub limit: Option<usize>,
}

/// The body of a request as a stream that was read ahead: chunks of bytes
/// and failed reads, in the order in which the stream gave them.
pub struct Body {
    chunks: Vec<Result<Vec<u8>, StreamError>>,
    drains: u64,
    limit: Option<usize>,
}

/// The items of a chunk list by their views.
pub open spec fn chunk_views(chunks: Seq<Result<Vec<u8>, StreamError>>) -> Seq<ChunkView> {
    Seq::new(
        chunks.len(),
        |i: int|
            match chunks[i] {
                Ok(bytes) => Ok(bytes@),
                Err(e) => Err(e.message@),
            },
    )
}

impl View for Body {
    type V = BodyView;

    closed spec fn view(&self) -> BodyView {
        BodyView {
            pending: chunk_views(self.chunks@),
            drains: self.drains as nat,
            limit: self.limit,
        }
    }
}

/// The bytes of the chunks of `pending`, one after the other.
pub open spec fn gathered(pending: Seq<ChunkView>) -> Seq<u8>
    decreases pending.len(),
{
    if pending.len() == 0 {
        Seq::empty()
    } else {
        gathered(pending.drop_last()) + match pending.last() {
            Ok(bytes) => bytes,
            Err(_) => Seq::empty(),
        }
    }
}

/// Whether `len` bytes are more than `limit` allows.
pub open spec fn exceeds(len: nat, limit: Option<usize>) -> bool {
    limit matches Some(max) && len > max
}

/// The position of the item at which a drain of `pending` stops short:
/// the first item that is a failed read, or a chunk that takes the bytes
/// gathered up to it over the limit. Where the drain reaches the end, the
/// length of `pending`.
pub open spec fn first_stop(pending: Seq<ChunkView>, limit: Option<usize>) -> int
    decreases pending.len(),
{
    if pending.len() == 0 {
        0
    } else if first_stop(pending.drop_last(), limit) < pending.len() - 1 {
        first_stop(pending.drop_last(), limit)
    } else if pending.last() is Err || exceeds(gathered(pending).len(), limit) {
        pending.len() - 1
    } else {
        pending.len() as int
    }
}

/// The stop of a drain lies within the items, or at their end where the
/// drain reaches it. No item before it is a failed read, and the bytes
/// gathered before it are within the limit.
pub proof fn lemma_first_stop(pending: Seq<ChunkView>, limit: Option<usize>)
    ensures
        0 <= first_stop(pending, limit) <= pending.len(),
        forall|k: int| 0 <= k < first_stop(pending, limit) ==> (#[trigger] pending[k]) is Ok,
        !exceeds(gathered(pending.take(first_stop(pending, limit))).len(), limit),
        first_stop(pending, limit) < pending.len() ==> pending[first_stop(pending, limit)] is Err
            || exceeds(gathered(pending.take(first_stop(pending, limit) + 1)).len(), limit),
    decreases pending.len(),
{
    let stop = first_stop(pending, limit);
    if pending.len() == 0 {
        assert(pending.take(0) =~= pending);
    } else {
        let shorter = pending.drop_last();
        lemma_first_stop(shorter, limit);
        assert forall|k: int| 0 <= k < stop implies (#[trigger] pending[k]) is Ok by {
            if k < pending.len() - 1 {
                assert(shorter[k] == pending[k]);
            }
        }
        if first_stop(shorter, limit) < pending.len() - 1 {
            assert(shorter.take(stop) =~= pending.take(stop));
            assert(shorter.take(stop + 1) =~= pending.take(stop + 1));
            assert(shorter[stop] == pending[stop]);
        } else if stop == pending.len() - 1 {
            assert(shorter.take(stop) =~= pending.take(stop));
            assert(pending.take(stop + 1) =~= pending);
        } else {
            assert(pending.take(stop) =~= pending);
        }
    }
}

/// What a drain of `pending` under `limit` returns: all the bytes, or why
/// it stopped short.
pub open spec fn drain_result(pending: Seq<ChunkView>, limit: Option<usize>) -> Result<
    Seq<u8>,
    DrainFault,
> {
    let stop = first_stop(pending, limit);
    if stop < pending.len() {
        match pending[stop] {
            Err(message) => Err(DrainFault::Stream(message)),
            Ok(_) => Err(DrainFault::TooLarge),
        }
    } else {
        Ok(gathered(pending))
    }
}

/// What a drain leaves unread: the items behind the one at which it
/// stopped short.
pub open spec fn drain_rest(pending: Seq<ChunkView>, limit: Option<usize>) -> Seq<ChunkView> {
    if first_stop(pending, limit) < pending.len() {
        pending.skip(first_stop(pending, limit) + 1)
    } else {
        Seq::empty()
    }
}

/// The drain count after one more drain. It stops at the largest number
/// that 64 bits hold.
pub open spec fn one_more(drains: nat) -> nat {
    if drains < u64::MAX {
        drains + 1
    } else {
        drains
    }
}

/// A body after one drain.
pub open spec fn drained(body: BodyView) -> BodyView {
    BodyView {
        pending: drain_rest(body.pending, body.limit),
        drains: one_more(body.drains),
        limit: body.limit,
    }
}

/// The result of a drain by its view.
pub open spec fn drain_view(out: Result<Vec<u8>, DrainError>) -> Result<Seq<u8>, DrainFault> {
    match out {
        Ok(bytes) => Ok(bytes@),
        Err(e) => Err(e@),
    }
}

impl Body {
    /// A body that gives `chunks` in order, without limit.
    pub fn new(chunks: Vec<Result<Vec<u8>, StreamError>>) -> (body: Body)
        ensures
            body@ == (BodyView { pending: chunk_views(chunks@), drains: 0, limit: None }),
    {
        Body { chunks, drains: 0, limit: None }
    }

    /// A body without content.
    pub fn empty() -> (body: Body)
        ensures
            body@ == (BodyView { pending: Seq::empty(), drains: 0, limit: None }),
    {
        let body = Body { chunks: Vec::new(), drains: 0, limit: None };
        proof {
            assert(body@.pending =~= Seq::<ChunkView>::empty());
        }
        body
    }

    /// A body that gives `bytes` as its one chunk.
    pub fn from_bytes(bytes: Vec<u8>) -> (body: Body)
        ensures
            body@ == (BodyView {
                pending: seq![Ok::<Seq<u8>, Seq<char>>(bytes@)],
                drains: 0,
                limit: None,
            }),
    {
        let mut chunks: Vec<Result<Vec<u8>, StreamError>> = Vec::new();
        chunks.push(Ok(bytes));
        let body = Body { chunks, drains: 0, limit: None };
        proof {
            assert(body@.pending =~= seq![Ok::<Seq<u8>, Seq<char>>(bytes@)]);
        }
        body
    }

    /// Sets the largest number of bytes that one drain may gather, or
    /// lifts the limit.
    pub fn set_limit(&mut self, limit: Option<usize>)
        ensures
            final(self)@ == (BodyView { limit, ..old(self)@ }),
    {
        self.limit = limit;
    }

    /// The largest number of bytes that one drain may gather, where there
    /// is a limit.
    pub fn limit(&self) -> (limit: Option<usize>)
        ensures
            limit == self@.limit,
    {
        self.limit
    }

    /// How often the body was drained.
    pub fn drain_count(&self) -> (n: u64)
        ensures
            n == self@.drains,
    {
        self.drains
    }

    /// Reads the stream up to its end and returns the bytes of its chunks.
    /// It stops short at the first failed read, and at the first chunk
    /// that takes the bytes over the limit; it then returns the reason,
    /// and the items behind that one stay unread.
    pub fn drain(&mut self) -> (out: Result<Vec<u8>, DrainError>)
        ensures
            final(self)@ == drained(old(self)@),
            drain_view(out) == drain_result(old(self)@.pending, old(self)@.limit),
    {
        if self.drains < u64::MAX {
            self.drains = self.drains + 1;
        }
        let limit = self.limit;
        let ghost before = chunk_views(old(self).chunks@);
        let mut taken: Vec<Result<Vec<u8>, StreamError>> = Vec::new();
        std::mem::swap(&mut self.chunks, &mut taken);
        let ghost total = taken@;
        let mut bytes: Vec<u8> = Vec::new();
        let mut failed: Option<DrainError> = None;
        for chunk in it: taken
            invariant
                it.seq() == total,
                before == chunk_views(total),
                limit == old(self).limit,
                self.limit == limit,
                self.drains == one_more(old(self).drains as nat),
                failed is None ==> first_stop(before.take(it.index() as int), limit) == it.index()
                    && bytes@ == gathered(before.take(it.index() as int)) && !exceeds(
                    bytes@.len(),
                    limit,
                ) && self.chunks@.len() == 0,
                failed is Some ==> first_stop(before.take(it.index() as int), limit) < it.index()
                    && drain_result(before.take(it.index() as int), limit) == Err::<
                    Seq<u8>,
                    DrainFault,
                >(failed->0@) && chunk_views(self.chunks@) == before.subrange(
                    first_stop(before.take(it.index() as int), limit) + 1,
                    it.index() as int,
                ),
        {
            let ghost i = it.index() as int;
            proof {
                assert(before.take(i + 1).drop_last() == before.take(i));
                assert(before.take(i + 1).last() == before[i]);
                lemma_first_stop(before.take(i), limit);
                lemma_first_stop(before.take(i + 1), limit);
            }
            if failed.is_some() {
                let ghost kept = self.chunks@;
                self.chunks.push(chunk);
                proof {
                    let k = first_stop(before.take(i), limit);
                    assert(chunk_views(self.chunks@) == chunk_views(kept).push(before[i]));
                    assert(before.subrange(k + 1, i + 1) == before.subrange(k + 1, i).push(
                        before[i],
                    ));
                    assert(before.take(i)[k] == before.take(i + 1)[k]);
                }
            } else {
                match chunk {
                    Ok(mut more) => {
                        let over = match limit {
                            Some(max) => more.len() > max - bytes.len(),
                            None => false,
                        };
                        if over {
                            failed = Some(DrainError::TooLarge);
                            proof {
                                assert(chunk_views(self.chunks@) == before.subrange(i + 1, i + 1));
                            }
                        } else {
                            bytes.append(&mut more);
                        }
                    },
                    Err(e) => {
                        failed = Some(DrainError::Stream(e));
                        proof {
                            assert(chunk_views(self.chunks@) == before.subrange(i + 1, i + 1));
                        }
                    },
                }
            }
        }
        proof {
            assert(before.take(total.len() as int) == before);
        }
        match failed {
            Some(e) => {
                proof {
                    assert(before.subrange(first_stop(before, limit) + 1, total.len() as int)
                        == before.skip(first_stop(before, limit) + 1));
                }
                Err(e)
            },
            None => {
                proof {
                    assert(chunk_views(self.chunks@) == Seq::<ChunkView>::empty());
                }
                Ok(bytes)
            },
        }
    }
}

} // verus!
