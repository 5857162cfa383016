//! The read-side reassembly core shared by every mock stream flavour.
//!
//! A writer submits whole byte chunks; the reader may ask for any number of
//! bytes at a time.  Whatever bytes of the current chunk do not fit into the
//! caller's buffer are kept as a remainder and served before the next chunk.
//! The functions here express that protocol over mathematical sequences and
//! prove that it never loses, duplicates or reorders a byte.

use vstd::prelude::*;

verus! {

/// Number of bytes a single read delivers when `avail` bytes are pending and
/// the caller's buffer has capacity `cap`: everything that fits.
pub open spec fn read_size(avail: Seq<u8>, cap: nat) -> nat {
    if avail.len() <= cap {
        avail.len()
    } else {
        cap
    }
}

/// The bytes such a read delivers: the longest prefix of `avail` that fits.
pub open spec fn read_front(avail: Seq<u8>, cap: nat) -> Seq<u8> {
    avail.take(read_size(avail, cap) as int)
}

/// The bytes such a read leaves behind as the new remainder.
pub open spec fn read_back(avail: Seq<u8>, cap: nat) -> Seq<u8> {
    avail.skip(read_size(avail, cap) as int)
}

/// What one successful read call delivers when `avail` bytes were pending:
/// with a buffer that held `oldbuf` the call reports `n` bytes, leaves the
/// buffer holding `newbuf` and keeps `newrem` as the new remainder.
pub open spec fn delivers(
    avail: Seq<u8>,
    oldbuf: Seq<u8>,
    n: usize,
    newbuf: Seq<u8>,
    newrem: Seq<u8>,
) -> bool {
    &&& n == read_size(avail, oldbuf.len() as nat)
    &&& newbuf == read_front(avail, oldbuf.len() as nat) + oldbuf.skip(n as int)
    &&& newrem == read_back(avail, oldbuf.len() as nat)
}

/// What one successful read call delivers when the pending bytes are not
/// known to the caller: some chunk arrived, and the call treated it exactly
/// as [`delivers`] says.
pub open spec fn delivers_some(oldbuf: Seq<u8>, n: usize, newbuf: Seq<u8>, newrem: Seq<u8>) -> bool {
    exists|chunk: Seq<u8>| delivers(chunk, oldbuf, n, newbuf, newrem)
}

/// One read splits the pending bytes exactly: nothing is lost, duplicated or
/// reordered.
pub proof fn lemma_read_splits_available(avail: Seq<u8>, cap: nat)
    ensures
        read_front(avail, cap) + read_back(avail, cap) == avail,
        read_front(avail, cap).len() == read_size(avail, cap),
        read_back(avail, cap).len() == avail.len() - read_size(avail, cap),
{
    assert(read_front(avail, cap) + read_back(avail, cap) =~= avail);
}

/// Everything a pipe's read side still owes its reader: the remainder,
/// followed by every chunk still queued, oldest first.
pub open spec fn pipe_bytes(rem: Seq<u8>, chunks: Seq<Seq<u8>>) -> Seq<u8> {
    rem + chunks.flatten()
}

/// The bytes one read call draws from: the remainder when non-empty,
/// otherwise the oldest queued chunk, otherwise nothing.
pub open spec fn source_of(rem: Seq<u8>, chunks: Seq<Seq<u8>>) -> Seq<u8> {
    if rem.len() > 0 {
        rem
    } else if chunks.len() > 0 {
        chunks.first()
    } else {
        Seq::empty()
    }
}

/// The chunks still queued once a read call has chosen its source.
pub open spec fn chunks_after(rem: Seq<u8>, chunks: Seq<Seq<u8>>) -> Seq<Seq<u8>> {
    if rem.len() == 0 && chunks.len() > 0 {
        chunks.drop_first()
    } else {
        chunks
    }
}

/// The bytes one read with buffer capacity `cap` returns.
pub open spec fn step_out(rem: Seq<u8>, chunks: Seq<Seq<u8>>, cap: nat) -> Seq<u8> {
    read_front(source_of(rem, chunks), cap)
}

/// The remainder that read leaves behind.
pub open spec fn step_rem(rem: Seq<u8>, chunks: Seq<Seq<u8>>, cap: nat) -> Seq<u8> {
    read_back(source_of(rem, chunks), cap)
}

/// One read conserves bytes and their order: what it returns, followed by
/// everything still owed afterwards, is exactly what was owed before.
pub proof fn lemma_step_conserves(rem: Seq<u8>, chunks: Seq<Seq<u8>>, cap: nat)
    ensures
        step_out(rem, chunks, cap) + pipe_bytes(
            step_rem(rem, chunks, cap),
            chunks_after(rem, chunks),
        ) == pipe_bytes(rem, chunks),
{
    let src = source_of(rem, chunks);
    lemma_read_splits_available(src, cap);
    if rem.len() == 0 && chunks.len() > 0 {
        assert(chunks.flatten() == chunks.first() + chunks.drop_first().flatten());
    }
    assert(step_out(rem, chunks, cap) + pipe_bytes(
        step_rem(rem, chunks, cap),
        chunks_after(rem, chunks),
    ) =~= pipe_bytes(rem, chunks));
}

/// The bytes a whole schedule of reads returns, concatenated in call order;
/// `caps` gives each call's buffer capacity.
pub open spec fn reads_out(rem: Seq<u8>, chunks: Seq<Seq<u8>>, caps: Seq<nat>) -> Seq<u8>
    decreases caps.len(),
{
    if caps.len() == 0 {
        Seq::empty()
    } else {
        step_out(rem, chunks, caps.first()) + reads_out(
            step_rem(rem, chunks, caps.first()),
            chunks_after(rem, chunks),
            caps.drop_first(),
        )
    }
}

/// The remainder left once a whole schedule of reads has run.
pub open spec fn reads_rem(rem: Seq<u8>, chunks: Seq<Seq<u8>>, caps: Seq<nat>) -> Seq<u8>
    decreases caps.len(),
{
    if caps.len() == 0 {
        rem
    } else {
        reads_rem(step_rem(rem, chunks, caps.first()), chunks_after(rem, chunks), caps.drop_first())
    }
}

/// The chunks still queued once a whole schedule of reads has run.
pub open spec fn reads_chunks(rem: Seq<u8>, chunks: Seq<Seq<u8>>, caps: Seq<nat>) -> Seq<Seq<u8>>
    decreases caps.len(),
{
    if caps.len() == 0 {
        chunks
    } else {
        reads_chunks(
            step_rem(rem, chunks, caps.first()),
            chunks_after(rem, chunks),
            caps.drop_first(),
        )
    }
}

/// Order preservation: however reads are chunked, the bytes they return,
/// concatenated in call order and followed by everything still owed, are
/// exactly the bytes written, in write order.  No byte is lost, duplicated
/// or reordered by any schedule of reads.
pub proof fn lemma_reads_preserve_order(rem: Seq<u8>, chunks: Seq<Seq<u8>>, caps: Seq<nat>)
    ensures
        reads_out(rem, chunks, caps) + pipe_bytes(
            reads_rem(rem, chunks, caps),
            reads_chunks(rem, chunks, caps),
        ) == pipe_bytes(rem, chunks),
    decreases caps.len(),
{
    if caps.len() == 0 {
        assert(reads_out(rem, chunks, caps) + pipe_bytes(
            reads_rem(rem, chunks, caps),
            reads_chunks(rem, chunks, caps),
        ) =~= pipe_bytes(rem, chunks));
    } else {
        let cap = caps.first();
        let rem1 = step_rem(rem, chunks, cap);
        let chunks1 = chunks_after(rem, chunks);
        lemma_step_conserves(rem, chunks, cap);
        lemma_reads_preserve_order(rem1, chunks1, caps.drop_first());
        assert(reads_out(rem, chunks, caps) + pipe_bytes(
            reads_rem(rem, chunks, caps),
            reads_chunks(rem, chunks, caps),
        ) =~= pipe_bytes(rem, chunks));
    }
}

/// Total byte accounting: once a schedule of reads has drained the pipe, the
/// bytes returned are exactly the bytes written, and in particular the sum
/// of all read counts equals the sum of all write lengths.
pub proof fn lemma_full_drain(rem: Seq<u8>, chunks: Seq<Seq<u8>>, caps: Seq<nat>)
    requires
        pipe_bytes(reads_rem(rem, chunks, caps), reads_chunks(rem, chunks, caps)).len() == 0,
    ensures
        reads_out(rem, chunks, caps) == pipe_bytes(rem, chunks),
        reads_out(rem, chunks, caps).len() == pipe_bytes(rem, chunks).len(),
{
    lemma_reads_preserve_order(rem, chunks, caps);
    assert(reads_out(rem, chunks, caps) =~= pipe_bytes(rem, chunks));
}

/// The number of bytes a whole schedule of reads reports, summed in call
/// order.
pub open spec fn reads_count(rem: Seq<u8>, chunks: Seq<Seq<u8>>, caps: Seq<nat>) -> nat
    decreases caps.len(),
{
    if caps.len() == 0 {
        0
    } else {
        read_size(source_of(rem, chunks), caps.first()) + reads_count(
            step_rem(rem, chunks, caps.first()),
            chunks_after(rem, chunks),
            caps.drop_first(),
        )
    }
}

/// The sum of the lengths of all written chunks.
pub open spec fn total_written(chunks: Seq<Seq<u8>>) -> nat
    decreases chunks.len(),
{
    if chunks.len() == 0 {
        0
    } else {
        chunks.first().len() + total_written(chunks.drop_first())
    }
}

/// The counts reads report add up to the length of the bytes they return.
pub proof fn lemma_reads_count_is_bytes_returned(
    rem: Seq<u8>,
    chunks: Seq<Seq<u8>>,
    caps: Seq<nat>,
)
    ensures
        reads_count(rem, chunks, caps) == reads_out(rem, chunks, caps).len(),
    decreases caps.len(),
{
    if caps.len() > 0 {
        lemma_reads_count_is_bytes_returned(
            step_rem(rem, chunks, caps.first()),
            chunks_after(rem, chunks),
            caps.drop_first(),
        );
    }
}

/// The concatenation of all written chunks holds exactly as many bytes as
/// were passed to the writes.
pub proof fn lemma_total_written_is_flattened_length(chunks: Seq<Seq<u8>>)
    ensures
        total_written(chunks) == chunks.flatten().len(),
    decreases chunks.len(),
{
    if chunks.len() > 0 {
        lemma_total_written_is_flattened_length(chunks.drop_first());
    }
}

/// Order preservation over whole writes: starting from an empty remainder,
/// a schedule of reads that drains the pipe returns exactly the
/// concatenation of the written chunks, in write order; and the sum of the
/// counts those reads report equals the sum of the write lengths.
pub proof fn lemma_drained_reads_return_writes(chunks: Seq<Seq<u8>>, caps: Seq<nat>)
    requires
        pipe_bytes(
            reads_rem(Seq::empty(), chunks, caps),
            reads_chunks(Seq::empty(), chunks, caps),
        ).len() == 0,
    ensures
        reads_out(Seq::empty(), chunks, caps) == chunks.flatten(),
        reads_count(Seq::empty(), chunks, caps) == total_written(chunks),
{
    lemma_full_drain(Seq::empty(), chunks, caps);
    assert(reads_out(Seq::empty(), chunks, caps) =~= chunks.flatten());
    lemma_reads_count_is_bytes_returned(Seq::empty(), chunks, caps);
    lemma_total_written_is_flattened_length(chunks);
}

/// Exact short-read semantics: when a single write of `w` is read with a
/// buffer of capacity `k < |w|`, the first read returns exactly the first
/// `k` bytes, and a subsequent read with enough capacity returns exactly the
/// remaining `|w| - k` bytes, with nothing lost or duplicated.
pub proof fn lemma_short_read_exact(w: Seq<u8>, k: nat, cap2: nat)
    requires
        k < w.len(),
        w.len() - k <= cap2,
    ensures
        read_front(w, k).len() == k,
        read_front(w, k) == w.take(k as int),
        read_back(w, k).len() == w.len() - k,
        read_front(read_back(w, k), cap2) == read_back(w, k),
        read_front(w, k) + read_front(read_back(w, k), cap2) == w,
        read_back(read_back(w, k), cap2).len() == 0,
{
    lemma_read_splits_available(w, k);
    lemma_read_splits_available(read_back(w, k), cap2);
    assert(read_front(read_back(w, k), cap2) =~= read_back(w, k));
    assert(read_front(w, k) + read_front(read_back(w, k), cap2) =~= w);
}

/// Copies as many bytes as fit from the front of `remaining` into the front
/// of `buf`, keeps the unconsumed suffix in `remaining`, and returns the
/// number of bytes copied.  Bytes of `buf` past that count are untouched.
pub fn drain_into(remaining: &mut Vec<u8>, buf: &mut [u8]) -> (n: usize)
    ensures
        n == read_size(old(remaining)@, old(buf)@.len() as nat),
        final(buf)@ == read_front(old(remaining)@, old(buf)@.len() as nat)
            + old(buf)@.skip(n as int),
        final(remaining)@ == read_back(old(remaining)@, old(buf)@.len() as nat),
{
    let ghost avail: Seq<u8> = remaining@;
    let ghost buf0: Seq<u8> = buf@;
    let cap: usize = buf.len();
    let have: usize = remaining.len();
    let n: usize = if have <= cap { have } else { cap };
    assert(n == read_size(avail, cap as nat));
    let mut i: usize = 0;
    while i < n
        invariant
            i <= n,
            n <= cap,
            n <= remaining@.len(),
            remaining@ == avail,
            buf@.len() == cap,
            buf0.len() == cap,
            buf@ == avail.take(i as int) + buf0.skip(i as int),
        decreases n - i,
    {
        let b: u8 = remaining[i];
        buf[i] = b;
        proof {
            assert(buf@ =~= avail.take(i as int + 1) + buf0.skip(i as int + 1));
        }
        i = i + 1;
    }
    let tail: Vec<u8> = remaining.split_off(n);
    *remaining = tail;
    proof {
        assert(buf@ =~= read_front(avail, cap as nat) + buf0.skip(n as int));
        assert(remaining@ =~= read_back(avail, cap as nat));
    }
    n
}

} // verus!
