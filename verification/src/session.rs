use crate::response::{exchange_of, Exchange, PlanModel};
use crate::transfer::{awaited, next, started, Action, Ending, Event, Stage, TransferModel};
use vstd::prelude::*;

verus! {

/// The file after the outside has performed an action on the chunk it holds:
/// an append adds the slice asked for at the end, nothing else touches the
/// file.
pub open spec fn performed(file: Seq<u8>, action: Action, chunk: Seq<u8>) -> Seq<u8> {
    match action {
        Action::Append { from, len } => file + chunk.subrange(from as int, from + len),
        _ => file,
    }
}

/// One turn of the loop on a chunk that was read: the flag is found down, the
/// chunk arrives, and what is asked to be appended is appended.
pub open spec fn after_chunk(s: TransferModel, file: Seq<u8>, chunk: Seq<u8>) -> (
    TransferModel,
    Seq<u8>,
) {
    let read = next(next(s, Event::Flag(false)), Event::Chunk(chunk.len() as usize));
    let written = if read.stage is AwaitWrite {
        next(read, Event::Written)
    } else {
        read
    };
    (written, performed(file, awaited(read.stage), chunk))
}

/// The transfer and the file after the chunks have gone through the loop one
/// by one.
pub open spec fn after_chunks(s: TransferModel, file: Seq<u8>, chunks: Seq<Seq<u8>>) -> (
    TransferModel,
    Seq<u8>,
)
    decreases chunks.len(),
{
    if chunks.len() == 0 {
        (s, file)
    } else {
        let (t, f) = after_chunks(s, file, chunks.drop_last());
        after_chunk(t, f, chunks.last())
    }
}

/// The chunks laid end to end.
pub open spec fn joined(chunks: Seq<Seq<u8>>) -> Seq<u8>
    decreases chunks.len(),
{
    if chunks.len() == 0 {
        Seq::empty()
    } else {
        joined(chunks.drop_last()) + chunks.last()
    }
}

/// Chunks as reads deliver them: none is empty, since an empty read ends the
/// stream, and each has a length that a read can report.
pub open spec fn readable(chunks: Seq<Seq<u8>>) -> bool {
    forall|i: int| 0 <= i < chunks.len() ==> 0 < (#[trigger] chunks[i]).len() <= usize::MAX
}

/// How many of the first `n` payload bytes are passed over when `skip` are
/// to be.
pub open spec fn passed_over(skip: u64, n: nat) -> nat {
    if n <= skip {
        n
    } else {
        skip as nat
    }
}

/// The body that a server sends for a resource when the range request named
/// `offset`: the bytes from `offset` on where it answers partially, all of
/// them where it answers in full.
pub open spec fn served_body(resource: Seq<u8>, offset: u64, exchange: Exchange) -> Seq<u8> {
    match exchange {
        Exchange::FreshPartial | Exchange::ResumedPartial => resource.skip(offset as int),
        Exchange::FreshFull | Exchange::ResumedFull => resource,
    }
}

/// Laying more chunks end to end never makes the whole shorter.
pub proof fn lemma_joined_prefix(chunks: Seq<Seq<u8>>, k: int)
    requires
        0 <= k <= chunks.len(),
    ensures
        joined(chunks.take(k)).len() <= joined(chunks).len(),
    decreases chunks.len() - k,
{
    if k == chunks.len() {
        assert(chunks.take(k) == chunks);
    } else {
        lemma_joined_prefix(chunks, k + 1);
        assert(chunks.take(k + 1).drop_last() == chunks.take(k));
    }
}

/// What a run of chunks does. From a point between two chunks, with the file
/// as long as the transfer takes it to be, the loop passes over exactly the
/// bytes it was to pass over, appends every byte behind them in order, and
/// stands between two chunks again with the file's length accounted for.
pub proof fn lemma_after_chunks(s: TransferModel, file: Seq<u8>, chunks: Seq<Seq<u8>>)
    requires
        s.wf(),
        s.stage == Stage::AwaitFlag,
        file.len() == s.position(),
        readable(chunks),
        s.position() + joined(chunks).len() - passed_over(s.skip, joined(chunks).len())
            <= u64::MAX,
    ensures
        ({
            let (t, f) = after_chunks(s, file, chunks);
            let body = joined(chunks);
            let passed = passed_over(s.skip, body.len());
            &&& t.wf()
            &&& t.stage == Stage::AwaitFlag
            &&& t.resume_offset == s.resume_offset
            &&& t.total_size == s.total_size
            &&& t.skip == s.skip - passed
            &&& t.appended == s.appended + body.len() - passed
            &&& f == file + body.skip(passed as int)
            &&& f.len() == t.position()
        }),
    decreases chunks.len(),
{
    if chunks.len() > 0 {
        let init = chunks.drop_last();
        let c = chunks.last();
        let head = joined(init);
        let body = joined(chunks);
        assert(body == head + c);
        assert(readable(init)) by {
            assert forall|i: int| 0 <= i < init.len() implies 0 < (#[trigger] init[i]).len()
                <= usize::MAX by {
                assert(init[i] == chunks[i]);
            }
        }
        assert(0 < c.len() <= usize::MAX) by {
            assert(c == chunks[chunks.len() - 1]);
        }
        lemma_after_chunks(s, file, init);
        let (t, f) = after_chunks(s, file, init);
        let n = c.len() as usize;
        let passed_head = passed_over(s.skip, head.len());
        let passed = passed_over(s.skip, body.len());
        assert(f == file + head.skip(passed_head as int));
        let read = next(next(t, Event::Flag(false)), Event::Chunk(n));
        if n <= t.skip {
            assert(passed == body.len());
            assert(body.skip(passed as int) == Seq::<u8>::empty());
            assert(head.skip(passed_head as int) == Seq::<u8>::empty());
        } else {
            assert(read.stage == Stage::AwaitWrite {
                from: t.skip as usize,
                len: (n - t.skip) as usize,
            });
            assert(c.subrange(t.skip as int, t.skip + (n - t.skip)) == c.skip(t.skip as int));
            assert(body.skip(passed as int) == head.skip(passed_head as int) + c.skip(
                t.skip as int,
            ));
        }
    } else {
        assert(joined(chunks).skip(0) == Seq::<u8>::empty());
    }
}

/// Pause safety. Where the body carries on from the end of the file, and the
/// flag is found raised once some chunks have been written, the transfer
/// pauses, nothing more is written, and the file is what it was with exactly
/// those chunks behind it: its length is the resume offset plus the sum of
/// their lengths. No chunk is ever written in part.
pub proof fn law_pause_keeps_whole_chunks(plan: PlanModel, file: Seq<u8>, chunks: Seq<Seq<u8>>)
    requires
        plan.exchange != Exchange::ResumedFull,
        file.len() == plan.resume_offset,
        readable(chunks),
        file.len() + joined(chunks).len() <= u64::MAX,
    ensures
        ({
            let (t, f) = after_chunks(started(plan), file, chunks);
            let paused = next(t, Event::Flag(true));
            &&& paused.stage == Stage::Done(Ending::Paused)
            &&& awaited(paused.stage) == Action::Stop(Ending::Paused)
            &&& forall|chunk: Seq<u8>| performed(f, awaited(paused.stage), chunk) == f
            &&& f == file + joined(chunks)
            &&& f.len() == plan.resume_offset + joined(chunks).len()
            &&& paused.position() == f.len()
        }),
{
    lemma_after_chunks(started(plan), file, chunks);
    assert(joined(chunks).skip(0) == joined(chunks));
}

/// Resume correctness. Let the file hold the first bytes of a resource, and
/// let the server send, in chunks of any sizes, the body that its status
/// stands for. Then at the end of the stream the transfer has completed and
/// the file is the resource, byte for byte: no byte at the seam is written
/// twice or left out.
pub proof fn law_resume_completes_resource(
    resource: Seq<u8>,
    status: u16,
    plan: PlanModel,
    chunks: Seq<Seq<u8>>,
)
    requires
        plan.resume_offset <= resource.len() <= u64::MAX,
        exchange_of(status, plan.resume_offset) == Some(plan.exchange),
        readable(chunks),
        joined(chunks) == served_body(resource, plan.resume_offset, plan.exchange),
    ensures
        ({
            let (t, f) = after_chunks(
                started(plan),
                resource.take(plan.resume_offset as int),
                chunks,
            );
            let end = next(next(t, Event::Flag(false)), Event::Chunk(0));
            &&& f == resource
            &&& end.stage == Stage::Done(Ending::Completed)
            &&& end.position() == resource.len()
        }),
{
    let file = resource.take(plan.resume_offset as int);
    lemma_after_chunks(started(plan), file, chunks);
    let body = joined(chunks);
    let passed = passed_over(started(plan).skip, body.len());
    assert(file + body.skip(passed as int) == resource);
}

/// Idempotent completion. Where the file already holds the whole resource,
/// a transfer appends nothing: after every chunk, and at the end, the file is
/// the resource still.
pub proof fn law_complete_file_is_left_alone(
    resource: Seq<u8>,
    status: u16,
    plan: PlanModel,
    chunks: Seq<Seq<u8>>,
    k: int,
)
    requires
        plan.resume_offset == resource.len(),
        exchange_of(status, plan.resume_offset) == Some(plan.exchange),
        readable(chunks),
        joined(chunks) == served_body(resource, plan.resume_offset, plan.exchange),
        0 <= k <= chunks.len(),
    ensures
        ({
            let (t, f) = after_chunks(started(plan), resource, chunks.take(k));
            &&& f == resource
            &&& t.appended == 0
            &&& t.position() == resource.len()
        }),
{
    let part = chunks.take(k);
    lemma_joined_prefix(chunks, k);
    assert(readable(part)) by {
        assert forall|i: int| 0 <= i < part.len() implies 0 < (#[trigger] part[i]).len()
            <= usize::MAX by {
            assert(part[i] == chunks[i]);
        }
    }
    assert(resource.skip(resource.len() as int).len() == 0);
    lemma_after_chunks(started(plan), resource, part);
    let body = joined(part);
    let passed = passed_over(started(plan).skip, body.len());
    assert(resource + body.skip(passed as int) == resource);
}

} // verus!
