use vstd::prelude::*;
use crate::backend::StreamModel;
use crate::context::{deterministic_model, ContextModel};
use crate::error::WriteError;
use crate::sink::spec_sink_write;
use crate::source::spec_source_read;

verus! {

/// Law: a stdin loaded from `content` hands back exactly `content` when
/// read to its length, leaving the cursor at the end; and once exhausted,
/// every further read of any size hands back nothing and moves nothing:
/// end of stream is idempotent.
pub proof fn lemma_stdin_roundtrip(content: Seq<u8>, extra: nat)
    ensures
        spec_source_read(content, 0, content.len()).0 == content,
        spec_source_read(content, 0, content.len()).1 == content.len(),
        spec_source_read(content, content.len(), extra).0 == Seq::<u8>::empty(),
        spec_source_read(content, content.len(), extra).1 == content.len(),
{
    assert(content.subrange(0, content.len() as int) =~= content);
    assert(content.subrange(content.len() as int, content.len() as int) =~= Seq::<u8>::empty());
}

/// Law: sequential reads compose: reading at most `m1` bytes and then at
/// most `m2` hands back, end to end, exactly what one read of at most
/// `m1 + m2` would, and leaves the cursor in the same place.
pub proof fn lemma_source_read_chunks(data: Seq<u8>, cursor: nat, m1: nat, m2: nat)
    requires
        cursor <= data.len(),
    ensures
        ({
            let (b1, c1) = spec_source_read(data, cursor, m1);
            let (b2, c2) = spec_source_read(data, c1, m2);
            &&& b1 + b2 == spec_source_read(data, cursor, m1 + m2).0
            &&& c2 == spec_source_read(data, cursor, m1 + m2).1
        }),
{
    let (b1, c1) = spec_source_read(data, cursor, m1);
    let (b2, c2) = spec_source_read(data, c1, m2);
    assert(b1 + b2 =~= data.subrange(cursor as int, c2 as int));
}

/// Law: into a sink of capacity `capacity` starting empty, a write of `a`
/// and then one of `b` both succeed if and only if `a.len() + b.len()`
/// fits the capacity; and when the second write fails, the contents still
/// hold exactly `a`, with nothing of `b` committed.
pub proof fn lemma_two_writes(a: Seq<u8>, b: Seq<u8>, capacity: nat)
    requires
        a.len() <= capacity,
    ensures
        ({
            let (r1, s1) = spec_sink_write(Seq::empty(), capacity, false, a);
            let (r2, s2) = spec_sink_write(s1, capacity, false, b);
            &&& r1 == Ok::<int, WriteError>(a.len() as int)
            &&& s1 == a
            &&& (a.len() + b.len() <= capacity <==> r2 == Ok::<int, WriteError>(b.len() as int))
            &&& (a.len() + b.len() <= capacity ==> s2 == a + b)
            &&& (a.len() + b.len() > capacity ==> s2 == a && r2 == Err::<int, WriteError>(
                WriteError::CapacityExceeded {
                    attempted: b.len() as usize,
                    remaining: (capacity - a.len()) as usize,
                },
            ))
        }),
{
    assert(Seq::<u8>::empty() + a =~= a);
}

/// Fold of a sequence of guest writes over a writable slot, each step by
/// the bounded sink's pure write function; a file slot's model is left as
/// it stands.
pub open spec fn run_writes(s: StreamModel, ops: Seq<Seq<u8>>) -> StreamModel
    decreases ops.len(),
{
    if ops.len() == 0 {
        s
    } else {
        match s {
            StreamModel::BoundedSink { data, capacity, frozen } => {
                let (_, sc) = spec_sink_write(data, capacity, frozen, ops[0]);
                run_writes(
                    StreamModel::BoundedSink { data: sc, capacity, frozen },
                    ops.subrange(1, ops.len() as int),
                )
            },
            _ => s,
        }
    }
}

/// Law: two contexts built by the deterministic preset, driven with the
/// same guest writes, end with byte-identical stdout and stderr captures:
/// the preset pins both models to one fixed value, and a bounded write is
/// a pure function of the model alone, with no clock, host identity or
/// other side channel in reach.
pub proof fn lemma_deterministic_replay(a: ContextModel, b: ContextModel, ops: Seq<Seq<u8>>)
    requires
        a == deterministic_model(),
        b == deterministic_model(),
    ensures
        run_writes(a.stdout, ops) == run_writes(b.stdout, ops),
        run_writes(a.stderr, ops) == run_writes(b.stderr, ops),
{
}

} // verus!
