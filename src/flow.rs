use vstd::prelude::*;
use core::any::TypeId;
use crate::config::{
    TaskConfig,
    Constraint,
    after_all,
    in_all,
    ordered_before,
    lemma_after_all_concat,
    lemma_in_all_concat,
};
use crate::labels::DataLabels;

verus! {

/// The constraints of a task registered with the given read and write kinds:
/// its own, then membership in each written set, then "after" each read set.
pub open spec fn flow(config: Seq<Constraint>, reads: Seq<TypeId>, writes: Seq<TypeId>) -> Seq<
    Constraint,
> {
    config + in_all(writes) + after_all(reads)
}

/// Projects a task's write-set, then its read-set, onto its configuration.
///
/// Writes come first by choice: the two projections add disjoint kinds of
/// constraint, so the order between them changes no ordering a scheduler
/// derives, only the order in which the constraints are listed.
pub fn data_flow_config<R: DataLabels, W: DataLabels>(
    config: TaskConfig,
    read_sets: R,
    write_sets: W,
) -> (r: TaskConfig)
    ensures
        r@ == flow(config@, read_sets.kinds(), write_sets.kinds()),
{
    let config = write_sets.mark_write(config);
    read_sets.mark_read(config)
}

/// An empty read-set or write-set is the same as leaving it out: the
/// configuration gets exactly the constraints of the other set.
pub proof fn lemma_empty_sets_neutral<R: DataLabels, W: DataLabels>(
    config: Seq<Constraint>,
    read_sets: R,
    write_sets: W,
)
    ensures
        flow(config, ().kinds(), write_sets.kinds()) == config + in_all(write_sets.kinds()),
        flow(config, read_sets.kinds(), ().kinds()) == config + after_all(read_sets.kinds()),
        flow(config, ().kinds(), ().kinds()) == config,
{
    assert(flow(config, ().kinds(), write_sets.kinds()) =~= config + in_all(write_sets.kinds()));
    assert(flow(config, read_sets.kinds(), ().kinds()) =~= config + after_all(read_sets.kinds()));
    assert(flow(config, ().kinds(), ().kinds()) =~= config);
}

/// Projecting a set of three members is projecting the first, then the second
/// on that result, then the third on that one, for reads and for writes alike.
pub proof fn lemma_fold_order<A: DataLabels, B: DataLabels, C: DataLabels>(
    labels: (A, B, C),
    config: Seq<Constraint>,
)
    ensures
        config + in_all(labels.kinds()) == config + in_all(labels.0.kinds()) + in_all(
            labels.1.kinds(),
        ) + in_all(labels.2.kinds()),
        config + after_all(labels.kinds()) == config + after_all(labels.0.kinds()) + after_all(
            labels.1.kinds(),
        ) + after_all(labels.2.kinds()),
{
    lemma_in_all_concat(labels.0.kinds(), labels.1.kinds());
    lemma_in_all_concat(labels.0.kinds() + labels.1.kinds(), labels.2.kinds());
    lemma_after_all_concat(labels.0.kinds(), labels.1.kinds());
    lemma_after_all_concat(labels.0.kinds() + labels.1.kinds(), labels.2.kinds());
    assert(config + in_all(labels.kinds()) =~= config + in_all(labels.0.kinds()) + in_all(
        labels.1.kinds(),
    ) + in_all(labels.2.kinds()));
    assert(config + after_all(labels.kinds()) =~= config + after_all(labels.0.kinds())
        + after_all(labels.1.kinds()) + after_all(labels.2.kinds()));
}

/// A task that writes a kind is ordered before every task that reads it,
/// whatever else either of them reads or writes.
pub proof fn lemma_writer_before_reader<RA: DataLabels, WA: DataLabels, RB: DataLabels, WB: DataLabels>(
    kind: TypeId,
    writer_config: Seq<Constraint>,
    writer_reads: RA,
    writer_writes: WA,
    reader_config: Seq<Constraint>,
    reader_reads: RB,
    reader_writes: WB,
)
    requires
        writer_writes.kinds().contains(kind),
        reader_reads.kinds().contains(kind),
    ensures
        ordered_before(
            flow(writer_config, writer_reads.kinds(), writer_writes.kinds()),
            flow(reader_config, reader_reads.kinds(), reader_writes.kinds()),
        ),
{
    let a = flow(writer_config, writer_reads.kinds(), writer_writes.kinds());
    let b = flow(reader_config, reader_reads.kinds(), reader_writes.kinds());
    let i = choose|i: int|
        0 <= i < writer_writes.kinds().len() && writer_writes.kinds()[i] == kind;
    let j = choose|j: int| 0 <= j < reader_reads.kinds().len() && reader_reads.kinds()[j] == kind;
    assert(a[writer_config.len() + i] == Constraint::InSet(kind));
    assert(b[reader_config.len() + reader_writes.kinds().len() + j] == Constraint::RunsAfter(kind));
    assert(a.contains(Constraint::InSet(kind)));
    assert(b.contains(Constraint::RunsAfter(kind)));
}

/// Projecting the read-set before the write-set lists the same constraints in
/// another order, and orders the task against every other task just as
/// [`data_flow_config`] does, in both directions.
pub proof fn lemma_projection_order_immaterial(
    config: Seq<Constraint>,
    reads: Seq<TypeId>,
    writes: Seq<TypeId>,
    other: Seq<Constraint>,
)
    ensures
        ordered_before(flow(config, reads, writes), other) == ordered_before(
            config + after_all(reads) + in_all(writes),
            other,
        ),
        ordered_before(other, flow(config, reads, writes)) == ordered_before(
            other,
            config + after_all(reads) + in_all(writes),
        ),
{
    let a = flow(config, reads, writes);
    let b = config + after_all(reads) + in_all(writes);
    assert forall|c: Constraint| a.contains(c) <==> b.contains(c) by {
        if a.contains(c) {
            let i = choose|i: int| 0 <= i < a.len() && a[i] == c;
            if i < config.len() {
                assert(b[i] == c);
            } else if i < config.len() + writes.len() {
                assert(b[i + reads.len()] == c);
            } else {
                assert(b[i - writes.len()] == c);
            }
        }
        if b.contains(c) {
            let i = choose|i: int| 0 <= i < b.len() && b[i] == c;
            if i < config.len() {
                assert(a[i] == c);
            } else if i < config.len() + reads.len() {
                assert(a[i + writes.len()] == c);
            } else {
                assert(a[i - reads.len()] == c);
            }
        }
    }
}

/// A tuple of one member names exactly what the member names, so it projects
/// exactly as the member does.
pub proof fn lemma_single_member<A: DataLabels>(labels: (A,), config: Seq<Constraint>)
    ensures
        labels.kinds() == labels.0.kinds(),
        config + after_all(labels.kinds()) == config + after_all(labels.0.kinds()),
        config + in_all(labels.kinds()) == config + in_all(labels.0.kinds()),
{
}

} // verus!
