//! The table function `tpch(sf, 'table')`: binding, partitioning and draining a scan.

use crate::chunk::{Chunk, Value, BATCH_SIZE};
use crate::generators::{joined_partitions, share};
use crate::produce::{exhausted_partition_is_complete, produced, rows_are_shared, table_rows};
use crate::pump::PumpEnd;
use crate::request::{
    invalid_scale_factor, invalid_scale_factor_message, unknown_table, unknown_table_message,
    ParameterType,
};
use crate::table::{ascii_lowercase, lookup_inverts_name, table_with_name, TpchTable};
use vstd::prelude::*;

verus! {

/// The parameters of `tpch`: the scale factor and the name of the table.
pub fn tpch_parameters() -> (parameters: Vec<ParameterType>)
    ensures
        parameters@ == seq![ParameterType::Double, ParameterType::Varchar],
{
    let parameters = vec![ParameterType::Double, ParameterType::Varchar];
    assert(parameters@ =~= seq![ParameterType::Double, ParameterType::Varchar]);
    parameters
}

/// A scan of one table at one scale factor. The result has the columns of the table.
#[derive(Debug, PartialEq, Eq)]
pub struct TpchTableBindData {
    pub sf: String,
    pub table: TpchTable,
}

/// Binds a scan. `sf` is the text of the scale factor, or what is wrong with it where it is no
/// number; `name` is the name of the table.
pub fn bind_tpch(sf: Result<String, String>, name: &str) -> (bound: Result<
    TpchTableBindData,
    String,
>)
    ensures
        match (sf, table_with_name(ascii_lowercase(name@))) {
            (Err(reason), _) => bound matches Err(message) && message@ == invalid_scale_factor(
                reason@,
            ),
            (Ok(_), None) => bound matches Err(message) && message@ == unknown_table(name@),
            (Ok(text), Some(table)) => bound matches Ok(scan) && scan.sf@ == text@ && scan.table
                == table,
        },
        bound is Ok <==> sf is Ok && table_with_name(ascii_lowercase(name@)) is Some,
        sf matches Err(reason) ==> (bound matches Err(message) && message@
            == "invalid scale factor: "@ + reason@),
        sf is Ok ==> (bound matches Err(message) ==> message@ == "unknown TPC-H table: "@ + name@),
        bound matches Ok(scan) ==> (sf matches Ok(text) && scan.sf@ == text@)
            && ascii_lowercase(name@) == scan.table.text(),
{
    proof {
        if let Some(table) = table_with_name(ascii_lowercase(name@)) {
            lookup_inverts_name(name@, table);
        }
    }
    match sf {
        Err(reason) => Err(invalid_scale_factor_message(reason.as_str())),
        Ok(sf) => match TpchTable::from_name(name) {
            None => Err(unknown_table_message(name)),
            Some(table) => Ok(TpchTableBindData { sf, table }),
        },
    }
}

/// The number of generator threads where the parallelism of the machine is unknown.
pub const DEFAULT_THREADS: usize = 4;

/// How many threads a machine with this parallelism is given.
pub open spec fn thread_count(parallelism: Option<usize>) -> usize {
    match parallelism {
        Some(n) => n,
        None => DEFAULT_THREADS,
    }
}

/// How many partitions `table` is generated in by `threads` threads: one for each thread, unless
/// the table cannot be partitioned. A partition is counted in 32 bits.
pub open spec fn partition_count(table: TpchTable, threads: usize) -> i32 {
    if table.partitionable() {
        threads as i32
    } else {
        1
    }
}

/// How the scan of a table is spread over threads.
#[derive(Debug, Clone, Copy, PartialEq, Eq)]
pub struct ScanPlan {
    /// The number of partitions, each generated on a thread of its own.
    pub part_count: i32,
    /// The number of chunks that may wait for the table function. Generators block beyond it, so
    /// that memory stays bounded whatever the scale factor.
    pub queue: usize,
    /// The number of threads from which DuckDB may drain the scan.
    pub max_threads: u64,
}

impl ScanPlan {
    /// The plan is the one for `table` on a machine with the given parallelism: a partition for
    /// each thread, two waiting chunks for each partition, and as many readers as threads.
    pub open spec fn serves(self, table: TpchTable, parallelism: Option<usize>) -> bool {
        &&& self.part_count == partition_count(table, thread_count(parallelism))
        &&& self.queue == self.part_count * 2
        &&& self.max_threads == thread_count(parallelism)
    }

    /// The partitions, numbered from 1.
    pub open spec fn partitions(self) -> Seq<i32> {
        Seq::new(self.part_count as nat, |i: int| (i + 1) as i32)
    }

    /// Plans the scan of `table` on a machine with the given parallelism.
    pub fn new(table: TpchTable, parallelism: Option<usize>) -> (plan: ScanPlan)
        requires
            partition_count(table, thread_count(parallelism)) >= 0,
        ensures
            plan.part_count == partition_count(table, thread_count(parallelism)),
            plan.queue == plan.part_count * 2,
            plan.max_threads == thread_count(parallelism),
            plan.serves(table, parallelism),
            table == TpchTable::Nation || table == TpchTable::Region ==> plan.part_count == 1,
            parallelism matches Some(n) ==> plan.max_threads == n,
            parallelism is None ==> plan.max_threads == 4,
            table != TpchTable::Nation && table != TpchTable::Region ==> (parallelism matches Some(
                n,
            ) ==> n <= i32::MAX ==> plan.part_count == n),
    {
        let threads: usize = match parallelism {
            Some(n) => n,
            None => DEFAULT_THREADS,
        };
        // Nation and Region generators ignore the partition, so they must be a single one.
        let part_count: i32 = if table.is_partitionable() {
            threads as i32
        } else {
            1
        };
        ScanPlan { part_count, queue: part_count as usize * 2, max_threads: threads as u64 }
    }

    /// The numbers of the partitions to generate.
    pub fn parts(&self) -> (parts: Vec<i32>)
        requires
            self.part_count >= 0,
        ensures
            parts@ == self.partitions(),
    {
        let mut parts: Vec<i32> = Vec::new();
        let mut part: i32 = 0;
        while part < self.part_count
            invariant
                0 <= part <= self.part_count,
                parts@ =~= self.partitions().take(part as int),
            decreases self.part_count - part,
        {
            part = part + 1;
            parts.push(part);
        }
        assert(parts@ =~= self.partitions());
        parts
    }
}

/// What a pull is answered with: the chunk that was received, or, where nothing is left to
/// receive, a chunk without rows.
pub open spec fn answers_pull(received: Option<Chunk>, output: Chunk) -> bool {
    match received {
        Some(chunk) => output == chunk,
        None => output.wf() && output.len == 0 && output.columns@.len() == 0,
    }
}

/// One pull of a scan. A chunk that was received is passed on; when all generators have finished
/// and nothing is left to receive, the scan ends.
pub fn scan_step(received: Option<Chunk>) -> (output: Chunk)
    ensures
        answers_pull(received, output),
{
    match received {
        Some(chunk) => chunk,
        None => Chunk::end_of_scan(),
    }
}

/// A table that cannot be partitioned is generated by a single producer, however many threads
/// there are.
pub proof fn fixed_tables_have_one_partition(table: TpchTable, threads: usize)
    requires
        table == TpchTable::Nation || table == TpchTable::Region,
    ensures
        partition_count(table, threads) == 1,
{
}

/// Every partition is generated exactly once.
pub proof fn partitions_are_numbered_once(plan: ScanPlan, part: i32)
    requires
        plan.part_count >= 0,
    ensures
        plan.partitions().no_duplicates(),
        plan.partitions().contains(part) <==> 1 <= part <= plan.part_count,
{
    if 1 <= part <= plan.part_count {
        assert(plan.partitions()[part - 1] == part);
    }
}

/// Whatever the number of threads, the table is streamed as it is: where every partition of a plan
/// was produced to the end, what the partitions have sent, one behind the other, is exactly the
/// table that a single partition holds. `sent` lists for each partition the chunks that its
/// sender has handed over.
pub proof fn partitions_stream_the_table(
    table: TpchTable,
    scale: Seq<char>,
    threads: usize,
    sent: Seq<Seq<Seq<Seq<Value>>>>,
)
    requires
        partition_count(table, threads) >= 1,
        sent.len() == partition_count(table, threads),
        forall|i: int|
            0 <= i < sent.len() ==> produced(
                table,
                scale,
                (i + 1) as i32,
                partition_count(table, threads),
                seq![],
                #[trigger] sent[i],
                PumpEnd::Exhausted,
            ),
    ensures
        sent.map_values(|chunks: Seq<Seq<Seq<Value>>>| chunks.flatten()).flatten() == table_rows(
            table,
            scale,
            1,
            1,
        ),
{
    let count = partition_count(table, threads);
    let rows = |p: i32| table_rows(table, scale, p, count);
    let each = |chunks: Seq<Seq<Seq<Value>>>| chunks.flatten();
    assert forall|i: int| 0 <= i < sent.len() implies (#[trigger] sent[i]).flatten() == rows(
        (i + 1) as i32,
    ) by {
        exhausted_partition_is_complete(table, scale, (i + 1) as i32, count, seq![], sent[i]);
        assert(sent[i].skip(0) =~= sent[i]);
    }
    joined_partitions_are_flattened(rows, sent.map_values(each));
    assert(sent[count - 1].flatten() == rows(count));
    if table.partitionable() {
        assert(rows_are_shared(table, scale, count, count));
        assert(joined_partitions(rows, count as int) == table_rows(table, scale, 1, 1));
    } else {
        assert(joined_partitions(rows, 0) + rows(1) =~= rows(1));
    }
}

/// `drained` holds the chunks of all senders, each once, and those of one sender in the order in
/// which they were sent. `sent` lists the chunks of each sender.
pub open spec fn is_interleaving(
    drained: Seq<Seq<Seq<Value>>>,
    sent: Seq<Seq<Seq<Seq<Value>>>>,
) -> bool
    decreases drained.len(),
{
    if drained.len() == 0 {
        forall|p: int| 0 <= p < sent.len() ==> (#[trigger] sent[p]).len() == 0
    } else {
        exists|p: int|
            0 <= p < sent.len() && (#[trigger] sent[p]).len() > 0 && sent[p][0] == drained[0]
                && is_interleaving(drained.drop_first(), sent.update(p, sent[p].drop_first()))
    }
}

/// The channel gives the chunks `drained`, one at a pull, and then, since all senders have gone,
/// nothing any more.
pub open spec fn receives(received: Seq<Option<Chunk>>, drained: Seq<Seq<Seq<Value>>>) -> bool {
    &&& received.len() >= drained.len()
    &&& forall|i: int|
        0 <= i < received.len() ==> match #[trigger] received[i] {
            Some(chunk) => i < drained.len() && chunk.rows() == drained[i],
            None => i >= drained.len(),
        }
}

/// In whatever order the chunks of the partitions arrive, a scan that is drained yields every row
/// of the table exactly once. As long as there are chunks, a pull is answered with at least one
/// row and at most a batch of them; from the first answer without rows on, all are without rows.
pub proof fn drained_scan_yields_the_table(
    table: TpchTable,
    scale: Seq<char>,
    threads: usize,
    sent: Seq<Seq<Seq<Seq<Value>>>>,
    drained: Seq<Seq<Seq<Value>>>,
    received: Seq<Option<Chunk>>,
    outputs: Seq<Chunk>,
)
    requires
        partition_count(table, threads) >= 1,
        sent.len() == partition_count(table, threads),
        forall|i: int|
            0 <= i < sent.len() ==> produced(
                table,
                scale,
                (i + 1) as i32,
                partition_count(table, threads),
                seq![],
                #[trigger] sent[i],
                PumpEnd::Exhausted,
            ),
        is_interleaving(drained, sent),
        receives(received, drained),
        outputs.len() == received.len(),
        forall|i: int|
            0 <= i < outputs.len() ==> answers_pull(received[i], #[trigger] outputs[i]),
    ensures
        outputs.map_values(|output: Chunk| output.rows()).flatten().to_multiset() == table_rows(
            table,
            scale,
            1,
            1,
        ).to_multiset(),
        forall|i: int|
            0 <= i < drained.len() ==> 1 <= (#[trigger] outputs[i]).len <= BATCH_SIZE,
        forall|i: int| drained.len() <= i < outputs.len() ==> (#[trigger] outputs[i]).len == 0,
{
    let count = partition_count(table, threads);
    partitions_stream_the_table(table, scale, threads, sent);
    interleaving_keeps_rows(drained, sent);
    assert forall|p: int, k: int| 0 <= p < sent.len() && 0 <= k < sent[p].len() implies 1 <= (
    #[trigger] sent[p][k]).len() <= BATCH_SIZE by {
        exhausted_partition_is_complete(table, scale, (p + 1) as i32, count, seq![], sent[p]);
    }
    interleaving_keeps_sizes(drained, sent);
    let rows = outputs.map_values(|output: Chunk| output.rows());
    let n = drained.len() as int;
    assert forall|i: int| 0 <= i < outputs.len() implies if i < n {
        rows[i] == drained[i]
    } else {
        rows[i] == Seq::<Seq<Value>>::empty()
    } by {
        assert(answers_pull(received[i], outputs[i]));
        if i >= n {
            assert(rows[i] =~= Seq::<Seq<Value>>::empty());
        }
    }
    assert forall|i: int| 0 <= i < n implies 1 <= (#[trigger] outputs[i]).len <= BATCH_SIZE by {
        assert(rows[i] == drained[i]);
        assert(rows[i].len() == outputs[i].len);
    }
    assert forall|i: int| n <= i < outputs.len() implies (#[trigger] outputs[i]).len == 0 by {
        assert(rows[i].len() == outputs[i].len);
    }
    assert(rows.take(n) =~= drained);
    assert(rows =~= rows.take(n) + rows.skip(n));
    vstd::seq_lib::lemma_flatten_concat(rows.take(n), rows.skip(n));
    empty_pieces_hold_nothing(rows.skip(n));
    assert(rows.flatten() =~= drained.flatten());
}

proof fn empty_pieces_hold_nothing(pieces: Seq<Seq<Seq<Value>>>)
    requires
        forall|i: int| 0 <= i < pieces.len() ==> (#[trigger] pieces[i]).len() == 0,
    ensures
        pieces.flatten() == Seq::<Seq<Value>>::empty(),
    decreases pieces.len(),
{
    if pieces.len() > 0 {
        empty_pieces_hold_nothing(pieces.drop_first());
    }
    assert(pieces.flatten() =~= Seq::<Seq<Value>>::empty());
}

/// The rows that the senders have sent, sender by sender.
spec fn rows_of(sent: Seq<Seq<Seq<Seq<Value>>>>) -> Seq<Seq<Value>> {
    sent.map_values(|chunks: Seq<Seq<Seq<Value>>>| chunks.flatten()).flatten()
}

/// Taking the oldest chunk of sender `p` away takes its rows away.
proof fn oldest_chunk_leaves(sent: Seq<Seq<Seq<Seq<Value>>>>, p: int)
    requires
        0 <= p < sent.len(),
        sent[p].len() > 0,
    ensures
        rows_of(sent).to_multiset() == sent[p][0].to_multiset().add(
            rows_of(sent.update(p, sent[p].drop_first())).to_multiset(),
        ),
{
    let rest = sent.update(p, sent[p].drop_first());
    let pieces = sent.map_values(|chunks: Seq<Seq<Seq<Value>>>| chunks.flatten());
    let left = rest.map_values(|chunks: Seq<Seq<Seq<Value>>>| chunks.flatten());
    let above = pieces.take(p);
    let below = pieces.skip(p + 1);
    let oldest = sent[p][0];
    let later = sent[p].drop_first().flatten();
    assert(sent[p].first() == oldest);
    assert(pieces[p] == oldest + later);
    assert(pieces =~= above + (seq![pieces[p]] + below));
    assert(left =~= above + (seq![later] + below));
    vstd::seq_lib::lemma_flatten_concat(above, seq![pieces[p]] + below);
    vstd::seq_lib::lemma_flatten_concat(above, seq![later] + below);
    vstd::seq_lib::lemma_flatten_concat(seq![pieces[p]], below);
    vstd::seq_lib::lemma_flatten_concat(seq![later], below);
    seq![pieces[p]].lemma_flatten_one_element();
    seq![later].lemma_flatten_one_element();
    let a = above.flatten();
    let b = below.flatten();
    assert(rows_of(sent) == a + ((oldest + later) + b));
    assert(rows_of(rest) == a + (later + b));
    vstd::seq_lib::lemma_multiset_commutative(a, (oldest + later) + b);
    vstd::seq_lib::lemma_multiset_commutative(oldest + later, b);
    vstd::seq_lib::lemma_multiset_commutative(oldest, later);
    vstd::seq_lib::lemma_multiset_commutative(a, later + b);
    vstd::seq_lib::lemma_multiset_commutative(later, b);
    assert(rows_of(sent).to_multiset() =~= oldest.to_multiset().add(rows_of(rest).to_multiset()));
}

proof fn interleaving_keeps_rows(
    drained: Seq<Seq<Seq<Value>>>,
    sent: Seq<Seq<Seq<Seq<Value>>>>,
)
    requires
        is_interleaving(drained, sent),
    ensures
        drained.flatten().to_multiset() == rows_of(sent).to_multiset(),
    decreases drained.len(),
{
    if drained.len() == 0 {
        let pieces = sent.map_values(|chunks: Seq<Seq<Seq<Value>>>| chunks.flatten());
        assert forall|p: int| 0 <= p < pieces.len() implies (#[trigger] pieces[p]).len() == 0 by {
            assert(sent[p].len() == 0);
        }
        empty_pieces_hold_nothing(pieces);
        assert(drained.flatten() =~= rows_of(sent));
    } else {
        let p = choose|p: int|
            0 <= p < sent.len() && (#[trigger] sent[p]).len() > 0 && sent[p][0] == drained[0]
                && is_interleaving(drained.drop_first(), sent.update(p, sent[p].drop_first()));
        interleaving_keeps_rows(drained.drop_first(), sent.update(p, sent[p].drop_first()));
        oldest_chunk_leaves(sent, p);
        vstd::seq_lib::lemma_multiset_commutative(drained[0], drained.drop_first().flatten());
        assert(drained.first() == drained[0]);
    }
}

proof fn interleaving_keeps_sizes(
    drained: Seq<Seq<Seq<Value>>>,
    sent: Seq<Seq<Seq<Seq<Value>>>>,
)
    requires
        is_interleaving(drained, sent),
        forall|p: int, k: int|
            0 <= p < sent.len() && 0 <= k < sent[p].len() ==> 1 <= (#[trigger] sent[p][k]).len()
                <= BATCH_SIZE,
    ensures
        forall|i: int| 0 <= i < drained.len() ==> 1 <= (#[trigger] drained[i]).len() <= BATCH_SIZE,
    decreases drained.len(),
{
    if drained.len() > 0 {
        let p = choose|p: int|
            0 <= p < sent.len() && (#[trigger] sent[p]).len() > 0 && sent[p][0] == drained[0]
                && is_interleaving(drained.drop_first(), sent.update(p, sent[p].drop_first()));
        let rest = sent.update(p, sent[p].drop_first());
        assert forall|q: int, k: int| 0 <= q < rest.len() && 0 <= k < rest[q].len() implies 1 <= (
        #[trigger] rest[q][k]).len() <= BATCH_SIZE by {
            if q == p {
                assert(rest[q][k] == sent[p][k + 1]);
            } else {
                assert(rest[q][k] == sent[q][k]);
            }
        }
        interleaving_keeps_sizes(drained.drop_first(), rest);
        assert forall|i: int| 0 <= i < drained.len() implies 1 <= (#[trigger] drained[i]).len()
            <= BATCH_SIZE by {
            if i > 0 {
                assert(drained[i] == drained.drop_first()[i - 1]);
            } else {
                assert(drained[0] == sent[p][0]);
            }
        }
    }
}

proof fn joined_partitions_are_flattened(
    rows: spec_fn(i32) -> Seq<Seq<Value>>,
    pieces: Seq<Seq<Seq<Value>>>,
)
    requires
        pieces.len() <= i32::MAX,
        forall|i: int| 0 <= i < pieces.len() ==> #[trigger] pieces[i] == rows((i + 1) as i32),
    ensures
        pieces.flatten() == joined_partitions(rows, pieces.len() as int),
    decreases pieces.len(),
{
    if pieces.len() == 0 {
        assert(pieces.flatten() =~= joined_partitions(rows, 0));
    } else {
        let n = pieces.len() - 1;
        joined_partitions_are_flattened(rows, pieces.drop_last());
        pieces.lemma_flatten_and_flatten_alt_are_equivalent();
        pieces.drop_last().lemma_flatten_and_flatten_alt_are_equivalent();
        assert(pieces.last() == pieces[n]);
    }
}

/// The number of items in the first `parts` of `part_count` partitions of `total` items.
pub open spec fn shared(total: int, parts: int, part_count: int) -> int
    decreases parts,
{
    if parts <= 0 {
        0
    } else {
        shared(total, parts - 1, part_count) + share(total, parts, part_count)
    }
}

/// However many partitions a table is split into, together they hold every item once: their
/// shares add up to the whole.
pub proof fn shares_add_up(total: int, part_count: int)
    requires
        part_count >= 1,
    ensures
        shared(total, part_count, part_count) == if total > 0 {
            total
        } else {
            0
        },
{
    shares_before_the_last(total, part_count - 1, part_count);
    if total > 0 {
        vstd::arithmetic::div_mod::lemma_fundamental_div_mod(total, part_count);
        assert((part_count - 1) * (total / part_count) + total / part_count == part_count * (total
            / part_count)) by (nonlinear_arith);
    }
}

proof fn shares_before_the_last(total: int, parts: int, part_count: int)
    requires
        0 <= parts < part_count,
    ensures
        shared(total, parts, part_count) == if total > 0 {
            parts * (total / part_count)
        } else {
            0
        },
    decreases parts,
{
    if parts > 0 {
        shares_before_the_last(total, parts - 1, part_count);
        assert((parts - 1) * (total / part_count) + total / part_count == parts * (total
            / part_count)) by (nonlinear_arith);
    } else {
        assert(0 * (total / part_count) == 0);
    }
}

/// A table that can be partitioned is split into one partition for each thread, however many
/// threads there are, and where their number is unknown into four.
pub proof fn one_partition_for_each_thread(table: TpchTable, threads: usize)
    requires
        table != TpchTable::Nation,
        table != TpchTable::Region,
        threads <= i32::MAX,
    ensures
        partition_count(table, thread_count(Some(threads))) == threads,
        partition_count(table, thread_count(None)) == 4,
{
}

/// Whatever the table and the machine, two chunks at most wait for each partition, so that memory
/// stays bounded, and DuckDB may read from every thread.
pub proof fn plans_bound_what_waits(plan: ScanPlan, table: TpchTable, threads: usize)
    requires
        plan.serves(table, Some(threads)),
        threads <= i32::MAX,
    ensures
        plan.queue == plan.part_count + plan.part_count,
        plan.max_threads == threads,
        plan.part_count == 1 || plan.part_count == threads,
        plan.part_count != threads ==> table == TpchTable::Nation || table == TpchTable::Region,
{
}

/// The partitions of a plan are numbered one by one.
pub proof fn partitions_are_numbered_in_order(plan: ScanPlan, i: int)
    requires
        0 <= i < plan.part_count,
    ensures
        plan.partitions().len() == plan.part_count,
        plan.partitions()[i] == i + 1,
{
}

/// The partitions are even: all but the last have the same size, and the last has less than one
/// item more for each partition.
pub proof fn shares_are_even(total: int, p: int, q: int, part_count: int)
    requires
        1 <= p < part_count,
        1 <= q < part_count,
    ensures
        share(total, p, part_count) == share(total, q, part_count),
        0 <= share(total, part_count, part_count) - share(total, p, part_count) < part_count,
{
    if total > 0 {
        vstd::arithmetic::div_mod::lemma_mod_bound(total, part_count);
    }
}

} // verus!
