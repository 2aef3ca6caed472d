//! Batches of rows on their way from a generator to the table function.

use crate::chunk::{chunk_rows_conform, row_conforms, Chunk, Value, BATCH_SIZE};
use crate::schema::storages;
use crate::source::RowSource;
use crate::table::TpchTable;
use std::sync::mpsc::SyncSender;
use vstd::prelude::*;

verus! {

/// The sending half of a bounded channel of std.
#[verifier::external_type_specification]
#[verifier::external_body]
#[verifier::reject_recursive_types(T)]
pub struct ExSyncSender<T>(SyncSender<T>);

/// One sender of a bounded channel, from the moment at which a generator is given it. Nothing but
/// [`send_chunk`] reaches the sender inside.
#[verifier::external_body]
pub struct JobChannel {
    tx: SyncSender<Chunk>,
}

/// The chunks that the channel has taken from this sender, oldest first, each row by row.
pub uninterp spec fn taken(channel: JobChannel) -> Seq<Seq<Seq<Value>>>;

/// The chunks that this sender was given back because the receiver had gone away, oldest first,
/// each row by row.
pub uninterp spec fn turned_away(channel: JobChannel) -> Seq<Seq<Seq<Value>>>;

/// Wraps a `SyncSender` of std. From here on nothing has been sent through it yet.
#[verifier::external_body]
fn open_channel(tx: SyncSender<Chunk>) -> (channel: JobChannel)
    ensures
        taken(channel) == Seq::<Seq<Seq<Value>>>::empty(),
        turned_away(channel) == Seq::<Seq<Seq<Value>>>::empty(),
{
    JobChannel { tx }
}

/// `SyncSender::send` of std: waits for room in the channel and hands the chunk over, or is given
/// it back where the receiver no longer exists. Which of the two it is lies with the receiver, and
/// nothing can be said of it beforehand.
#[verifier::external_body]
fn send_chunk(channel: &mut JobChannel, chunk: Chunk) -> (delivered: bool)
    ensures
        taken(*final(channel)) == if delivered {
            taken(*old(channel)).push(chunk.rows())
        } else {
            taken(*old(channel))
        },
        turned_away(*final(channel)) == if delivered {
            turned_away(*old(channel))
        } else {
            turned_away(*old(channel)).push(chunk.rows())
        },
{
    channel.tx.send(chunk).is_ok()
}

/// How many rows the next batch of `n` pending rows takes.
pub open spec fn batch_len(n: nat) -> nat {
    if n < BATCH_SIZE {
        n
    } else {
        BATCH_SIZE as nat
    }
}

/// `rows` cut into batches, in order: full ones, and at the end what is left.
pub open spec fn batches(rows: Seq<Seq<Value>>) -> Seq<Seq<Seq<Value>>>
    decreases rows.len(),
{
    if rows.len() == 0 {
        seq![]
    } else {
        let n = batch_len(rows.len()) as int;
        seq![rows.take(n)] + batches(rows.skip(n))
    }
}

/// The batches hold every row exactly once, in order; none is empty, none is larger than a
/// batch, and all but the last are full.
pub proof fn batches_hold_all_rows(rows: Seq<Seq<Value>>)
    ensures
        batches(rows).flatten() == rows,
        forall|i: int|
            0 <= i < batches(rows).len() ==> 1 <= (#[trigger] batches(rows)[i]).len() <= BATCH_SIZE,
        forall|i: int|
            0 <= i < batches(rows).len() - 1 ==> (#[trigger] batches(rows)[i]).len() == BATCH_SIZE,
    decreases rows.len(),
{
    if rows.len() == 0 {
        assert(batches(rows).flatten() =~= rows);
    } else {
        let n = batch_len(rows.len()) as int;
        let later = batches(rows.skip(n));
        batches_hold_all_rows(rows.skip(n));
        assert(batches(rows).drop_first() =~= later);
        assert(batches(rows).first() == rows.take(n));
        assert(rows.take(n) + rows.skip(n) =~= rows);
        assert forall|i: int| 0 <= i < batches(rows).len() implies 1 <= (
        #[trigger] batches(rows)[i]).len() <= BATCH_SIZE by {
            if i > 0 {
                assert(batches(rows)[i] == later[i - 1]);
            }
        }
        assert forall|i: int| 0 <= i < batches(rows).len() - 1 implies (
        #[trigger] batches(rows)[i]).len() == BATCH_SIZE by {
            if i > 0 {
                assert(batches(rows)[i] == later[i - 1]);
            } else if rows.len() <= BATCH_SIZE {
                assert(rows.skip(n).len() == 0);
            }
        }
    }
}

/// What is stored of the rows that `source` has still to give.
pub open spec fn pending_stored<S: RowSource>(source: S) -> Seq<Seq<Value>> {
    source.pending().map_values(|fields: Seq<Value>| S::stored(fields))
}

/// Takes up to a batch of rows out of `source`.
pub fn next_batch<S: RowSource>(source: &mut S) -> (rows: Vec<S::Row>)
    requires
        old(source).ready(),
    ensures
        final(source).ready(),
        rows@.len() == batch_len(old(source).pending().len()),
        rows@.map_values(|row: S::Row| row@) == old(source).pending().take(rows@.len() as int),
        final(source).pending() == old(source).pending().skip(rows@.len() as int),
        forall|i: int| 0 <= i < rows@.len() ==> S::writable(#[trigger] rows@[i]),
{
    let ghost pending = source.pending();
    let mut rows: Vec<S::Row> = Vec::new();
    while rows.len() < BATCH_SIZE
        invariant
            source.ready(),
            rows@.len() <= BATCH_SIZE,
            rows@.len() <= pending.len(),
            rows@.map_values(|row: S::Row| row@) =~= pending.take(rows@.len() as int),
            source.pending() =~= pending.skip(rows@.len() as int),
            forall|i: int| 0 <= i < rows@.len() ==> S::writable(#[trigger] rows@[i]),
        ensures
            rows@.len() == batch_len(pending.len()),
        decreases BATCH_SIZE - rows@.len(),
    {
        match source.next_row() {
            Some(row) => {
                rows.push(row);
            },
            None => {
                break ;
            },
        }
    }
    rows
}

/// Takes the next batch out of `source` and writes it, until no row is left.
pub fn next_job<S: RowSource>(source: &mut S) -> (job: Option<Chunk>)
    requires
        old(source).ready(),
    ensures
        final(source).ready(),
        job is None <==> old(source).pending().len() == 0,
        match job {
            Some(chunk) => {
                let n = batch_len(old(source).pending().len()) as int;
                &&& chunk.wf()
                &&& chunk.len >= 1
                &&& chunk.storages() == storages(S::table().columns())
                &&& chunk.rows() == pending_stored(*old(source)).take(n)
                &&& final(source).pending() == old(source).pending().skip(n)
            },
            None => final(source).pending() == old(source).pending(),
        },
{
    let ghost pending = source.pending();
    let rows = next_batch(source);
    if rows.len() == 0 {
        assert(source.pending() =~= pending);
        None
    } else {
        let chunk = S::write(&rows);
        proof {
            let fields = rows@.map_values(|row: S::Row| row@);
            let stored = pending.map_values(|f: Seq<Value>| S::stored(f));
            assert forall|i: int| 0 <= i < rows@.len() implies chunk.rows()[i] == stored.take(
                rows@.len() as int,
            )[i] by {
                assert(fields[i] == pending.take(rows@.len() as int)[i]);
            }
            assert(chunk.rows() =~= stored.take(rows@.len() as int));
        }
        Some(chunk)
    }
}

/// The sending end of the channel that the scan of one table drains.
pub struct JobSender {
    table: TpchTable,
    channel: JobChannel,
}

impl JobSender {
    /// The table that is scanned.
    pub closed spec fn table(&self) -> TpchTable {
        self.table
    }

    /// The chunks that the channel has taken from this end, oldest first, each row by row.
    pub closed spec fn accepted(&self) -> Seq<Seq<Seq<Value>>> {
        taken(self.channel)
    }

    /// The chunks that were handed to the channel and that it did not take because the receiver
    /// had gone away, oldest first, each row by row.
    pub closed spec fn refused(&self) -> Seq<Seq<Seq<Value>>> {
        turned_away(self.channel)
    }

    /// Every row that the channel has taken has the columns of the table.
    pub open spec fn conforming(&self) -> bool {
        forall|i: int, r: int|
            0 <= i < self.accepted().len() && 0 <= r < self.accepted()[i].len() ==> row_conforms(
                #[trigger] self.accepted()[i][r],
                self.table().columns(),
            )
    }

    pub fn new(table: TpchTable, tx: SyncSender<Chunk>) -> (sender: JobSender)
        ensures
            sender.table() == table,
            sender.accepted() == Seq::<Seq<Seq<Value>>>::empty(),
            sender.refused() == Seq::<Seq<Seq<Value>>>::empty(),
            sender.conforming(),
    {
        JobSender { table, channel: open_channel(tx) }
    }

    /// Hands a chunk to the channel, once: it is either taken or, when the receiver has gone away,
    /// refused. Which of the two lies with the receiver.
    pub fn send(&mut self, job: Chunk) -> (delivered: bool)
        requires
            job.wf(),
            job.storages() == storages(old(self).table().columns()),
        ensures
            final(self).table() == old(self).table(),
            final(self).accepted() == if delivered {
                old(self).accepted().push(job.rows())
            } else {
                old(self).accepted()
            },
            final(self).refused() == if delivered {
                old(self).refused()
            } else {
                old(self).refused().push(job.rows())
            },
            old(self).conforming() ==> final(self).conforming(),
    {
        let ghost before = *self;
        proof {
            chunk_rows_conform(job, self.table.columns());
        }
        let delivered = send_chunk(&mut self.channel, job);
        proof {
            let log = self.accepted();
            if before.conforming() {
                assert forall|i: int, r: int|
                    0 <= i < log.len() && 0 <= r < log[i].len() implies row_conforms(
                    #[trigger] log[i][r],
                    self.table().columns(),
                ) by {
                    if i < before.accepted().len() {
                        assert(log[i][r] == before.accepted()[i][r]);
                    }
                }
            }
        }
        delivered
    }
}

/// Why a generator stopped.
#[derive(Debug, Clone, Copy, PartialEq, Eq, Structural)]
pub enum PumpEnd {
    /// The partition is exhausted.
    Exhausted,
    /// The receiver has gone away.
    Disconnected,
}

/// What the channel has taken when a generator of `rows` stopped: all batches of them, or, when
/// the receiver went away, only the first few.
pub open spec fn pumped(
    before: Seq<Seq<Seq<Value>>>,
    after: Seq<Seq<Seq<Value>>>,
    rows: Seq<Seq<Value>>,
    end: PumpEnd,
) -> bool {
    match end {
        PumpEnd::Exhausted => after == before + batches(rows),
        PumpEnd::Disconnected => exists|n: int|
            0 <= n < batches(rows).len() && after == before + #[trigger] batches(rows).take(n),
    }
}

/// A generator of `rows` stops at the first refusal: as long as it goes on nothing has been
/// refused, and where it stops because the receiver has gone away, exactly the batch that follows
/// those taken has been.
pub open spec fn stopped_at_refusal(
    before: JobSender,
    after: JobSender,
    rows: Seq<Seq<Value>>,
    end: PumpEnd,
) -> bool {
    match end {
        PumpEnd::Exhausted => after.refused() == before.refused(),
        PumpEnd::Disconnected => after.refused() == before.refused().push(
            batches(rows)[after.accepted().len() - before.accepted().len()],
        ),
    }
}

/// How many of its `n` rows a source has given when a generator stops after the channel has taken
/// `taken` chunks: all of them, or those of the chunks taken and of the one refused. Nothing is
/// drawn ahead.
pub open spec fn drawn_rows(n: nat, taken: int, end: PumpEnd) -> int {
    match end {
        PumpEnd::Exhausted => n as int,
        PumpEnd::Disconnected => drawn_batches(n, taken + 1),
    }
}

/// How many of `n` rows the first `k` batches take.
pub open spec fn drawn_batches(n: nat, k: int) -> int {
    if BATCH_SIZE * k < n {
        BATCH_SIZE * k
    } else {
        n as int
    }
}

/// One step of a generator: takes the next batch out of `source` and hands it to the channel.
/// Tells why the generator has to stop, or nothing where it goes on.
pub fn pump_step<S: RowSource>(source: &mut S, out: &mut JobSender) -> (end: Option<PumpEnd>)
    requires
        old(source).ready(),
        old(out).table() == S::table(),
    ensures
        final(source).ready(),
        final(source).pending() == old(source).pending().skip(
            batch_len(old(source).pending().len()) as int,
        ),
        end == Some(PumpEnd::Exhausted) <==> old(source).pending().len() == 0,
        final(out).table() == old(out).table(),
        old(out).conforming() ==> final(out).conforming(),
        final(out).accepted() == if end is None {
            old(out).accepted().push(
                pending_stored(*old(source)).take(batch_len(old(source).pending().len()) as int),
            )
        } else {
            old(out).accepted()
        },
        final(out).refused() == if end == Some(PumpEnd::Disconnected) {
            old(out).refused().push(
                pending_stored(*old(source)).take(batch_len(old(source).pending().len()) as int),
            )
        } else {
            old(out).refused()
        },
{
    let ghost pending = source.pending();
    match next_job(source) {
        None => {
            assert(pending.skip(0) =~= pending);
            Some(PumpEnd::Exhausted)
        },
        Some(job) => if out.send(job) {
            None
        } else {
            Some(PumpEnd::Disconnected)
        },
    }
}

/// Sends the rows of `source`, batch by batch. Stops when the partition is exhausted or the
/// receiver has gone away.
pub fn pump<S: RowSource>(source: &mut S, out: &mut JobSender) -> (end: PumpEnd)
    requires
        old(source).ready(),
        old(out).table() == S::table(),
    ensures
        final(source).ready(),
        final(source).pending() == old(source).pending().skip(
            drawn_rows(
                old(source).pending().len(),
                final(out).accepted().len() - old(out).accepted().len(),
                end,
            ),
        ),
        final(out).table() == old(out).table(),
        old(out).conforming() ==> final(out).conforming(),
        pumped(old(out).accepted(), final(out).accepted(), pending_stored(*old(source)), end),
        stopped_at_refusal(*old(out), *final(out), pending_stored(*old(source)), end),
{
    let ghost before = out.accepted();
    let ghost pending = source.pending();
    let ghost all = batches(pending_stored(*source));
    assert(before + all.take(0) =~= before);
    assert(all.skip(0) =~= all);
    assert(pending.skip(0) =~= pending);
    let ghost mut sent: int = 0;
    loop
        invariant
            source.ready(),
            before == old(out).accepted(),
            out.table() == S::table(),
            out.table() == old(out).table(),
            old(out).conforming() ==> out.conforming(),
            pending == old(source).pending(),
            all == batches(pending_stored(*old(source))),
            0 <= sent <= all.len(),
            source.pending() == pending.skip(drawn_batches(pending.len(), sent)),
            all.skip(sent) == batches(pending_stored(*source)),
            out.accepted() == before + all.take(sent),
            out.refused() == old(out).refused(),
        decreases source.pending().len(),
    {
        let ghost rows = pending_stored(*source);
        let ghost n = batch_len(rows.len()) as int;
        let end = pump_step(source, out);
        proof {
            assert(source.pending() =~= pending.skip(drawn_batches(pending.len(), sent + 1)));
            if rows.len() == 0 {
                assert(all.take(sent) =~= all);
                assert(source.pending() =~= pending.skip(pending.len() as int));
            } else {
                assert(all.skip(sent)[0] == rows.take(n));
                assert(pending_stored(*source) =~= rows.skip(n));
                assert(all.skip(sent + 1) =~= all.skip(sent).skip(1));
                assert(all.skip(sent).skip(1) =~= batches(rows.skip(n)));
                assert(all.take(sent + 1) =~= all.take(sent).push(rows.take(n)));
            }
        }
        match end {
            Some(end) => {
                return end;
            },
            None => {
                proof {
                    sent = sent + 1;
                }
            },
        }
    }
}

/// A batch is as large as it can be: all the rows that are left, unless that is more than 2048.
pub proof fn batches_are_as_large_as_they_can_be(n: nat)
    ensures
        batch_len(n) <= n,
        batch_len(n) <= 2048,
        batch_len(n) == n || batch_len(n) == 2048,
{
}

/// The rows that have been drawn after some batches are those in the batches.
pub proof fn drawn_rows_are_those_of_the_batches(rows: Seq<Seq<Value>>, k: int)
    requires
        0 <= k <= batches(rows).len(),
    ensures
        drawn_batches(rows.len(), k) == batches(rows).take(k).flatten().len(),
    decreases rows.len(),
{
    if k == 0 {
        assert(batches(rows).take(0).flatten().len() == 0);
    } else {
        let n = batch_len(rows.len()) as int;
        let later = batches(rows.skip(n));
        drawn_rows_are_those_of_the_batches(rows.skip(n), k - 1);
        let taken = batches(rows).take(k);
        assert(taken.first() == rows.take(n));
        assert(taken.drop_first() =~= later.take(k - 1));
    }
}

/// A generator that comes to its end has drawn every row; one that is refused has drawn the rows
/// of the chunks taken and of the one refused, and no other.
pub proof fn nothing_is_drawn_ahead(rows: Seq<Seq<Value>>, taken: int)
    requires
        0 <= taken < batches(rows).len(),
    ensures
        drawn_rows(rows.len(), batches(rows).len() as int, PumpEnd::Exhausted) == rows.len(),
        drawn_rows(rows.len(), taken, PumpEnd::Disconnected) == batches(rows).take(
            taken,
        ).flatten().len() + batches(rows)[taken].len(),
{
    drawn_rows_are_those_of_the_batches(rows, taken + 1);
    assert(batches(rows).take(taken + 1) =~= batches(rows).take(taken).push(batches(rows)[taken]));
    batches(rows).take(taken).lemma_flatten_push(batches(rows)[taken]);
}

} // verus!
