//! Emptying a channel, one listed batch at a time.

use vstd::prelude::*;

verus! {

/// What to do once a batch of the channel's messages has been listed.
#[derive(Debug, PartialEq, Eq, Clone)]
pub enum PurgeStep {
    /// Delete these messages in one request, then list again.
    Delete { message_ids: Vec<u64> },
    /// The channel is empty: the purge is over.
    Finished,
}

/// What listing a channel returns: its first messages, `batch_size` of them
/// at most.
pub open spec fn listed(channel: Seq<u64>, batch_size: nat) -> Seq<u64> {
    if channel.len() <= batch_size {
        channel
    } else {
        channel.take(batch_size as int)
    }
}

/// A purge stops on the first empty batch.
pub open spec fn stops_on(batch: Seq<u64>) -> bool {
    batch.len() == 0
}

/// How many times a purge lists and deletes before the channel is empty.
pub open spec fn round_trips(channel: Seq<u64>, batch_size: nat) -> nat
    decreases channel.len(),
{
    let batch = listed(channel, batch_size);
    if stops_on(batch) {
        0
    } else {
        1 + round_trips(channel.skip(batch.len() as int), batch_size)
    }
}

/// What a purge leaves in the channel.
pub open spec fn left_behind(channel: Seq<u64>, batch_size: nat) -> Seq<u64>
    decreases channel.len(),
{
    let batch = listed(channel, batch_size);
    if stops_on(batch) {
        channel
    } else {
        left_behind(channel.skip(batch.len() as int), batch_size)
    }
}

/// One step of the purge: an empty batch ends it, any other batch is
/// deleted whole.
pub fn delete_all_messages(batch: Vec<u64>) -> (step: PurgeStep)
    ensures
        match step {
            PurgeStep::Delete { message_ids } => !stops_on(batch@) && message_ids@ == batch@,
            PurgeStep::Finished => stops_on(batch@),
        },
{
    if batch.is_empty() {
        PurgeStep::Finished
    } else {
        PurgeStep::Delete { message_ids: batch }
    }
}

/// A purge of a channel of `n` messages, listed `batch_size` at a time,
/// ends, leaves nothing, and lists and deletes `n / batch_size` times,
/// rounded up.
pub proof fn law_purge_empties_channel(channel: Seq<u64>, batch_size: nat)
    requires
        batch_size > 0,
    ensures
        left_behind(channel, batch_size).len() == 0,
        round_trips(channel, batch_size) == (channel.len() + batch_size - 1) / (batch_size as int),
    decreases channel.len(),
{
    let n = channel.len() as int;
    let b = batch_size as int;
    let batch = listed(channel, batch_size);
    if stops_on(batch) {
        assert((n + b - 1) / b == 0) by (nonlinear_arith)
            requires
                n == 0,
                b > 0,
        ;
    } else {
        let rest = channel.skip(batch.len() as int);
        law_purge_empties_channel(rest, batch_size);
        if n <= b {
            assert(rest.len() == 0);
            assert((n + b - 1) / b == 1) by (nonlinear_arith)
                requires
                    0 < n <= b,
            ;
            assert((0 + b - 1) / b == 0) by (nonlinear_arith)
                requires
                    b > 0,
            ;
        } else {
            assert(rest.len() == n - b);
            assert((n + b - 1) / b == 1 + (n - b + b - 1) / b) by (nonlinear_arith)
                requires
                    b > 0,
            ;
        }
    }
}

} // verus!
