//! Laws of the replay engine over sequences of effects and attempts.
//!
//! An attempt is modelled as a run of effects: `fresh[i]` is what performing
//! the `i`-th effect anew would give; whether it is actually used is decided
//! by the log alone.
use crate::abi::{ContentModel, MessageModel, ResponseModel};
use crate::guest::{decoded_response, valid_status, ReceivedModel};
use crate::state::{effect, fresh_entry, mark_failed, next_attempt, replays, ExecutionModel, LogEntry};
use vstd::prelude::*;

verus! {

/// The attempt after its first `i` effects.
pub open spec fn after(e: ExecutionModel, fresh: Seq<MessageModel>, i: nat) -> ExecutionModel
    decreases i,
{
    if i == 0 {
        e
    } else {
        effect(after(e, fresh, (i - 1) as nat), fresh[i - 1]).1
    }
}

/// The response the guest observes for its `i`-th effect.
pub open spec fn reply(e: ExecutionModel, fresh: Seq<MessageModel>, i: nat) -> MessageModel {
    effect(after(e, fresh, i), fresh[i as int]).0
}

/// Every effect advances the cursor by exactly one, whichever branch it takes,
/// and never shortens the log.
pub proof fn lemma_cursor_advances(e: ExecutionModel, fresh: MessageModel)
    ensures
        effect(e, fresh).1.position == e.position + 1,
        effect(e, fresh).1.log.len() >= e.log.len(),
{
}

/// After `i` effects the cursor has moved by `i`, the log is no shorter, and
/// the entries not yet reached are untouched.
pub proof fn lemma_run_prefix(e: ExecutionModel, fresh: Seq<MessageModel>, i: nat)
    requires
        e.position <= e.log.len(),
    ensures
        after(e, fresh, i).position == e.position + i,
        after(e, fresh, i).log.len() >= e.log.len(),
        after(e, fresh, i).position <= after(e, fresh, i).log.len(),
        forall|p: int|
            e.position + i <= p < e.log.len() ==> #[trigger] after(e, fresh, i).log[p] == e.log[p],
    decreases i,
{
    if i > 0 {
        lemma_run_prefix(e, fresh, (i - 1) as nat);
    }
}

/// Replay determinism: in an attempt that starts from a log, every position
/// whose entry stands as a success returns exactly the recorded response,
/// whatever performing it anew would have given, and its entry stays as it
/// was: nothing is performed there.
pub proof fn lemma_replay_determinism(log: Seq<LogEntry>, fresh: Seq<MessageModel>, p: nat)
    requires
        p < log.len(),
        p < fresh.len(),
        log[p as int].success,
    ensures
        reply(ExecutionModel { position: 0, log }, fresh, p) == log[p as int].message,
        after(ExecutionModel { position: 0, log }, fresh, p + 1).log[p as int] == log[p as int],
{
    let e = ExecutionModel { position: 0, log };
    lemma_run_prefix(e, fresh, p);
    assert(after(e, fresh, p).log[p as int] == log[p as int]);
    assert(after(e, fresh, p + 1) == effect(after(e, fresh, p), fresh[p as int]).1);
}

/// Targeted retry: once the entries carrying correlation id `id` are marked
/// failed, the next attempt performs the effect at such a position anew and
/// records the fresh outcome as a success, while every other position that
/// stood as a success is replayed unchanged.
pub proof fn lemma_targeted_retry(
    attempts: Seq<ExecutionModel>,
    id: Seq<char>,
    fresh: Seq<MessageModel>,
    p: nat,
)
    requires
        attempts.len() > 0,
        p < attempts.last().log.len(),
        p < fresh.len(),
    ensures
        ({
            let old_log = attempts.last().log;
            let e = ExecutionModel {
                position: 0,
                log: mark_failed(old_log, id),
            };
            &&& old_log[p as int].message.id == id ==> {
                &&& reply(e, fresh, p) == fresh[p as int]
                &&& after(e, fresh, p + 1).log[p as int] == fresh_entry(fresh[p as int])
            }
            &&& (old_log[p as int].message.id != id && old_log[p as int].success) ==> reply(
                e,
                fresh,
                p,
            ) == old_log[p as int].message
        }),
{
    let old_log = attempts.last().log;
    let e = ExecutionModel { position: 0, log: mark_failed(old_log, id) };
    lemma_run_prefix(e, fresh, p);
    assert(after(e, fresh, p).log[p as int] == mark_failed(old_log, id)[p as int]);
    assert(after(e, fresh, p).position == p);
    assert(after(e, fresh, p + 1) == effect(after(e, fresh, p), fresh[p as int]).1);
}

/// Log growth: a new attempt starts with the latest attempt's whole log,
/// marking failures keeps its length, and running effects never shortens it.
pub proof fn lemma_log_growth(
    attempts: Seq<ExecutionModel>,
    id: Seq<char>,
    fresh: Seq<MessageModel>,
    i: nat,
)
    requires
        attempts.len() > 0,
        attempts.last().position <= attempts.last().log.len(),
    ensures
        next_attempt(attempts).log.len() == attempts.last().log.len(),
        mark_failed(attempts.last().log, id).len() == attempts.last().log.len(),
        after(next_attempt(attempts), fresh, i).log.len() >= attempts.last().log.len(),
        after(attempts.last(), fresh, i).log.len() >= attempts.last().log.len(),
{
    lemma_run_prefix(next_attempt(attempts), fresh, i);
    lemma_run_prefix(attempts.last(), fresh, i);
}

/// Lineage: two runs from the same log that face the same outcomes wherever
/// an effect is actually performed end with identical logs and observe
/// identical responses. Draws from generators seeded alike are such outcomes.
pub proof fn lemma_lineage(
    e: ExecutionModel,
    f1: Seq<MessageModel>,
    f2: Seq<MessageModel>,
    i: nat,
)
    requires
        forall|j: nat| j < i && !replays(#[trigger] after(e, f1, j)) ==> f1[j as int] == f2[j as int],
    ensures
        after(e, f1, i) == after(e, f2, i),
        forall|j: nat| j < i ==> #[trigger] reply(e, f1, j) == reply(e, f2, j),
    decreases i,
{
    if i > 0 {
        let k = (i - 1) as nat;
        lemma_lineage(e, f1, f2, k);
        assert(!replays(after(e, f1, k)) ==> f1[k as int] == f2[k as int]);
        assert forall|j: nat| j < i implies #[trigger] reply(e, f1, j) == reply(e, f2, j) by {
            if j < k {
                assert(reply(e, f1, j) == reply(e, f2, j));
            }
        }
    }
}

/// Round trip: an HTTP outcome recorded at the cursor and later replayed from
/// the log decodes, on the guest side, to the same status, version, headers,
/// content length, url and body, under the correlation id it was recorded with.
pub proof fn lemma_http_round_trip(
    e: ExecutionModel,
    id: Seq<char>,
    resp: ResponseModel,
    later: MessageModel,
)
    requires
        valid_status(resp.status),
        e.position <= e.log.len(),
        !replays(e),
    ensures
        ({
            let m = MessageModel { id, content: ContentModel::HttpResponse(Ok(resp)) };
            let recorded = effect(e, m);
            let replayed = effect(
                ExecutionModel { position: e.position, log: recorded.1.log },
                later,
            );
            &&& decoded_response(recorded.0) == Some(ReceivedModel { id, response: resp })
            &&& decoded_response(replayed.0) == Some(ReceivedModel { id, response: resp })
        }),
{
}

} // verus!
