//! The chain event listener's state machine and slot bookkeeping.
//!
//! The listener polls the chain height and processes each newly observed
//! slot in ascending order.  The decisions — when to spawn, when to back
//! off, which slots to process, when to exit — are all here as pure
//! transitions; the loop that performs the waiting and the RPC calls
//! runs outside the library and feeds the outcomes back in.

use vstd::prelude::*;
use crate::errors::AppError;

verus! {

/// A typed domain event derived from chain activity.  Each event carries
/// the chain slot and transaction signature as its identity, and its
/// timestamp as a Unix value in seconds.
#[derive(Debug, Clone)]
pub enum TransactionEvent {
    TokenTransfer {
        signature: String,
        from: String,
        to: String,
        mint: String,
        amount: u64,
        slot: u64,
        timestamp: i64,
    },
    TokenSwap {
        signature: String,
        user: String,
        token_in: String,
        token_out: String,
        amount_in: u64,
        amount_out: u64,
        slot: u64,
        timestamp: i64,
    },
    TokenMint {
        signature: String,
        mint: String,
        authority: String,
        supply: u64,
        decimals: u8,
        slot: u64,
        timestamp: i64,
    },
}

/// How far behind the chain head a cold listener starts.
pub const BACKFILL_SLOTS: u64 = 10;

/// Seconds the polling loop sleeps after a failed height query.
pub const QUERY_FAILURE_BACKOFF_SECONDS: u64 = 10;

/// The listener's shared state: the running flag the tasks observe, and
/// the last slot the polling task has processed (zero until seeded).
pub struct ListenerState {
    pub running: bool,
    pub last_processed_slot: u64,
}

/// What the polling task does on one tick.
#[derive(Debug, Clone, Copy, PartialEq, Eq, Structural)]
pub enum PollAction {
    /// The listener was stopped: leave the loop.
    Exit,
    /// The height query failed: sleep before retrying.
    Backoff { seconds: u64 },
    /// Process every slot in `(after, upto]`, in ascending order.
    ProcessSlots { after: u64, upto: u64 },
}

/// The `start` transition: the listener is running afterwards, and
/// `started` reports whether this call flipped the flag — the caller
/// spawns the task pair only in that case.
pub open spec fn spec_start(pre: ListenerState, post: ListenerState, started: bool) -> bool {
    &&& post.running
    &&& started == !pre.running
    &&& post.last_processed_slot == pre.last_processed_slot
}

/// The `stop` transition: the listener is not running afterwards.
pub open spec fn spec_stop(pre: ListenerState, post: ListenerState) -> bool {
    &&& !post.running
    &&& post.last_processed_slot == pre.last_processed_slot
}

/// The slot the polling window opens after, given the previous
/// bookkeeping and the queried height: a cold listener backfills a small
/// window rather than the whole chain.
pub open spec fn spec_effective_last(last: u64, current: u64) -> u64 {
    if last == 0 {
        if current >= BACKFILL_SLOTS {
            (current - BACKFILL_SLOTS) as u64
        } else {
            0u64
        }
    } else {
        last
    }
}

impl ListenerState {
    /// A stopped listener with no slot processed yet.
    pub fn new() -> (r: Self)
        ensures
            !r.running,
            r.last_processed_slot == 0,
    {
        ListenerState { running: false, last_processed_slot: 0 }
    }

    /// Starts the listener.  Idempotent: a second call without an
    /// intervening stop reports `false`, and the caller spawns nothing.
    pub fn start(&mut self) -> (started: bool)
        ensures
            spec_start(*old(self), *final(self), started),
    {
        let was_running = self.running;
        self.running = true;
        !was_running
    }

    /// Stops the listener.  The polling task observes the flag at its
    /// next tick, so shutdown is not instantaneous.
    pub fn stop(&mut self)
        ensures
            spec_stop(*old(self), *final(self)),
    {
        self.running = false;
    }

    /// Whether the listener is running.
    pub fn is_listening(&self) -> (r: bool)
        ensures
            r == self.running,
    {
        self.running
    }

    /// One polling tick, fed the outcome of the height query: a stopped
    /// listener exits; a failed query backs off without touching the
    /// bookkeeping; a successful query advances the bookkeeping to the
    /// queried height and yields the window of slots to process.
    pub fn on_poll_tick(&mut self, slot_query: Option<u64>) -> (a: PollAction)
        ensures
            !old(self).running ==> (a is Exit && *final(self) == *old(self)),
            old(self).running && slot_query is None ==> (a matches PollAction::Backoff { seconds }
                && seconds == QUERY_FAILURE_BACKOFF_SECONDS && *final(self) == *old(self)),
            old(self).running ==> match slot_query {
                Some(current) => (a matches PollAction::ProcessSlots { after, upto } && after
                    == spec_effective_last(old(self).last_processed_slot, current) && upto
                    == current && final(self).running && final(self).last_processed_slot
                    == current),
                None => true,
            },
    {
        if !self.running {
            return PollAction::Exit;
        }
        match slot_query {
            None => PollAction::Backoff { seconds: QUERY_FAILURE_BACKOFF_SECONDS },
            Some(current) => {
                let after = if self.last_processed_slot == 0 {
                    if current >= BACKFILL_SLOTS {
                        current - BACKFILL_SLOTS
                    } else {
                        0
                    }
                } else {
                    self.last_processed_slot
                };
                self.last_processed_slot = current;
                PollAction::ProcessSlots { after, upto: current }
            }
        }
    }
}

/// The slots of the window `(after, upto]`, in strictly ascending order.
pub fn slots_in_range(after: u64, upto: u64) -> (r: Vec<u64>)
    requires
        upto - after <= usize::MAX,
    ensures
        after >= upto ==> r@.len() == 0,
        after < upto ==> r@.len() == upto - after,
        forall|k: int| 0 <= k < r@.len() ==> #[trigger] r@[k] == after + 1 + k,
        forall|k1: int, k2: int| 0 <= k1 < k2 < r@.len() ==> r@[k1] < r@[k2],
{
    let mut out: Vec<u64> = Vec::new();
    if after >= upto {
        return out;
    }
    let mut slot = after;
    while slot < upto
        invariant
            after <= slot <= upto,
            out@.len() == slot - after,
            forall|k: int| 0 <= k < out@.len() ==> #[trigger] out@[k] == after + 1 + k,
        decreases upto - slot,
    {
        slot = slot + 1;
        out.push(slot);
    }
    out
}

// ---------------------------------------------------------------------------
// Laws of the listener lifecycle
// ---------------------------------------------------------------------------

/// Two starts without an intervening stop spawn exactly one task pair:
/// whatever the first call reported, the second reports `false`.
pub proof fn lemma_second_start_spawns_nothing(
    s0: ListenerState,
    s1: ListenerState,
    started1: bool,
    s2: ListenerState,
    started2: bool,
)
    requires
        spec_start(s0, s1, started1),
        spec_start(s1, s2, started2),
    ensures
        !started2,
{
}

/// After a stop, the listener reports itself stopped, and the polling
/// task exits at its next tick whatever the height query returned.
pub proof fn lemma_stop_is_observed(s0: ListenerState, s1: ListenerState)
    requires
        spec_stop(s0, s1),
    ensures
        !s1.running,
{
}

// ---------------------------------------------------------------------------
// Transaction parsing
// ---------------------------------------------------------------------------

#[verifier::external_type_specification]
#[verifier::external_body]
pub struct ExJsonValue(serde_json::Value);

/// Decodes raw transactions into typed events.  Instruction-level
/// decoding of arbitrary programs is outside this layer's scope, so each
/// parser inspects nothing and reports no event.
pub struct TransactionParser;

impl TransactionParser {
    pub fn parse_token_transfer(signature: &str, transaction_data: &serde_json::Value) -> (r:
        Result<Option<TransactionEvent>, AppError>)
        ensures
            r matches Ok(None),
    {
        let _ = signature;
        let _ = transaction_data;
        Ok(None)
    }

    pub fn parse_token_swap(signature: &str, transaction_data: &serde_json::Value) -> (r: Result<
        Option<TransactionEvent>,
        AppError,
    >)
        ensures
            r matches Ok(None),
    {
        let _ = signature;
        let _ = transaction_data;
        Ok(None)
    }

    pub fn parse_token_mint(signature: &str, transaction_data: &serde_json::Value) -> (r: Result<
        Option<TransactionEvent>,
        AppError,
    >)
        ensures
            r matches Ok(None),
    {
        let _ = signature;
        let _ = transaction_data;
        Ok(None)
    }
}

} // verus!
