//! The cross-operation guarantees of the boundary, proved once and for all
//! over the in-memory host's transition relations.
//!
//! Each lemma's hypotheses are exactly the postconditions of the operations
//! it chains, so any real run of those operations satisfies them.

use vstd::prelude::*;
use crate::handler::Handler;
use crate::memory::{
    call_feedback_spec, call_trap_step, create_feedback_spec, create_trap_step, entered_step,
    lemma_take_before_push, log_step, popped_call_moved, popped_call_only, popped_create_deployed,
    popped_create_only, reverted_step, storage_step, transfer_only_step, MemoryHandler,
    CallOutcome, CreateOutcome,
};
use crate::types::{BlockEnv, Context, CreateScheme, ExitError, H160, H256, Transfer};
use crate::uint::U256;

verus! {

/// Revert atomicity: a frame that wrote a storage slot, emitted a log and
/// moved value, and was then left by revert, leaves the whole observable
/// world exactly as it was at frame entry, while gas and the outstanding
/// traps are untouched by the revert itself.
///
/// `h0` is the state at frame entry, `h5` the state after the revert; the
/// hypotheses are the postconditions of the five operations in between.
pub proof fn lemma_revert_atomicity(
    h0: MemoryHandler,
    h1: MemoryHandler,
    h2: MemoryHandler,
    h3: MemoryHandler,
    h4: MemoryHandler,
    h5: MemoryHandler,
    is_static: bool,
    address: H160,
    index: H256,
    value: H256,
    entry: (H160, Vec<H256>, Vec<u8>),
    t: Transfer,
)
    requires
        entered_step(h0, h1, is_static),
        storage_step(h1, h2, address, index, value),
        log_step(h2, h3, entry),
        transfer_only_step(h3, h4, t),
        reverted_step(h4, h5),
    ensures
        h0.same_world(&h5),
        h5.gas == h0.gas,
        h5.frames@ == h0.frames@,
        h5.pending_calls@ == h0.pending_calls@,
        h5.pending_creates@ == h0.pending_creates@,
{
    let f = h4.frames@.last();
    assert(h4.frames@ == h1.frames@);
    assert(f.storage_mark == h0.storage_writes@.len());
    assert(f.balance_mark == h0.balance_writes@.len());
    assert(f.logs_mark == h0.logs@.len());

    assert(h4.storage_writes@ == h0.storage_writes@.push(((address, index), value)));
    lemma_take_before_push(h0.storage_writes@, ((address, index), value));
    assert(h5.storage_writes@ =~= h0.storage_writes@);

    assert(h4.balance_writes@.take(h0.balance_writes@.len() as int) == h0.balance_writes@);
    assert(h5.balance_writes@ =~= h0.balance_writes@);

    assert(h4.logs@ == h0.logs@.push(entry));
    lemma_take_before_push(h0.logs@, entry);
    assert(h5.logs@ =~= h0.logs@);

    assert(h5.code_writes@ =~= h0.code_writes@);
    assert(h5.deletes@ =~= h0.deletes@);
    assert(h5.created@ =~= h0.created@);
    assert(h5.frames@ =~= h0.frames@);

    assert forall|a: H160, i: H256| #[trigger] h5.storage_at(a, i) == h0.storage_at(a, i) by {}
    assert forall|a: H160, i: H256|
        #[trigger] h5.original_storage_at(a, i) == h0.original_storage_at(a, i) by {}
    assert forall|a: H160| #[trigger] h5.balance_of(a) == h0.balance_of(a) by {}
    assert forall|a: H160| #[trigger] h5.code_of(a) == h0.code_of(a) by {}
    assert forall|a: H160| #[trigger] h5.code_hash_of(a) == h0.code_hash_of(a) by {}
    assert forall|a: H160| #[trigger] h5.deleted_of(a) == h0.deleted_of(a) by {}
    assert forall|a: H160| #[trigger] h5.exists_of(a) == h0.exists_of(a) by {}
    assert(h5.logs_of() == h0.logs_of());
}

/// Trap/feedback pairing for calls: starting with no outstanding call trap,
/// one trap admits exactly one feedback — the first is consumed, and a
/// second feedback for the same trap is rejected as unpaired and changes
/// nothing.
pub proof fn lemma_call_feedback_pairing(
    h0: MemoryHandler,
    h1: MemoryHandler,
    h2: MemoryHandler,
    h3: MemoryHandler,
    code_address: H160,
    transfer: Option<Transfer>,
    input: Seq<u8>,
    target_gas: Option<usize>,
    eff_static: bool,
    context: Context,
    fb1: CallOutcome,
    r1: Result<(), ExitError>,
    fb2: CallOutcome,
    r2: Result<(), ExitError>,
)
    requires
        h0.pending_calls@.len() == 0,
        call_trap_step(h0, h1, code_address, transfer, input, target_gas, eff_static, context),
        call_feedback_spec(h1, h2, fb1, r1),
        r1 is Ok,
        call_feedback_spec(h2, h3, fb2, r2),
    ensures
        h1.pending_call_traps() == 1,
        h2.pending_call_traps() == 0,
        r2 == Err::<(), ExitError>(ExitError::UnpairedFeedback),
        h3 == h2,
{
    assert(h1.pending_calls@.len() == 1);
    if popped_call_only(h1, h2) {
        assert(h2.pending_calls@.len() == 0);
    } else {
        assert(h2.pending_calls@.len() == 0);
    }
}

/// Trap/feedback pairing for creations, mirror of the call case.
pub proof fn lemma_create_feedback_pairing(
    h0: MemoryHandler,
    h1: MemoryHandler,
    h2: MemoryHandler,
    h3: MemoryHandler,
    caller: H160,
    scheme: CreateScheme,
    value: U256,
    init_code: Seq<u8>,
    target_gas: Option<usize>,
    fb1: CreateOutcome,
    r1: Result<(), ExitError>,
    fb2: CreateOutcome,
    r2: Result<(), ExitError>,
)
    requires
        h0.pending_creates@.len() == 0,
        create_trap_step(h0, h1, caller, scheme, value, init_code, target_gas),
        create_feedback_spec(h1, h2, fb1, r1),
        r1 is Ok,
        create_feedback_spec(h2, h3, fb2, r2),
    ensures
        h1.pending_create_traps() == 1,
        h2.pending_create_traps() == 0,
        r2 == Err::<(), ExitError>(ExitError::UnpairedFeedback),
        h3 == h2,
{
    assert(h1.pending_creates@.len() == 1);
    if popped_create_only(h1, h2) {
        assert(h2.pending_creates@.len() == 0);
    } else {
        assert(h2.pending_creates@.len() == 0);
    }
}

} // verus!
