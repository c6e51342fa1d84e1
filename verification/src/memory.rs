//! A journal-based in-memory host.
//!
//! [`MemoryHandler`] keeps the state as of transaction start in immutable
//! vectors and records every mutation in append-only journals, newest entry
//! last.  A frame remembers the journal lengths at entry, so committing a
//! frame keeps the journals and reverting truncates them — which is how
//! revert atomicity is proved.  Anything that would require running bytecode
//! (a call into code, a constructor) is deferred through a trap and resolved
//! by feedback; everything else completes synchronously.

use vstd::prelude::*;
use crate::types::{
    BlockEnv, Capture, Context, CreateScheme, ExitError, ExitReason, ExitSucceed, ExternalOpcode,
    H160, H256, Opcode, Stack, Transfer,
};
use crate::uint::{lemma_u256_bound, u256_bound, U256};
use crate::handler::{
    call_exit_error, create_exit_error, gas_exceeded, transfer_has_value, Handler,
};

verus! {

/// The newest value bound to `key` in an append-only journal.
pub open spec fn assoc_last<K, V>(entries: Seq<(K, V)>, key: K) -> Option<V>
    decreases entries.len(),
{
    if entries.len() == 0 {
        None
    } else if entries.last().0 == key {
        Some(entries.last().1)
    } else {
        assoc_last(entries.drop_last(), key)
    }
}

/// Stepping an `assoc_last` scan past a non-matching entry.
pub proof fn lemma_assoc_skip<K, V>(entries: Seq<(K, V)>, j: int, key: K)
    requires
        0 <= j < entries.len(),
        entries[j].0 != key,
    ensures
        assoc_last(entries.take(j + 1), key) == assoc_last(entries.take(j), key),
{
    assert(entries.take(j + 1).drop_last() =~= entries.take(j));
    assert(entries.take(j + 1).last() == entries[j]);
}

/// Stopping an `assoc_last` scan at a matching entry.
pub proof fn lemma_assoc_hit<K, V>(entries: Seq<(K, V)>, j: int, key: K)
    requires
        0 <= j < entries.len(),
        entries[j].0 == key,
    ensures
        assoc_last(entries.take(j + 1), key) == Some(entries[j].1),
{
    assert(entries.take(j + 1).last() == entries[j]);
}

/// Appending an entry binds its own key.
pub proof fn lemma_assoc_push_same<K, V>(entries: Seq<(K, V)>, key: K, value: V)
    ensures
        assoc_last(entries.push((key, value)), key) == Some(value),
{
    assert(entries.push((key, value)).last() == (key, value));
}

/// Appending an entry leaves every other key as it was.
pub proof fn lemma_assoc_push_other<K, V>(entries: Seq<(K, V)>, key: K, value: V, other: K)
    requires
        other != key,
    ensures
        assoc_last(entries.push((key, value)), other) == assoc_last(entries, other),
{
    assert(entries.push((key, value)).drop_last() =~= entries);
    assert(entries.push((key, value)).last() == (key, value));
}

/// Truncating to the length before a push recovers the journal.
pub proof fn lemma_take_before_push<T>(entries: Seq<T>, entry: T)
    ensures
        entries.push(entry).take(entries.len() as int) =~= entries,
{
}

/// Journal marks taken when a frame is entered, plus its effective static
/// flag.
#[derive(Clone, Copy, Debug, PartialEq, Eq, Structural)]
pub struct Frame {
    /// Whether this frame, or any enclosing one, is read-only.
    pub is_static: bool,
    /// Length of the storage journal at entry.
    pub storage_mark: usize,
    /// Length of the balance journal at entry.
    pub balance_mark: usize,
    /// Length of the code journal at entry.
    pub code_mark: usize,
    /// Length of the log ledger at entry.
    pub logs_mark: usize,
    /// Length of the deletion journal at entry.
    pub deletes_mark: usize,
    /// Length of the created-accounts journal at entry.
    pub created_mark: usize,
}

/// A deferred call, kept by the handler until its feedback arrives.
#[derive(Clone, Debug)]
pub struct CallRequest {
    /// Address whose code is to run.
    pub code_address: H160,
    /// Value movement to apply if the sub-execution succeeds.
    pub transfer: Option<Transfer>,
    /// Call data.
    pub input: Vec<u8>,
    /// Gas offered to the sub-execution.
    pub target_gas: Option<usize>,
    /// Whether the nested frame is read-only.
    pub is_static: bool,
    /// Context for the nested frame.
    pub context: Context,
}

/// A deferred creation, kept by the handler until its feedback arrives.
#[derive(Clone, Debug)]
pub struct CreateRequest {
    /// The creating address.
    pub caller: H160,
    /// Address-derivation mode.
    pub scheme: CreateScheme,
    /// Value to move to the new account.
    pub value: U256,
    /// Constructor code.
    pub init_code: Vec<u8>,
    /// Gas offered to the sub-execution.
    pub target_gas: Option<usize>,
}

/// Token for one deferred call: the position of its request in the pending
/// journal.
#[derive(Clone, Copy, Debug, PartialEq, Eq, Structural)]
pub struct CallInterrupt {
    /// Index of the pending request.
    pub index: usize,
}

/// Token for one deferred creation: the position of its request in the
/// pending journal.
#[derive(Clone, Copy, Debug, PartialEq, Eq, Structural)]
pub struct CreateInterrupt {
    /// Index of the pending request.
    pub index: usize,
}

/// Resolution of a deferred call, delivered by the external scheduler.
#[derive(Clone, Debug)]
pub struct CallOutcome {
    /// How the sub-execution ended.
    pub reason: ExitReason,
    /// Its return data.
    pub output: Vec<u8>,
}

/// Resolution of a deferred creation, delivered by the external scheduler.
#[derive(Clone, Debug)]
pub struct CreateOutcome {
    /// How the sub-execution ended.
    pub reason: ExitReason,
    /// The derived address, when one was assigned.
    pub address: Option<H160>,
    /// The deployed bytecode.
    pub code: Vec<u8>,
}

/// Last-match lookup in the storage journal.
fn lookup_slot(entries: &Vec<((H160, H256), H256)>, address: H160, index: H256) -> (r: Option<
    H256,
>)
    ensures
        r == assoc_last(entries@, (address, index)),
{
    let mut j = entries.len();
    proof {
        assert(entries@.take(entries@.len() as int) =~= entries@);
    }
    while j > 0
        invariant
            j <= entries@.len(),
            assoc_last(entries@, (address, index)) == assoc_last(
                entries@.take(j as int),
                (address, index),
            ),
        decreases j,
    {
        j = j - 1;
        let e = entries[j];
        if e.0.0 == address && e.0.1 == index {
            proof {
                lemma_assoc_hit(entries@, j as int, (address, index));
                assert(entries@.take(j as int + 1) =~= entries@.take((j + 1) as int));
            }
            return Some(e.1);
        }
        proof {
            lemma_assoc_skip(entries@, j as int, (address, index));
            assert(entries@.take(j as int + 1) =~= entries@.take((j + 1) as int));
        }
    }
    proof {
        assert(entries@.take(0) =~= Seq::<((H160, H256), H256)>::empty());
    }
    None
}

/// Last-match lookup in an address-keyed journal of 256-bit words.
fn lookup_addr_u256(entries: &Vec<(H160, U256)>, address: H160) -> (r: Option<U256>)
    ensures
        r == assoc_last(entries@, address),
{
    let mut j = entries.len();
    proof {
        assert(entries@.take(entries@.len() as int) =~= entries@);
    }
    while j > 0
        invariant
            j <= entries@.len(),
            assoc_last(entries@, address) == assoc_last(entries@.take(j as int), address),
        decreases j,
    {
        j = j - 1;
        let e = entries[j];
        if e.0 == address {
            proof {
                lemma_assoc_hit(entries@, j as int, address);
                assert(entries@.take(j as int + 1) =~= entries@.take((j + 1) as int));
            }
            return Some(e.1);
        }
        proof {
            lemma_assoc_skip(entries@, j as int, address);
            assert(entries@.take(j as int + 1) =~= entries@.take((j + 1) as int));
        }
    }
    proof {
        assert(entries@.take(0) =~= Seq::<(H160, U256)>::empty());
    }
    None
}

/// Last-match lookup in an address-keyed journal of hashes.
fn lookup_addr_h256(entries: &Vec<(H160, H256)>, address: H160) -> (r: Option<H256>)
    ensures
        r == assoc_last(entries@, address),
{
    let mut j = entries.len();
    proof {
        assert(entries@.take(entries@.len() as int) =~= entries@);
    }
    while j > 0
        invariant
            j <= entries@.len(),
            assoc_last(entries@, address) == assoc_last(entries@.take(j as int), address),
        decreases j,
    {
        j = j - 1;
        let e = entries[j];
        if e.0 == address {
            proof {
                lemma_assoc_hit(entries@, j as int, address);
                assert(entries@.take(j as int + 1) =~= entries@.take((j + 1) as int));
            }
            return Some(e.1);
        }
        proof {
            lemma_assoc_skip(entries@, j as int, address);
            assert(entries@.take(j as int + 1) =~= entries@.take((j + 1) as int));
        }
    }
    proof {
        assert(entries@.take(0) =~= Seq::<(H160, H256)>::empty());
    }
    None
}

/// Last-match lookup in the deletion journal.
fn lookup_addr_addr(entries: &Vec<(H160, H160)>, address: H160) -> (r: Option<H160>)
    ensures
        r == assoc_last(entries@, address),
{
    let mut j = entries.len();
    proof {
        assert(entries@.take(entries@.len() as int) =~= entries@);
    }
    while j > 0
        invariant
            j <= entries@.len(),
            assoc_last(entries@, address) == assoc_last(entries@.take(j as int), address),
        decreases j,
    {
        j = j - 1;
        let e = entries[j];
        if e.0 == address {
            proof {
                lemma_assoc_hit(entries@, j as int, address);
                assert(entries@.take(j as int + 1) =~= entries@.take((j + 1) as int));
            }
            return Some(e.1);
        }
        proof {
            lemma_assoc_skip(entries@, j as int, address);
            assert(entries@.take(j as int + 1) =~= entries@.take((j + 1) as int));
        }
    }
    proof {
        assert(entries@.take(0) =~= Seq::<(H160, H160)>::empty());
    }
    None
}

/// Last-match lookup in a number-keyed journal of hashes.
fn lookup_u256_h256(entries: &Vec<(U256, H256)>, number: U256) -> (r: Option<H256>)
    ensures
        r == assoc_last(entries@, number),
{
    let mut j = entries.len();
    proof {
        assert(entries@.take(entries@.len() as int) =~= entries@);
    }
    while j > 0
        invariant
            j <= entries@.len(),
            assoc_last(entries@, number) == assoc_last(entries@.take(j as int), number),
        decreases j,
    {
        j = j - 1;
        let e = entries[j];
        if e.0 == number {
            proof {
                lemma_assoc_hit(entries@, j as int, number);
                assert(entries@.take(j as int + 1) =~= entries@.take((j + 1) as int));
            }
            return Some(e.1);
        }
        proof {
            lemma_assoc_skip(entries@, j as int, number);
            assert(entries@.take(j as int + 1) =~= entries@.take((j + 1) as int));
        }
    }
    proof {
        assert(entries@.take(0) =~= Seq::<(U256, H256)>::empty());
    }
    None
}

/// Index of the newest code entry for `address`.
fn lookup_code_index(entries: &Vec<(H160, Vec<u8>)>, address: H160) -> (r: Option<usize>)
    ensures
        match r {
            Some(j) => j < entries@.len() && assoc_last(entries@, address) == Some(
                entries@[j as int].1,
            ),
            None => assoc_last(entries@, address) is None,
        },
{
    let mut j = entries.len();
    proof {
        assert(entries@.take(entries@.len() as int) =~= entries@);
    }
    while j > 0
        invariant
            j <= entries@.len(),
            assoc_last(entries@, address) == assoc_last(entries@.take(j as int), address),
        decreases j,
    {
        j = j - 1;
        if entries[j].0 == address {
            proof {
                lemma_assoc_hit(entries@, j as int, address);
                assert(entries@.take(j as int + 1) =~= entries@.take((j + 1) as int));
            }
            return Some(j);
        }
        proof {
            lemma_assoc_skip(entries@, j as int, address);
            assert(entries@.take(j as int + 1) =~= entries@.take((j + 1) as int));
        }
    }
    proof {
        assert(entries@.take(0) =~= Seq::<(H160, Vec<u8>)>::empty());
    }
    None
}

/// Whether an address occurs in a plain list.
fn contains_addr(entries: &Vec<H160>, address: H160) -> (r: bool)
    ensures
        r == entries@.contains(address),
{
    let mut j: usize = 0;
    while j < entries.len()
        invariant
            j <= entries@.len(),
            forall|k: int| 0 <= k < j ==> entries@[k] != address,
        decreases entries@.len() - j,
    {
        if entries[j] == address {
            return true;
        }
        j = j + 1;
    }
    false
}

/// The zero word, the default for anything never written.
pub open spec fn h256_zero() -> H256 {
    H256 { hi: 0, lo: 0 }
}

/// The zero 256-bit integer.
pub open spec fn u256_zero() -> U256 {
    U256 { hi: 0, lo: 0 }
}

/// A fresh copy of a byte vector.
fn copy_bytes(src: &Vec<u8>) -> (r: Vec<u8>)
    ensures
        r@ == src@,
{
    let mut out: Vec<u8> = Vec::new();
    let mut j: usize = 0;
    while j < src.len()
        invariant
            j <= src@.len(),
            out@ == src@.take(j as int),
        decreases src@.len() - j,
    {
        out.push(src[j]);
        proof {
            assert(src@.take(j as int + 1) =~= src@.take(j as int).push(src@[j as int]));
        }
        j = j + 1;
    }
    proof {
        assert(src@.take(src@.len() as int) =~= src@);
    }
    out
}

/// A journal-based in-memory host: the `initial_*` vectors hold the world as
/// of transaction start and never change; every mutation appends to a
/// journal, and a slot's live value is its newest journal entry.
///
/// Code hashes are environment-supplied at construction (hashing itself is a
/// cryptographic concern outside this boundary), and anything that would
/// require running bytecode is deferred through a trap.
pub struct MemoryHandler {
    /// Environment constants.
    pub env: BlockEnv,
    /// Gas remaining; reverts do not restore it.
    pub gas: usize,
    /// Storage as of transaction start.
    pub initial_storage: Vec<((H160, H256), H256)>,
    /// Storage writes within the transaction, oldest first.
    pub storage_writes: Vec<((H160, H256), H256)>,
    /// Balances as of transaction start.
    pub initial_balances: Vec<(H160, U256)>,
    /// Balance writes within the transaction, oldest first.
    pub balance_writes: Vec<(H160, U256)>,
    /// Code as of transaction start.
    pub initial_codes: Vec<(H160, Vec<u8>)>,
    /// Code deployed within the transaction, oldest first.
    pub code_writes: Vec<(H160, Vec<u8>)>,
    /// Environment-supplied code hashes, fixed at construction; hashing
    /// lies outside this boundary, so a deployment within the transaction
    /// does not update them.
    pub code_hashes: Vec<(H160, H256)>,
    /// Environment-supplied block hashes, keyed by block number.
    pub block_hashes: Vec<(U256, H256)>,
    /// The event ledger, in emission order.
    pub logs: Vec<(H160, Vec<H256>, Vec<u8>)>,
    /// Accounts marked for deletion, with their balance beneficiaries.
    pub deletes: Vec<(H160, H160)>,
    /// Accounts existing as of transaction start.
    pub existing: Vec<H160>,
    /// Accounts created within the transaction.
    pub created: Vec<H160>,
    /// Marks of the frames currently entered, outermost first.
    pub frames: Vec<Frame>,
    /// Deferred calls awaiting feedback, oldest first.
    pub pending_calls: Vec<CallRequest>,
    /// Deferred creations awaiting feedback, oldest first.
    pub pending_creates: Vec<CreateRequest>,
}

impl MemoryHandler {
    /// Balance of an account as of transaction start.
    pub open spec fn initial_balance_of(&self, address: H160) -> U256 {
        match assoc_last(self.initial_balances@, address) {
            Some(v) => v,
            None => u256_zero(),
        }
    }

    /// A host over the given starting world, with no frame entered.
    pub fn new(
        env: BlockEnv,
        gas: usize,
        existing: Vec<H160>,
        balances: Vec<(H160, U256)>,
        codes: Vec<(H160, Vec<u8>)>,
        storage: Vec<((H160, H256), H256)>,
        code_hashes: Vec<(H160, H256)>,
        block_hashes: Vec<(U256, H256)>,
    ) -> (r: MemoryHandler)
        ensures
            r.env == env,
            r.gas == gas,
            r.existing@ == existing@,
            r.initial_balances@ == balances@,
            r.initial_codes@ == codes@,
            r.initial_storage@ == storage@,
            r.code_hashes@ == code_hashes@,
            r.block_hashes@ == block_hashes@,
            r.storage_writes@.len() == 0,
            r.balance_writes@.len() == 0,
            r.code_writes@.len() == 0,
            r.logs@.len() == 0,
            r.deletes@.len() == 0,
            r.created@.len() == 0,
            r.frames@.len() == 0,
            r.pending_calls@.len() == 0,
            r.pending_creates@.len() == 0,
            !r.in_static(),
    {
        MemoryHandler {
            env,
            gas,
            initial_storage: storage,
            storage_writes: Vec::new(),
            initial_balances: balances,
            balance_writes: Vec::new(),
            initial_codes: codes,
            code_writes: Vec::new(),
            code_hashes,
            block_hashes,
            logs: Vec::new(),
            deletes: Vec::new(),
            existing,
            created: Vec::new(),
            frames: Vec::new(),
            pending_calls: Vec::new(),
            pending_creates: Vec::new(),
        }
    }

    /// Executable form of the static-context flag.
    fn is_static_ctx(&self) -> (r: bool)
        ensures
            r == self.in_static(),
    {
        if self.frames.len() == 0 {
            false
        } else {
            self.frames[self.frames.len() - 1].is_static
        }
    }
}

/// What no handler operation inside a transaction ever changes: the
/// environment, the initial world, and the set of pre-existing accounts.
pub open spec fn persistent_same(pre: MemoryHandler, post: MemoryHandler) -> bool {
    &&& post.env == pre.env
    &&& post.initial_storage@ == pre.initial_storage@
    &&& post.initial_balances@ == pre.initial_balances@
    &&& post.initial_codes@ == pre.initial_codes@
    &&& post.code_hashes@ == pre.code_hashes@
    &&& post.block_hashes@ == pre.block_hashes@
    &&& post.existing@ == pre.existing@
}

/// Whether `t` can be applied: the source covers the value and the target
/// balance does not overflow.
pub open spec fn can_transfer(pre: MemoryHandler, t: Transfer) -> bool {
    &&& pre.balance_of(t.source)@ >= t.value@
    &&& (t.target == t.source || pre.balance_of(t.target)@ + t.value@ < u256_bound())
}

/// The error reported when `t` cannot be applied.
pub open spec fn transfer_err(pre: MemoryHandler, t: Transfer) -> ExitError {
    if pre.balance_of(t.source)@ < t.value@ {
        ExitError::OutOfFund
    } else {
        ExitError::Exhausted
    }
}

/// Exactly the two balance entries of `t` were appended: the source pays the
/// value, the target receives it, nobody else moves.
pub open spec fn balances_moved(pre: MemoryHandler, post: MemoryHandler, t: Transfer) -> bool {
    &&& post.balance_writes@.len() == pre.balance_writes@.len() + 2
    &&& post.balance_writes@.take(pre.balance_writes@.len() as int) == pre.balance_writes@
    &&& post.balance_writes@[pre.balance_writes@.len() as int].0 == t.source
    &&& post.balance_writes@[pre.balance_writes@.len() as int].1@ == pre.balance_of(t.source)@
        - t.value@
    &&& post.balance_writes@.last().0 == t.target
    &&& (if t.target == t.source {
        post.balance_of(t.source)@ == pre.balance_of(t.source)@
    } else {
        post.balance_of(t.source)@ == pre.balance_of(t.source)@ - t.value@
            && post.balance_of(t.target)@ == pre.balance_of(t.target)@ + t.value@
    })
    &&& forall|a: H160|
        a != t.source && a != t.target ==> #[trigger] post.balance_of(a) == pre.balance_of(a)
}

/// Exactly one storage entry was appended; everything else is as before.
pub open spec fn storage_step(
    pre: MemoryHandler,
    post: MemoryHandler,
    address: H160,
    index: H256,
    value: H256,
) -> bool {
    &&& persistent_same(pre, post)
    &&& post.storage_writes@ == pre.storage_writes@.push(((address, index), value))
    &&& post.balance_writes@ == pre.balance_writes@
    &&& post.code_writes@ == pre.code_writes@
    &&& post.logs@ == pre.logs@
    &&& post.deletes@ == pre.deletes@
    &&& post.created@ == pre.created@
    &&& post.frames@ == pre.frames@
    &&& post.gas == pre.gas
    &&& post.pending_calls@ == pre.pending_calls@
    &&& post.pending_creates@ == pre.pending_creates@
}

/// Exactly one log record was appended; everything else is as before.
pub open spec fn log_step(
    pre: MemoryHandler,
    post: MemoryHandler,
    entry: (H160, Vec<H256>, Vec<u8>),
) -> bool {
    &&& persistent_same(pre, post)
    &&& post.logs@ == pre.logs@.push(entry)
    &&& post.storage_writes@ == pre.storage_writes@
    &&& post.balance_writes@ == pre.balance_writes@
    &&& post.code_writes@ == pre.code_writes@
    &&& post.deletes@ == pre.deletes@
    &&& post.created@ == pre.created@
    &&& post.frames@ == pre.frames@
    &&& post.gas == pre.gas
    &&& post.pending_calls@ == pre.pending_calls@
    &&& post.pending_creates@ == pre.pending_creates@
}

/// Exactly one deletion mark was appended; everything else is as before.
pub open spec fn delete_step(
    pre: MemoryHandler,
    post: MemoryHandler,
    address: H160,
    target: H160,
) -> bool {
    &&& persistent_same(pre, post)
    &&& post.deletes@ == pre.deletes@.push((address, target))
    &&& post.storage_writes@ == pre.storage_writes@
    &&& post.balance_writes@ == pre.balance_writes@
    &&& post.code_writes@ == pre.code_writes@
    &&& post.logs@ == pre.logs@
    &&& post.created@ == pre.created@
    &&& post.frames@ == pre.frames@
    &&& post.gas == pre.gas
    &&& post.pending_calls@ == pre.pending_calls@
    &&& post.pending_creates@ == pre.pending_creates@
}

/// A transfer was applied and nothing else happened.
pub open spec fn transfer_only_step(pre: MemoryHandler, post: MemoryHandler, t: Transfer) -> bool {
    &&& persistent_same(pre, post)
    &&& balances_moved(pre, post, t)
    &&& post.storage_writes@ == pre.storage_writes@
    &&& post.code_writes@ == pre.code_writes@
    &&& post.logs@ == pre.logs@
    &&& post.deletes@ == pre.deletes@
    &&& post.created@ == pre.created@
    &&& post.frames@ == pre.frames@
    &&& post.gas == pre.gas
    &&& post.pending_calls@ == pre.pending_calls@
    &&& post.pending_creates@ == pre.pending_creates@
}

/// A value-only creation completed: the value moved from `caller` to `addr`
/// and the account now exists.
pub open spec fn created_step(
    pre: MemoryHandler,
    post: MemoryHandler,
    caller: H160,
    addr: H160,
    value: U256,
) -> bool {
    &&& persistent_same(pre, post)
    &&& balances_moved(pre, post, (Transfer { source: caller, target: addr, value }))
    &&& post.created@ == pre.created@.push(addr)
    &&& post.storage_writes@ == pre.storage_writes@
    &&& post.code_writes@ == pre.code_writes@
    &&& post.logs@ == pre.logs@
    &&& post.deletes@ == pre.deletes@
    &&& post.frames@ == pre.frames@
    &&& post.gas == pre.gas
    &&& post.pending_calls@ == pre.pending_calls@
    &&& post.pending_creates@ == pre.pending_creates@
}

/// A call was deferred: exactly one pending request holding the arguments
/// was appended and nothing else happened.
pub open spec fn call_trap_step(
    pre: MemoryHandler,
    post: MemoryHandler,
    code_address: H160,
    transfer: Option<Transfer>,
    input: Seq<u8>,
    target_gas: Option<usize>,
    eff_static: bool,
    context: Context,
) -> bool {
    &&& persistent_same(pre, post)
    &&& post.pending_calls@.len() == pre.pending_calls@.len() + 1
    &&& post.pending_calls@.take(pre.pending_calls@.len() as int) == pre.pending_calls@
    &&& post.pending_calls@.last().code_address == code_address
    &&& post.pending_calls@.last().transfer == transfer
    &&& post.pending_calls@.last().input@ == input
    &&& post.pending_calls@.last().target_gas == target_gas
    &&& post.pending_calls@.last().is_static == eff_static
    &&& post.pending_calls@.last().context == context
    &&& post.storage_writes@ == pre.storage_writes@
    &&& post.balance_writes@ == pre.balance_writes@
    &&& post.code_writes@ == pre.code_writes@
    &&& post.logs@ == pre.logs@
    &&& post.deletes@ == pre.deletes@
    &&& post.created@ == pre.created@
    &&& post.frames@ == pre.frames@
    &&& post.gas == pre.gas
    &&& post.pending_creates@ == pre.pending_creates@
}

/// A creation was deferred: exactly one pending request holding the
/// arguments was appended and nothing else happened.
pub open spec fn create_trap_step(
    pre: MemoryHandler,
    post: MemoryHandler,
    caller: H160,
    scheme: CreateScheme,
    value: U256,
    init_code: Seq<u8>,
    target_gas: Option<usize>,
) -> bool {
    &&& persistent_same(pre, post)
    &&& post.pending_creates@.len() == pre.pending_creates@.len() + 1
    &&& post.pending_creates@.take(pre.pending_creates@.len() as int) == pre.pending_creates@
    &&& post.pending_creates@.last().caller == caller
    &&& post.pending_creates@.last().scheme == scheme
    &&& post.pending_creates@.last().value == value
    &&& post.pending_creates@.last().init_code@ == init_code
    &&& post.pending_creates@.last().target_gas == target_gas
    &&& post.storage_writes@ == pre.storage_writes@
    &&& post.balance_writes@ == pre.balance_writes@
    &&& post.code_writes@ == pre.code_writes@
    &&& post.logs@ == pre.logs@
    &&& post.deletes@ == pre.deletes@
    &&& post.created@ == pre.created@
    &&& post.frames@ == pre.frames@
    &&& post.gas == pre.gas
    &&& post.pending_calls@ == pre.pending_calls@
}

/// One pending call was consumed and nothing else happened.
pub open spec fn popped_call_only(pre: MemoryHandler, post: MemoryHandler) -> bool {
    &&& persistent_same(pre, post)
    &&& post.pending_calls@ == pre.pending_calls@.drop_last()
    &&& post.storage_writes@ == pre.storage_writes@
    &&& post.balance_writes@ == pre.balance_writes@
    &&& post.code_writes@ == pre.code_writes@
    &&& post.logs@ == pre.logs@
    &&& post.deletes@ == pre.deletes@
    &&& post.created@ == pre.created@
    &&& post.frames@ == pre.frames@
    &&& post.gas == pre.gas
    &&& post.pending_creates@ == pre.pending_creates@
}

/// One pending call was consumed and its transfer applied.
pub open spec fn popped_call_moved(pre: MemoryHandler, post: MemoryHandler, t: Transfer) -> bool {
    &&& persistent_same(pre, post)
    &&& balances_moved(pre, post, t)
    &&& post.pending_calls@ == pre.pending_calls@.drop_last()
    &&& post.storage_writes@ == pre.storage_writes@
    &&& post.code_writes@ == pre.code_writes@
    &&& post.logs@ == pre.logs@
    &&& post.deletes@ == pre.deletes@
    &&& post.created@ == pre.created@
    &&& post.frames@ == pre.frames@
    &&& post.gas == pre.gas
    &&& post.pending_creates@ == pre.pending_creates@
}

/// One pending creation was consumed and nothing else happened.
pub open spec fn popped_create_only(pre: MemoryHandler, post: MemoryHandler) -> bool {
    &&& persistent_same(pre, post)
    &&& post.pending_creates@ == pre.pending_creates@.drop_last()
    &&& post.storage_writes@ == pre.storage_writes@
    &&& post.balance_writes@ == pre.balance_writes@
    &&& post.code_writes@ == pre.code_writes@
    &&& post.logs@ == pre.logs@
    &&& post.deletes@ == pre.deletes@
    &&& post.created@ == pre.created@
    &&& post.frames@ == pre.frames@
    &&& post.gas == pre.gas
    &&& post.pending_calls@ == pre.pending_calls@
}

/// One pending creation was consumed and resolved: the value moved from the
/// request's caller to `addr`, the code was deployed there, and the account
/// now exists.
pub open spec fn popped_create_deployed(
    pre: MemoryHandler,
    post: MemoryHandler,
    addr: H160,
    code: Seq<u8>,
    t: Transfer,
) -> bool {
    &&& persistent_same(pre, post)
    &&& balances_moved(pre, post, t)
    &&& post.pending_creates@ == pre.pending_creates@.drop_last()
    &&& post.code_writes@.len() == pre.code_writes@.len() + 1
    &&& post.code_writes@.take(pre.code_writes@.len() as int) == pre.code_writes@
    &&& post.code_writes@.last().0 == addr
    &&& post.code_writes@.last().1@ == code
    &&& post.code_of(addr) == code
    &&& post.created@ == pre.created@.push(addr)
    &&& post.storage_writes@ == pre.storage_writes@
    &&& post.logs@ == pre.logs@
    &&& post.deletes@ == pre.deletes@
    &&& post.frames@ == pre.frames@
    &&& post.gas == pre.gas
    &&& post.pending_calls@ == pre.pending_calls@
}

/// Full postcondition of resolving one create trap.
pub open spec fn create_feedback_spec(
    pre: MemoryHandler,
    post: MemoryHandler,
    feedback: CreateOutcome,
    r: Result<(), ExitError>,
) -> bool {
    if pre.pending_creates@.len() == 0 {
        post == pre && r == Err::<(), ExitError>(ExitError::UnpairedFeedback)
    } else {
        let req = pre.pending_creates@.last();
        match (feedback.reason, feedback.address) {
            (ExitReason::Succeed(_), Some(addr)) => {
                if pre.code_of(addr).len() != 0 {
                    // deploying over an occupied account would silently
                    // overwrite it; the resolver reported a bad address
                    post == pre && r == Err::<(), ExitError>(ExitError::CreateCollision)
                } else {
                    let t = (Transfer { source: req.caller, target: addr, value: req.value });
                    if can_transfer(pre, t) {
                        r is Ok && popped_create_deployed(pre, post, addr, feedback.code@, t)
                    } else {
                        post == pre && r == Err::<(), ExitError>(transfer_err(pre, t))
                    }
                }
            },
            _ => r is Ok && popped_create_only(pre, post),
        }
    }
}

/// Full postcondition of resolving one call trap.
pub open spec fn call_feedback_spec(
    pre: MemoryHandler,
    post: MemoryHandler,
    feedback: CallOutcome,
    r: Result<(), ExitError>,
) -> bool {
    if pre.pending_calls@.len() == 0 {
        post == pre && r == Err::<(), ExitError>(ExitError::UnpairedFeedback)
    } else {
        let req = pre.pending_calls@.last();
        match (feedback.reason, req.transfer) {
            (ExitReason::Succeed(_), Some(t)) => {
                if can_transfer(pre, t) {
                    r is Ok && popped_call_moved(pre, post, t)
                } else {
                    post == pre && r == Err::<(), ExitError>(transfer_err(pre, t))
                }
            },
            _ => r is Ok && popped_call_only(pre, post),
        }
    }
}

/// A frame was entered: its marks are the journal lengths at entry, its
/// static flag is inherited or newly established, and nothing else changed.
pub open spec fn entered_step(pre: MemoryHandler, post: MemoryHandler, is_static: bool) -> bool {
    &&& persistent_same(pre, post)
    &&& post.frames@.len() == pre.frames@.len() + 1
    &&& post.frames@.take(pre.frames@.len() as int) == pre.frames@
    &&& post.frames@.last().is_static == (pre.in_static() || is_static)
    &&& post.frames@.last().storage_mark == pre.storage_writes@.len()
    &&& post.frames@.last().balance_mark == pre.balance_writes@.len()
    &&& post.frames@.last().code_mark == pre.code_writes@.len()
    &&& post.frames@.last().logs_mark == pre.logs@.len()
    &&& post.frames@.last().deletes_mark == pre.deletes@.len()
    &&& post.frames@.last().created_mark == pre.created@.len()
    &&& post.storage_writes@ == pre.storage_writes@
    &&& post.balance_writes@ == pre.balance_writes@
    &&& post.code_writes@ == pre.code_writes@
    &&& post.logs@ == pre.logs@
    &&& post.deletes@ == pre.deletes@
    &&& post.created@ == pre.created@
    &&& post.gas == pre.gas
    &&& post.pending_calls@ == pre.pending_calls@
    &&& post.pending_creates@ == pre.pending_creates@
}

/// The top frame's marks do not exceed the journal lengths; true of every
/// state reached through this module's operations.
pub open spec fn frame_marks_valid(pre: MemoryHandler) -> bool {
    pre.frames@.len() > 0 ==> ({
        let f = pre.frames@.last();
        &&& f.storage_mark <= pre.storage_writes@.len()
        &&& f.balance_mark <= pre.balance_writes@.len()
        &&& f.code_mark <= pre.code_writes@.len()
        &&& f.logs_mark <= pre.logs@.len()
        &&& f.deletes_mark <= pre.deletes@.len()
        &&& f.created_mark <= pre.created@.len()
    })
}

/// The top frame was abandoned: every journal is cut back to the length it
/// had at frame entry, while gas and the pending traps stay as they are.
pub open spec fn reverted_step(pre: MemoryHandler, post: MemoryHandler) -> bool {
    let f = pre.frames@.last();
    &&& persistent_same(pre, post)
    &&& post.frames@ == pre.frames@.drop_last()
    &&& post.storage_writes@ == pre.storage_writes@.take(f.storage_mark as int)
    &&& post.balance_writes@ == pre.balance_writes@.take(f.balance_mark as int)
    &&& post.code_writes@ == pre.code_writes@.take(f.code_mark as int)
    &&& post.logs@ == pre.logs@.take(f.logs_mark as int)
    &&& post.deletes@ == pre.deletes@.take(f.deletes_mark as int)
    &&& post.created@ == pre.created@.take(f.created_mark as int)
    &&& post.gas == pre.gas
    &&& post.pending_calls@ == pre.pending_calls@
    &&& post.pending_creates@ == pre.pending_creates@
}

/// The top frame was committed: its effects stay, only the frame is gone.
pub open spec fn committed_step(pre: MemoryHandler, post: MemoryHandler) -> bool {
    &&& persistent_same(pre, post)
    &&& post.frames@ == pre.frames@.drop_last()
    &&& post.storage_writes@ == pre.storage_writes@
    &&& post.balance_writes@ == pre.balance_writes@
    &&& post.code_writes@ == pre.code_writes@
    &&& post.logs@ == pre.logs@
    &&& post.deletes@ == pre.deletes@
    &&& post.created@ == pre.created@
    &&& post.gas == pre.gas
    &&& post.pending_calls@ == pre.pending_calls@
    &&& post.pending_creates@ == pre.pending_creates@
}

/// Gas was charged and nothing else happened.
pub open spec fn gas_step(pre: MemoryHandler, post: MemoryHandler, amount: usize) -> bool {
    &&& persistent_same(pre, post)
    &&& post.gas == pre.gas - amount
    &&& post.storage_writes@ == pre.storage_writes@
    &&& post.balance_writes@ == pre.balance_writes@
    &&& post.code_writes@ == pre.code_writes@
    &&& post.logs@ == pre.logs@
    &&& post.deletes@ == pre.deletes@
    &&& post.created@ == pre.created@
    &&& post.frames@ == pre.frames@
    &&& post.pending_calls@ == pre.pending_calls@
    &&& post.pending_creates@ == pre.pending_creates@
}

impl MemoryHandler {
    /// Enters a nested frame, read-only when `is_static` or the current
    /// context already is; once static, a context stays static for all
    /// deeper frames.
    pub fn enter_frame(&mut self, is_static: bool)
        ensures
            entered_step(*old(self), *final(self), is_static),
            final(self).in_static() == (old(self).in_static() || is_static),
    {
        let eff = self.is_static_ctx() || is_static;
        let ghost pre_frames = self.frames@;
        let marks = Frame {
            is_static: eff,
            storage_mark: self.storage_writes.len(),
            balance_mark: self.balance_writes.len(),
            code_mark: self.code_writes.len(),
            logs_mark: self.logs.len(),
            deletes_mark: self.deletes.len(),
            created_mark: self.created.len(),
        };
        self.frames.push(marks);
        proof {
            assert(self.frames@.take(pre_frames.len() as int) =~= pre_frames);
        }
    }

    /// Leaves the top frame keeping its effects.
    pub fn exit_frame_commit(&mut self)
        requires
            old(self).frames@.len() > 0,
        ensures
            committed_step(*old(self), *final(self)),
    {
        let _ = self.frames.pop();
    }

    /// Leaves the top frame undoing every effect recorded since it was
    /// entered; gas already consumed stays consumed.
    pub fn exit_frame_revert(&mut self)
        requires
            old(self).frames@.len() > 0,
            frame_marks_valid(*old(self)),
        ensures
            reverted_step(*old(self), *final(self)),
    {
        let marks = self.frames[self.frames.len() - 1];
        let _ = self.frames.pop();
        self.storage_writes.truncate(marks.storage_mark);
        self.balance_writes.truncate(marks.balance_mark);
        self.code_writes.truncate(marks.code_mark);
        self.logs.truncate(marks.logs_mark);
        self.deletes.truncate(marks.deletes_mark);
        self.created.truncate(marks.created_mark);
    }

    /// Charges gas to the current frame; fails without effect when more is
    /// asked than is left.
    pub fn use_gas(&mut self, amount: usize) -> (r: Result<(), ExitError>)
        ensures
            amount <= old(self).gas ==> r is Ok && gas_step(*old(self), *final(self), amount),
            amount > old(self).gas ==> r == Err::<(), ExitError>(ExitError::OutOfGas)
                && *final(self) == *old(self),
    {
        if amount > self.gas {
            return Err(ExitError::OutOfGas);
        }
        self.gas = self.gas - amount;
        Ok(())
    }

    /// Executable form of [`can_transfer`].
    fn can_transfer_exec(&self, t: Transfer) -> (r: bool)
        ensures
            r == can_transfer(*self, t),
    {
        let src = self.balance(t.source);
        match src.checked_sub(&t.value) {
            None => false,
            Some(new_src) => {
                if t.target == t.source {
                    true
                } else {
                    let dst = self.balance(t.target);
                    dst.checked_add(&t.value).is_some()
                }
            },
        }
    }

    /// Moves `t.value` from `t.source` to `t.target`, atomically: on any
    /// failure nothing has changed.
    fn apply_transfer(&mut self, t: Transfer) -> (r: Result<(), ExitError>)
        ensures
            r is Ok <==> can_transfer(*old(self), t),
            r is Ok ==> transfer_only_step(*old(self), *final(self), t),
            r is Err ==> *final(self) == *old(self) && r == Err::<(), ExitError>(
                transfer_err(*old(self), t),
            ),
    {
        let src_bal = self.balance(t.source);
        let new_src = match src_bal.checked_sub(&t.value) {
            Some(v) => v,
            None => {
                return Err(ExitError::OutOfFund);
            },
        };
        let dst_pre = if t.target == t.source {
            new_src
        } else {
            self.balance(t.target)
        };
        let new_dst = match dst_pre.checked_add(&t.value) {
            Some(v) => v,
            None => {
                proof {
                    if t.target == t.source {
                        lemma_u256_bound(src_bal);
                    }
                }
                return Err(ExitError::Exhausted);
            },
        };
        proof {
            if t.target == t.source {
                lemma_u256_bound(src_bal);
            }
        }
        let ghost pre_writes = self.balance_writes@;
        self.balance_writes.push((t.source, new_src));
        self.balance_writes.push((t.target, new_dst));
        proof {
            let w1 = pre_writes.push((t.source, new_src));
            let w2 = w1.push((t.target, new_dst));
            lemma_assoc_push_same(w1, t.target, new_dst);
            if t.target != t.source {
                lemma_assoc_push_other(w1, t.target, new_dst, t.source);
                lemma_assoc_push_same(pre_writes, t.source, new_src);
            }
            assert(w2.take(pre_writes.len() as int) =~= pre_writes);
            assert forall|a: H160| a != t.source && a != t.target implies #[trigger] self
                .balance_of(a) == old(self).balance_of(a) by {
                lemma_assoc_push_other(w1, t.target, new_dst, a);
                lemma_assoc_push_other(pre_writes, t.source, new_src, a);
            }
        }
        Ok(())
    }
}

impl Handler for MemoryHandler {
    type CreateInterrupt = CreateInterrupt;

    type CreateFeedback = CreateOutcome;

    type CallInterrupt = CallInterrupt;

    type CallFeedback = CallOutcome;

    open spec fn in_static(&self) -> bool {
        self.frames@.len() > 0 && self.frames@.last().is_static
    }

    open spec fn storage_at(&self, address: H160, index: H256) -> H256 {
        match assoc_last(self.storage_writes@, (address, index)) {
            Some(v) => v,
            None => self.original_storage_at(address, index),
        }
    }

    open spec fn original_storage_at(&self, address: H160, index: H256) -> H256 {
        match assoc_last(self.initial_storage@, (address, index)) {
            Some(v) => v,
            None => h256_zero(),
        }
    }

    open spec fn balance_of(&self, address: H160) -> U256 {
        match assoc_last(self.balance_writes@, address) {
            Some(v) => v,
            None => self.initial_balance_of(address),
        }
    }

    open spec fn code_of(&self, address: H160) -> Seq<u8> {
        match assoc_last(self.code_writes@, address) {
            Some(c) => c@,
            None => match assoc_last(self.initial_codes@, address) {
                Some(c) => c@,
                None => Seq::<u8>::empty(),
            },
        }
    }

    open spec fn code_hash_of(&self, address: H160) -> H256 {
        match assoc_last(self.code_hashes@, address) {
            Some(h) => h,
            None => h256_zero(),
        }
    }

    open spec fn logs_of(&self) -> Seq<(H160, Seq<H256>, Seq<u8>)> {
        self.logs@.map_values(|e: (H160, Vec<H256>, Vec<u8>)| (e.0, e.1@, e.2@))
    }

    open spec fn deleted_of(&self, address: H160) -> bool {
        assoc_last(self.deletes@, address) is Some
    }

    open spec fn exists_of(&self, address: H160) -> bool {
        self.existing@.contains(address) || self.created@.contains(address)
    }

    open spec fn gas_of(&self) -> nat {
        self.gas as nat
    }

    open spec fn env_of(&self) -> BlockEnv {
        self.env
    }

    open spec fn block_hash_of(&self, number: U256) -> H256 {
        match assoc_last(self.block_hashes@, number) {
            Some(h) => h,
            None => h256_zero(),
        }
    }

    open spec fn pending_call_traps(&self) -> nat {
        self.pending_calls@.len()
    }

    open spec fn pending_create_traps(&self) -> nat {
        self.pending_creates@.len()
    }

    fn balance(&self, address: H160) -> (r: U256) {
        match lookup_addr_u256(&self.balance_writes, address) {
            Some(v) => v,
            None => match lookup_addr_u256(&self.initial_balances, address) {
                Some(v) => v,
                None => U256::zero(),
            },
        }
    }

    fn code_size(&self, address: H160) -> (r: U256) {
        match lookup_code_index(&self.code_writes, address) {
            Some(j) => U256::from_u128(self.code_writes[j].1.len() as u128),
            None => match lookup_code_index(&self.initial_codes, address) {
                Some(j) => U256::from_u128(self.initial_codes[j].1.len() as u128),
                None => U256::zero(),
            },
        }
    }

    fn code_hash(&self, address: H160) -> (r: H256) {
        match lookup_addr_h256(&self.code_hashes, address) {
            Some(h) => h,
            None => H256::zero(),
        }
    }

    fn code(&self, address: H160) -> (r: Vec<u8>) {
        match lookup_code_index(&self.code_writes, address) {
            Some(j) => copy_bytes(&self.code_writes[j].1),
            None => match lookup_code_index(&self.initial_codes, address) {
                Some(j) => copy_bytes(&self.initial_codes[j].1),
                None => Vec::new(),
            },
        }
    }

    fn storage(&self, address: H160, index: H256) -> (r: H256) {
        match lookup_slot(&self.storage_writes, address, index) {
            Some(v) => v,
            None => self.original_storage(address, index),
        }
    }

    fn original_storage(&self, address: H160, index: H256) -> (r: H256) {
        match lookup_slot(&self.initial_storage, address, index) {
            Some(v) => v,
            None => H256::zero(),
        }
    }

    fn gas_left(&self) -> (r: U256) {
        U256::from_u128(self.gas as u128)
    }

    fn gas_price(&self) -> (r: U256) {
        self.env.gas_price
    }

    fn origin(&self) -> (r: H160) {
        self.env.origin
    }

    fn block_hash(&self, number: U256) -> (r: H256) {
        match lookup_u256_h256(&self.block_hashes, number) {
            Some(h) => h,
            None => H256::zero(),
        }
    }

    fn block_number(&self) -> (r: U256) {
        self.env.block_number
    }

    fn block_coinbase(&self) -> (r: H160) {
        self.env.block_coinbase
    }

    fn block_timestamp(&self) -> (r: U256) {
        self.env.block_timestamp
    }

    fn block_difficulty(&self) -> (r: U256) {
        self.env.block_difficulty
    }

    fn block_gas_limit(&self) -> (r: U256) {
        self.env.block_gas_limit
    }

    fn chain_id(&self) -> (r: U256) {
        self.env.chain_id
    }

    fn account_exists(&self, address: H160) -> (r: bool) {
        contains_addr(&self.existing, address) || contains_addr(&self.created, address)
    }

    fn deleted(&self, address: H160) -> (r: bool) {
        lookup_addr_addr(&self.deletes, address).is_some()
    }

    fn set_storage(&mut self, address: H160, index: H256, value: H256) -> (r: Result<
        (),
        ExitError,
    >)
        ensures
            old(self).in_static() ==> *final(self) == *old(self),
            !old(self).in_static() ==> r is Ok && storage_step(
                *old(self),
                *final(self),
                address,
                index,
                value,
            ),
    {
        if self.is_static_ctx() {
            return Err(ExitError::StaticModeViolation);
        }
        let ghost pre_writes = self.storage_writes@;
        self.storage_writes.push(((address, index), value));
        proof {
            lemma_assoc_push_same(pre_writes, (address, index), value);
            assert forall|a: H160, i: H256| !(a == address && i == index) implies #[trigger] self
                .storage_at(a, i) == old(self).storage_at(a, i) by {
                lemma_assoc_push_other(pre_writes, (address, index), value, (a, i));
            }
        }
        Ok(())
    }

    fn log(&mut self, address: H160, topics: Vec<H256>, data: Vec<u8>) -> (r: Result<
        (),
        ExitError,
    >)
        ensures
            old(self).in_static() ==> *final(self) == *old(self),
            !old(self).in_static() ==> r is Ok && log_step(
                *old(self),
                *final(self),
                (address, topics, data),
            ),
    {
        if self.is_static_ctx() {
            return Err(ExitError::StaticModeViolation);
        }
        let ghost pre_logs = self.logs@;
        let ghost t_view = topics@;
        let ghost d_view = data@;
        self.logs.push((address, topics, data));
        proof {
            assert(self.logs_of() =~= old(self).logs_of().push((address, t_view, d_view)));
        }
        Ok(())
    }

    fn mark_delete(&mut self, address: H160, target: H160) -> (r: Result<(), ExitError>)
        ensures
            old(self).in_static() ==> *final(self) == *old(self),
            !old(self).in_static() && old(self).deleted_of(address) ==> r is Ok && *final(self)
                == *old(self),
            !old(self).in_static() && !old(self).deleted_of(address) ==> r is Ok && delete_step(
                *old(self),
                *final(self),
                address,
                target,
            ),
    {
        if self.is_static_ctx() {
            return Err(ExitError::StaticModeViolation);
        }
        if lookup_addr_addr(&self.deletes, address).is_some() {
            return Ok(());
        }
        let ghost pre_deletes = self.deletes@;
        self.deletes.push((address, target));
        proof {
            lemma_assoc_push_same(pre_deletes, address, target);
            assert forall|a: H160| a != address implies #[trigger] self.deleted_of(a) == old(
                self,
            ).deleted_of(a) by {
                lemma_assoc_push_other(pre_deletes, address, target, a);
            }
        }
        Ok(())
    }

    fn create(
        &mut self,
        caller: H160,
        scheme: CreateScheme,
        value: U256,
        init_code: Vec<u8>,
        target_gas: Option<usize>,
    ) -> (r: Capture<(ExitReason, Option<H160>, Vec<u8>), CreateInterrupt>)
        ensures
            ({
                let pre = *old(self);
                let post = *final(self);
                if pre.in_static() || gas_exceeded(target_gas, pre.gas as nat) {
                    post == pre
                } else {
                    match scheme {
                        CreateScheme::Fixed(addr) => {
                            if pre.code_of(addr).len() != 0 {
                                post == pre && create_exit_error(r, ExitError::CreateCollision)
                            } else if init_code@.len() == 0 {
                                let t = (Transfer { source: caller, target: addr, value });
                                if can_transfer(pre, t) {
                                    created_step(pre, post, caller, addr, value) && (
                                    r matches Capture::Exit(x) && x.0 == ExitReason::Succeed(
                                        ExitSucceed::Returned,
                                    ) && x.1 == Some(addr) && x.2@ == Seq::<u8>::empty())
                                } else {
                                    post == pre && create_exit_error(r, transfer_err(pre, t))
                                }
                            } else {
                                r matches Capture::Trap(tok) && tok.index
                                    == pre.pending_creates@.len() && create_trap_step(
                                    pre,
                                    post,
                                    caller,
                                    scheme,
                                    value,
                                    init_code@,
                                    target_gas,
                                )
                            }
                        },
                        _ => {
                            r matches Capture::Trap(tok) && tok.index == pre.pending_creates@.len()
                                && create_trap_step(
                                pre,
                                post,
                                caller,
                                scheme,
                                value,
                                init_code@,
                                target_gas,
                            )
                        },
                    }
                }
            }),
    {
        if self.is_static_ctx() {
            return Capture::Exit((ExitReason::Error(ExitError::StaticModeViolation), None, Vec::new()));
        }
        if let Some(g) = target_gas {
            if g > self.gas {
                return Capture::Exit((ExitReason::Error(ExitError::OutOfGas), None, Vec::new()));
            }
        }
        match scheme {
            CreateScheme::Fixed(addr) => {
                if !self.code_size(addr).is_zero() {
                    return Capture::Exit(
                        (ExitReason::Error(ExitError::CreateCollision), None, Vec::new()),
                    );
                }
                if init_code.len() == 0 {
                    match self.apply_transfer(Transfer { source: caller, target: addr, value }) {
                        Ok(()) => {
                            let ghost mid = *self;
                            self.created.push(addr);
                            proof {
                                assert forall|a: H160| a != caller && a != addr implies
                                    #[trigger] self.balance_of(a) == old(self).balance_of(a) by {
                                    assert(mid.balance_of(a) == old(self).balance_of(a));
                                }
                            }
                            Capture::Exit(
                                (
                                    ExitReason::Succeed(ExitSucceed::Returned),
                                    Some(addr),
                                    Vec::new(),
                                ),
                            )
                        },
                        Err(e) => Capture::Exit((ExitReason::Error(e), None, Vec::new())),
                    }
                } else {
                    let idx = self.pending_creates.len();
                    let ghost pre_pending = self.pending_creates@;
                    self.pending_creates.push(
                        CreateRequest { caller, scheme, value, init_code, target_gas },
                    );
                    proof {
                        assert(self.pending_creates@.take(pre_pending.len() as int)
                            =~= pre_pending);
                    }
                    Capture::Trap(CreateInterrupt { index: idx })
                }
            },
            _ => {
                let idx = self.pending_creates.len();
                let ghost pre_pending = self.pending_creates@;
                self.pending_creates.push(
                    CreateRequest { caller, scheme, value, init_code, target_gas },
                );
                proof {
                    assert(self.pending_creates@.take(pre_pending.len() as int) =~= pre_pending);
                }
                Capture::Trap(CreateInterrupt { index: idx })
            },
        }
    }

    fn call(
        &mut self,
        code_address: H160,
        transfer: Option<Transfer>,
        input: Vec<u8>,
        target_gas: Option<usize>,
        is_static: bool,
        context: Context,
    ) -> (r: Capture<(ExitReason, Vec<u8>), CallInterrupt>)
        ensures
            ({
                let pre = *old(self);
                let post = *final(self);
                let eff = pre.in_static() || is_static;
                if eff && transfer_has_value(transfer) {
                    post == pre && call_exit_error(r, ExitError::StaticModeViolation)
                } else if gas_exceeded(target_gas, pre.gas as nat) {
                    post == pre && call_exit_error(r, ExitError::OutOfGas)
                } else if pre.code_of(code_address).len() == 0 {
                    match transfer {
                        Some(t) => {
                            if can_transfer(pre, t) {
                                transfer_only_step(pre, post, t) && (
                                r matches Capture::Exit(x) && x.0 == ExitReason::Succeed(
                                    ExitSucceed::Stopped,
                                ) && x.1@ == Seq::<u8>::empty())
                            } else {
                                post == pre && call_exit_error(r, transfer_err(pre, t))
                            }
                        },
                        None => post == pre && (r matches Capture::Exit(x) && x.0
                            == ExitReason::Succeed(ExitSucceed::Stopped) && x.1@ == Seq::<
                            u8,
                        >::empty()),
                    }
                } else {
                    r matches Capture::Trap(tok) && tok.index == pre.pending_calls@.len()
                        && call_trap_step(
                        pre,
                        post,
                        code_address,
                        transfer,
                        input@,
                        target_gas,
                        eff,
                        context,
                    )
                }
            }),
    {
        let eff = self.is_static_ctx() || is_static;
        let has_val = match &transfer {
            Some(t) => !t.value.is_zero(),
            None => false,
        };
        if eff && has_val {
            return Capture::Exit((ExitReason::Error(ExitError::StaticModeViolation), Vec::new()));
        }
        if let Some(g) = target_gas {
            if g > self.gas {
                return Capture::Exit((ExitReason::Error(ExitError::OutOfGas), Vec::new()));
            }
        }
        if self.code_size(code_address).is_zero() {
            match transfer {
                Some(t) => match self.apply_transfer(t) {
                    Ok(()) => Capture::Exit((ExitReason::Succeed(ExitSucceed::Stopped), Vec::new())),
                    Err(e) => Capture::Exit((ExitReason::Error(e), Vec::new())),
                },
                None => Capture::Exit((ExitReason::Succeed(ExitSucceed::Stopped), Vec::new())),
            }
        } else {
            let idx = self.pending_calls.len();
            let ghost pre_pending = self.pending_calls@;
            self.pending_calls.push(
                CallRequest { code_address, transfer, input, target_gas, is_static: eff, context },
            );
            proof {
                assert(self.pending_calls@.take(pre_pending.len() as int) =~= pre_pending);
            }
            Capture::Trap(CallInterrupt { index: idx })
        }
    }

    fn create_feedback(&mut self, feedback: CreateOutcome) -> (r: Result<(), ExitError>)
        ensures
            create_feedback_spec(*old(self), *final(self), feedback, r),
    {
        if self.pending_creates.len() == 0 {
            return Err(ExitError::UnpairedFeedback);
        }
        let success = match feedback.reason {
            ExitReason::Succeed(_) => true,
            _ => false,
        };
        if success {
            if let Some(addr) = feedback.address {
                if !self.code_size(addr).is_zero() {
                    return Err(ExitError::CreateCollision);
                }
                let req_caller: H160;
                let req_value: U256;
                {
                    let req = &self.pending_creates[self.pending_creates.len() - 1];
                    req_caller = req.caller;
                    req_value = req.value;
                }
                let t = Transfer { source: req_caller, target: addr, value: req_value };
                let src_bal = self.balance(t.source);
                if src_bal.checked_sub(&t.value).is_none() {
                    return Err(ExitError::OutOfFund);
                }
                if t.target != t.source {
                    let dst = self.balance(t.target);
                    if dst.checked_add(&t.value).is_none() {
                        return Err(ExitError::Exhausted);
                    }
                }
                let _ = self.pending_creates.pop();
                proof {
                    if t.target == t.source {
                        lemma_u256_bound(src_bal);
                    }
                }
                let moved = self.apply_transfer(t);
                let ghost mid = *self;
                proof {
                    assert(moved is Ok);
                }
                let ghost pre_code = self.code_writes@;
                self.code_writes.push((addr, feedback.code));
                self.created.push(addr);
                proof {
                    lemma_assoc_push_same(pre_code, addr, feedback.code);
                    assert(self.code_writes@.take(pre_code.len() as int) =~= pre_code);
                    assert forall|a: H160| a != t.source && a != t.target implies
                        #[trigger] self.balance_of(a) == old(self).balance_of(a) by {
                        assert(mid.balance_of(a) == old(self).balance_of(a));
                    }
                }
                Ok(())
            } else {
                let _ = self.pending_creates.pop();
                Ok(())
            }
        } else {
            let _ = self.pending_creates.pop();
            Ok(())
        }
    }

    fn call_feedback(&mut self, feedback: CallOutcome) -> (r: Result<(), ExitError>)
        ensures
            call_feedback_spec(*old(self), *final(self), feedback, r),
    {
        if self.pending_calls.len() == 0 {
            return Err(ExitError::UnpairedFeedback);
        }
        let success = match feedback.reason {
            ExitReason::Succeed(_) => true,
            _ => false,
        };
        let tr: Option<Transfer>;
        {
            let req = &self.pending_calls[self.pending_calls.len() - 1];
            tr = req.transfer;
        }
        if success {
            if let Some(t) = tr {
                let src_bal = self.balance(t.source);
                if src_bal.checked_sub(&t.value).is_none() {
                    return Err(ExitError::OutOfFund);
                }
                if t.target != t.source {
                    let dst = self.balance(t.target);
                    if dst.checked_add(&t.value).is_none() {
                        return Err(ExitError::Exhausted);
                    }
                }
                let _ = self.pending_calls.pop();
                proof {
                    if t.target == t.source {
                        lemma_u256_bound(src_bal);
                    }
                }
                let moved = self.apply_transfer(t);
                proof {
                    assert(moved is Ok);
                }
                Ok(())
            } else {
                let _ = self.pending_calls.pop();
                Ok(())
            }
        } else {
            let _ = self.pending_calls.pop();
            Ok(())
        }
    }

    fn pre_validate(
        &mut self,
        _context: &Context,
        _opcode: Result<Opcode, ExternalOpcode>,
        stack: &Stack,
    ) -> (r: Result<(), ExitError>)
        ensures
            *final(self) == *old(self),
            r == (if stack.data@.len() > stack.limit {
                Err::<(), ExitError>(ExitError::StackOverflow)
            } else {
                Ok::<(), ExitError>(())
            }),
    {
        if stack.data.len() > stack.limit {
            Err(ExitError::StackOverflow)
        } else {
            Ok(())
        }
    }
}

} // verus!
