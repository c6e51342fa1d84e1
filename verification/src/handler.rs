//! The Handler contract: the interface through which the interpreter reads
//! and mutates world state, triggers nested calls and creations, and can be
//! suspended mid-execution when a nested operation cannot be resolved
//! synchronously.
//!
//! Every concrete host exposes a ghost model of its observable state through
//! the trait's spec functions; the executable operations carry contracts over
//! that model which encode the protocol invariants: queries never mutate,
//! mutators fail closed under a static context, forwarded gas never exceeds
//! the gas left, original storage is fixed for the whole transaction, and a
//! trap leaves the world untouched until its feedback arrives.

use vstd::prelude::*;
use crate::types::{
    BlockEnv, Capture, Context, CreateScheme, ExitError, ExitReason, ExternalOpcode, H160, H256,
    Machine, Opcode, Stack, Transfer,
};
use crate::uint::U256;

verus! {

/// The interface invoked by the interpreter for every state-touching or
/// control-transferring opcode.
///
/// The four associated types are implementer-chosen opaque payloads carrying
/// whatever a concrete host needs to resume a suspended call or creation.
pub trait Handler: Sized {
    /// Interrupt descriptor produced when a creation is deferred.
    type CreateInterrupt;

    /// Payload resolving a deferred creation.
    type CreateFeedback;

    /// Interrupt descriptor produced when a call is deferred.
    type CallInterrupt;

    /// Payload resolving a deferred call.
    type CallFeedback;

    /// Whether the current context is read-only.
    spec fn in_static(&self) -> bool;

    /// The live value of a storage slot, as seen by this transaction.
    spec fn storage_at(&self, address: H160, index: H256) -> H256;

    /// The value of a storage slot as of transaction start.
    spec fn original_storage_at(&self, address: H160, index: H256) -> H256;

    /// The live balance of an account.
    spec fn balance_of(&self, address: H160) -> U256;

    /// The code of an account; empty for code-less accounts.
    spec fn code_of(&self, address: H160) -> Seq<u8>;

    /// The code hash of an account; zero-filled for absent accounts.
    spec fn code_hash_of(&self, address: H160) -> H256;

    /// The ordered ledger of emitted events.
    spec fn logs_of(&self) -> Seq<(H160, Seq<H256>, Seq<u8>)>;

    /// Whether an account is marked for deletion at transaction end.
    spec fn deleted_of(&self, address: H160) -> bool;

    /// Whether an account exists; deletion marks do not clear this.
    spec fn exists_of(&self, address: H160) -> bool;

    /// Gas remaining in the current frame.
    spec fn gas_of(&self) -> nat;

    /// The block and transaction environment constants.
    spec fn env_of(&self) -> BlockEnv;

    /// The recorded hash of a block, zero-filled when unknown.
    spec fn block_hash_of(&self, number: U256) -> H256;

    /// How many call traps were produced and not yet fed back.
    spec fn pending_call_traps(&self) -> nat;

    /// How many create traps were produced and not yet fed back.
    spec fn pending_create_traps(&self) -> nat;

    // The provided spec functions below are the trait's fixed vocabulary for
    // its contracts.  Implementations are not meant to override them: an
    // override would change what the contracts of that implementation say,
    // weakening the protocol they encode for its callers.

    /// Live storage agrees on every slot.
    open spec fn same_storage(&self, post: &Self) -> bool {
        forall|a: H160, i: H256| #[trigger] post.storage_at(a, i) == self.storage_at(a, i)
    }

    /// Original storage agrees on every slot.
    open spec fn same_original(&self, post: &Self) -> bool {
        forall|a: H160, i: H256|
            #[trigger] post.original_storage_at(a, i) == self.original_storage_at(a, i)
    }

    /// Balances agree on every account.
    open spec fn same_balances(&self, post: &Self) -> bool {
        forall|a: H160| #[trigger] post.balance_of(a) == self.balance_of(a)
    }

    /// Code and code hashes agree on every account.
    open spec fn same_code(&self, post: &Self) -> bool {
        &&& forall|a: H160| #[trigger] post.code_of(a) == self.code_of(a)
        &&& forall|a: H160| #[trigger] post.code_hash_of(a) == self.code_hash_of(a)
    }

    /// Deletion marks agree on every account.
    open spec fn same_deletes(&self, post: &Self) -> bool {
        forall|a: H160| #[trigger] post.deleted_of(a) == self.deleted_of(a)
    }

    /// Existence agrees on every account.
    open spec fn same_exists(&self, post: &Self) -> bool {
        forall|a: H160| #[trigger] post.exists_of(a) == self.exists_of(a)
    }

    /// The whole observable world state is unchanged.
    open spec fn same_world(&self, post: &Self) -> bool {
        &&& self.same_storage(post)
        &&& self.same_original(post)
        &&& self.same_balances(post)
        &&& self.same_code(post)
        &&& post.logs_of() == self.logs_of()
        &&& self.same_deletes(post)
        &&& self.same_exists(post)
    }

    /// The environment constants and block hashes are unchanged.
    open spec fn same_env(&self, post: &Self) -> bool {
        &&& post.env_of() == self.env_of()
        &&& forall|n: U256| #[trigger] post.block_hash_of(n) == self.block_hash_of(n)
    }

    /// The protocol bookkeeping (static flag, gas, outstanding traps) and the
    /// environment are unchanged.
    open spec fn same_protocol(&self, post: &Self) -> bool {
        &&& post.in_static() == self.in_static()
        &&& post.gas_of() == self.gas_of()
        &&& post.pending_call_traps() == self.pending_call_traps()
        &&& post.pending_create_traps() == self.pending_create_traps()
        &&& self.same_env(post)
    }

    /// Nothing observable changed at all.
    open spec fn unchanged(&self, post: &Self) -> bool {
        &&& self.same_world(post)
        &&& self.same_protocol(post)
    }

    /// Exactly the slot `(address, index)` now holds `value`; everything
    /// else, original storage included, is as before.
    open spec fn storage_written(
        &self,
        post: &Self,
        address: H160,
        index: H256,
        value: H256,
    ) -> bool {
        &&& post.storage_at(address, index) == value
        &&& forall|a: H160, i: H256|
            !(a == address && i == index) ==> #[trigger] post.storage_at(a, i) == self.storage_at(
                a,
                i,
            )
        &&& self.same_original(post)
        &&& self.same_balances(post)
        &&& self.same_code(post)
        &&& post.logs_of() == self.logs_of()
        &&& self.same_deletes(post)
        &&& self.same_exists(post)
        &&& self.same_protocol(post)
    }

    /// Exactly one record was appended to the log ledger; everything else is
    /// as before.
    open spec fn log_appended(
        &self,
        post: &Self,
        address: H160,
        topics: Seq<H256>,
        data: Seq<u8>,
    ) -> bool {
        &&& post.logs_of() == self.logs_of().push((address, topics, data))
        &&& self.same_storage(post)
        &&& self.same_original(post)
        &&& self.same_balances(post)
        &&& self.same_code(post)
        &&& self.same_deletes(post)
        &&& self.same_exists(post)
        &&& self.same_protocol(post)
    }

    /// Exactly `address` is now marked for deletion; existence, balances and
    /// everything else are as before.
    open spec fn delete_marked(&self, post: &Self, address: H160) -> bool {
        &&& post.deleted_of(address)
        &&& forall|a: H160| a != address ==> #[trigger] post.deleted_of(a) == self.deleted_of(a)
        &&& self.same_storage(post)
        &&& self.same_original(post)
        &&& self.same_balances(post)
        &&& self.same_code(post)
        &&& post.logs_of() == self.logs_of()
        &&& self.same_exists(post)
        &&& self.same_protocol(post)
    }

    /// The world is untouched and exactly the given numbers of traps were
    /// recorded; gas and the static flag are as before.
    open spec fn trapped(&self, post: &Self, call_traps: nat, create_traps: nat) -> bool {
        &&& self.same_world(post)
        &&& post.in_static() == self.in_static()
        &&& post.gas_of() == self.gas_of()
        &&& post.pending_call_traps() == self.pending_call_traps() + call_traps
        &&& post.pending_create_traps() == self.pending_create_traps() + create_traps
        &&& self.same_env(post)
    }

    /// What every synchronous completion of a nested operation preserves:
    /// the original storage, the static flag, the trap counts and the
    /// environment; gas can only shrink.
    open spec fn nested_exit(&self, post: &Self) -> bool {
        &&& self.same_original(post)
        &&& post.in_static() == self.in_static()
        &&& post.gas_of() <= self.gas_of()
        &&& post.pending_call_traps() == self.pending_call_traps()
        &&& post.pending_create_traps() == self.pending_create_traps()
        &&& self.same_env(post)
    }

    /// Balance of an account, zero for absent accounts.
    fn balance(&self, address: H160) -> (r: U256)
        ensures
            r == self.balance_of(address),
    ;

    /// Length of an account's code, zero for code-less accounts.
    fn code_size(&self, address: H160) -> (r: U256)
        ensures
            r@ == self.code_of(address).len(),
    ;

    /// Code hash of an account, zero-filled for absent accounts.
    fn code_hash(&self, address: H160) -> (r: H256)
        ensures
            r == self.code_hash_of(address),
    ;

    /// Code of an account, empty for code-less accounts.
    fn code(&self, address: H160) -> (r: Vec<u8>)
        ensures
            r@ == self.code_of(address),
    ;

    /// Live value of a storage slot.
    fn storage(&self, address: H160, index: H256) -> (r: H256)
        ensures
            r == self.storage_at(address, index),
    ;

    /// Value of a storage slot as of transaction start, for refund
    /// accounting.
    fn original_storage(&self, address: H160, index: H256) -> (r: H256)
        ensures
            r == self.original_storage_at(address, index),
    ;

    /// Gas remaining in the current frame.
    fn gas_left(&self) -> (r: U256)
        ensures
            r@ == self.gas_of(),
    ;

    /// Price of one unit of gas.
    fn gas_price(&self) -> (r: U256)
        ensures
            r == self.env_of().gas_price,
    ;

    /// The account that signed the transaction.
    fn origin(&self) -> (r: H160)
        ensures
            r == self.env_of().origin,
    ;

    /// Hash of the given block, zero-filled when unknown.
    fn block_hash(&self, number: U256) -> (r: H256)
        ensures
            r == self.block_hash_of(number),
    ;

    /// Height of the current block.
    fn block_number(&self) -> (r: U256)
        ensures
            r == self.env_of().block_number,
    ;

    /// Beneficiary of the current block.
    fn block_coinbase(&self) -> (r: H160)
        ensures
            r == self.env_of().block_coinbase,
    ;

    /// Timestamp of the current block.
    fn block_timestamp(&self) -> (r: U256)
        ensures
            r == self.env_of().block_timestamp,
    ;

    /// Difficulty of the current block.
    fn block_difficulty(&self) -> (r: U256)
        ensures
            r == self.env_of().block_difficulty,
    ;

    /// Gas limit of the current block.
    fn block_gas_limit(&self) -> (r: U256)
        ensures
            r == self.env_of().block_gas_limit,
    ;

    /// The chain identifier.
    fn chain_id(&self) -> (r: U256)
        ensures
            r == self.env_of().chain_id,
    ;

    /// Whether an account exists (`exists` itself is reserved by the
    /// verifier's quantifier syntax).
    fn account_exists(&self, address: H160) -> (r: bool)
        ensures
            r == self.exists_of(address),
    ;

    /// Whether an account is marked for deletion.
    fn deleted(&self, address: H160) -> (r: bool)
        ensures
            r == self.deleted_of(address),
    ;

    /// Writes a storage slot.  Fails closed under a static context, and
    /// otherwise only on host-level resource exhaustion.
    fn set_storage(&mut self, address: H160, index: H256, value: H256) -> (r: Result<
        (),
        ExitError,
    >)
        ensures
            old(self).in_static() ==> r == Err::<(), ExitError>(ExitError::StaticModeViolation),
            r is Err ==> old(self).unchanged(final(self)),
            !old(self).in_static() && r is Err ==> r == Err::<(), ExitError>(ExitError::Exhausted),
            r is Ok ==> !old(self).in_static() && old(self).storage_written(
                final(self),
                address,
                index,
                value,
            ),
    ;

    /// Appends an event record attributed to `address`.  The log ledger is
    /// ordered exactly as issued.
    fn log(&mut self, address: H160, topics: Vec<H256>, data: Vec<u8>) -> (r: Result<
        (),
        ExitError,
    >)
        ensures
            old(self).in_static() ==> r == Err::<(), ExitError>(ExitError::StaticModeViolation),
            r is Err ==> old(self).unchanged(final(self)),
            !old(self).in_static() && r is Err ==> r == Err::<(), ExitError>(ExitError::Exhausted),
            r is Ok ==> !old(self).in_static() && old(self).log_appended(
                final(self),
                address,
                topics@,
                data@,
            ),
    ;

    /// Schedules `address` for removal at transaction end, redirecting its
    /// remaining balance to `target`.  Marking twice does not double the
    /// transfer; no balance moves before transaction finalization.
    fn mark_delete(&mut self, address: H160, target: H160) -> (r: Result<(), ExitError>)
        ensures
            old(self).in_static() ==> r == Err::<(), ExitError>(ExitError::StaticModeViolation),
            r is Err ==> old(self).unchanged(final(self)),
            !old(self).in_static() && r is Err ==> r == Err::<(), ExitError>(ExitError::Exhausted),
            r is Ok ==> !old(self).in_static() && old(self).delete_marked(final(self), address),
    ;

    /// Initiates a contract creation: executes `init_code` as a constructor
    /// at an address derived from `scheme`, after moving `value` from
    /// `caller` to it.  May defer the whole sub-execution through a trap.
    fn create(
        &mut self,
        caller: H160,
        scheme: CreateScheme,
        value: U256,
        init_code: Vec<u8>,
        target_gas: Option<usize>,
    ) -> (r: Capture<(ExitReason, Option<H160>, Vec<u8>), Self::CreateInterrupt>)
        ensures
            old(self).in_static() ==> create_exit_error(r, ExitError::StaticModeViolation) && old(
                self,
            ).unchanged(final(self)),
            !old(self).in_static() && gas_exceeded(target_gas, old(self).gas_of())
                ==> create_exit_error(r, ExitError::OutOfGas) && old(self).unchanged(final(self)),
            r is Trap ==> old(self).trapped(final(self), 0, 1),
            r is Exit ==> old(self).nested_exit(final(self)),
    ;

    /// Resolves one outstanding create trap.  The default is a no-op
    /// success, acceptable for hosts that never emit traps.
    fn create_feedback(&mut self, _feedback: Self::CreateFeedback) -> (r: Result<(), ExitError>)
        ensures
            final(self).pending_create_traps() <= old(self).pending_create_traps(),
            final(self).pending_call_traps() == old(self).pending_call_traps(),
            final(self).in_static() == old(self).in_static(),
            final(self).gas_of() == old(self).gas_of(),
            forall|a: H160, i: H256|
                #[trigger] final(self).original_storage_at(a, i) == old(self).original_storage_at(
                    a,
                    i,
                ),
            final(self).env_of() == old(self).env_of(),
            forall|n: U256| #[trigger] final(self).block_hash_of(n) == old(self).block_hash_of(n),
            r is Err ==> old(self).unchanged(final(self)),
        default_ensures
            r == Ok::<(), ExitError>(()),
            *final(self) == *old(self),
    {
        Ok(())
    }

    /// Executes the code at `code_address`; when `transfer` is present the
    /// value moves before the code runs and is rolled back in full if the
    /// sub-execution reverts or errs.  `is_static` establishes or propagates
    /// a read-only context.  May defer the whole sub-execution through a
    /// trap.
    fn call(
        &mut self,
        code_address: H160,
        transfer: Option<Transfer>,
        input: Vec<u8>,
        target_gas: Option<usize>,
        is_static: bool,
        context: Context,
    ) -> (r: Capture<(ExitReason, Vec<u8>), Self::CallInterrupt>)
        ensures
            (old(self).in_static() || is_static) && transfer_has_value(transfer)
                ==> call_exit_error(r, ExitError::StaticModeViolation) && old(self).unchanged(
                final(self),
            ),
            !((old(self).in_static() || is_static) && transfer_has_value(transfer))
                && gas_exceeded(target_gas, old(self).gas_of()) ==> call_exit_error(
                r,
                ExitError::OutOfGas,
            ) && old(self).unchanged(final(self)),
            r is Trap ==> old(self).trapped(final(self), 1, 0),
            r is Exit ==> old(self).nested_exit(final(self)),
    ;

    /// Resolves one outstanding call trap.  The default is a no-op success,
    /// acceptable for hosts that never emit traps.
    fn call_feedback(&mut self, _feedback: Self::CallFeedback) -> (r: Result<(), ExitError>)
        ensures
            final(self).pending_call_traps() <= old(self).pending_call_traps(),
            final(self).pending_create_traps() == old(self).pending_create_traps(),
            final(self).in_static() == old(self).in_static(),
            final(self).gas_of() == old(self).gas_of(),
            forall|a: H160, i: H256|
                #[trigger] final(self).original_storage_at(a, i) == old(self).original_storage_at(
                    a,
                    i,
                ),
            final(self).env_of() == old(self).env_of(),
            forall|n: U256| #[trigger] final(self).block_hash_of(n) == old(self).block_hash_of(n),
            r is Err ==> old(self).unchanged(final(self)),
        default_ensures
            r == Ok::<(), ExitError>(()),
            *final(self) == *old(self),
    {
        Ok(())
    }

    /// The single interception point before each opcode runs: may inspect
    /// the context and operand stack and fail the opcode, may pre-charge
    /// gas, and must leave world state untouched.
    fn pre_validate(
        &mut self,
        context: &Context,
        opcode: Result<Opcode, ExternalOpcode>,
        stack: &Stack,
    ) -> (r: Result<(), ExitError>)
        ensures
            old(self).same_world(final(self)),
            final(self).in_static() == old(self).in_static(),
            final(self).gas_of() <= old(self).gas_of(),
            final(self).pending_call_traps() == old(self).pending_call_traps(),
            final(self).pending_create_traps() == old(self).pending_create_traps(),
            old(self).same_env(final(self)),
    ;

    /// Fallback for opcode bytes the base interpreter does not implement.
    /// The default fails closed with an out-of-gas-class error; overriding
    /// hosts must still not mutate the world from a static context.
    fn other(&mut self, _opcode: u8, _machine: &mut Machine) -> (r: Result<(), ExitError>)
        ensures
            old(self).in_static() ==> ({
                &&& forall|a: H160, i: H256|
                    #[trigger] final(self).storage_at(a, i) == old(self).storage_at(a, i)
                &&& forall|a: H160| #[trigger] final(self).balance_of(a) == old(self).balance_of(a)
                &&& forall|a: H160| #[trigger] final(self).code_of(a) == old(self).code_of(a)
                &&& final(self).logs_of() == old(self).logs_of()
                &&& forall|a: H160| #[trigger] final(self).deleted_of(a) == old(self).deleted_of(a)
                &&& forall|a: H160| #[trigger] final(self).exists_of(a) == old(self).exists_of(a)
            }),
            forall|a: H160, i: H256|
                #[trigger] final(self).original_storage_at(a, i) == old(self).original_storage_at(
                    a,
                    i,
                ),
        default_ensures
            r == Err::<(), ExitError>(ExitError::OutOfGas),
            *final(self) == *old(self),
            *final(_machine) == *old(_machine),
    {
        Err(ExitError::OutOfGas)
    }
}

/// Whether a call carries an actual value movement.
pub open spec fn transfer_has_value(transfer: Option<Transfer>) -> bool {
    transfer matches Some(t) && t.value@ != 0
}

/// Whether a requested gas forwarding exceeds what the frame has left.
pub open spec fn gas_exceeded(target_gas: Option<usize>, gas: nat) -> bool {
    target_gas matches Some(g) && g > gas
}

/// A call capture that ends at once with the given error and no output.
pub open spec fn call_exit_error<T>(r: Capture<(ExitReason, Vec<u8>), T>, e: ExitError) -> bool {
    r matches Capture::Exit(x) && x.0 == ExitReason::Error(e) && x.1@ == Seq::<u8>::empty()
}

/// A create capture that ends at once with the given error, no address and
/// no output.
pub open spec fn create_exit_error<T>(
    r: Capture<(ExitReason, Option<H160>, Vec<u8>), T>,
    e: ExitError,
) -> bool {
    r matches Capture::Exit(x) && x.0 == ExitReason::Error(e) && x.1 is None && x.2@
        == Seq::<u8>::empty()
}

} // verus!
