//! Value types passed across the host boundary: immutable descriptors with no
//! behavior of their own.

use vstd::prelude::*;
use crate::uint::U256;

verus! {

/// A 160-bit account address: `hi * 2^128 + lo`.
#[derive(Clone, Copy, Debug, PartialEq, Eq, Structural)]
pub struct H160 {
    pub hi: u32,
    pub lo: u128,
}

impl H160 {
    /// The zero address.
    pub fn zero() -> (r: H160)
        ensures
            r == (H160 { hi: 0, lo: 0 }),
    {
        H160 { hi: 0, lo: 0 }
    }
}

/// A 256-bit hash or storage word: `hi * 2^128 + lo`.
#[derive(Clone, Copy, Debug, PartialEq, Eq, Structural)]
pub struct H256 {
    pub hi: u128,
    pub lo: u128,
}

impl H256 {
    /// The zero-filled word, the default for anything never written.
    pub fn zero() -> (r: H256)
        ensures
            r == (H256 { hi: 0, lo: 0 }),
    {
        H256 { hi: 0, lo: 0 }
    }
}

/// A value movement accompanying a call: `value` moves from `source` to
/// `target` before the callee's code runs.
#[derive(Clone, Copy, Debug, PartialEq, Eq, Structural)]
pub struct Transfer {
    /// Source address.
    pub source: H160,
    /// Target address.
    pub target: H160,
    /// Transfer value.
    pub value: U256,
}

/// Execution context of a call frame, as seen by context-reading opcodes.
#[derive(Clone, Copy, Debug, PartialEq, Eq, Structural)]
pub struct Context {
    /// Address of the code currently executing.
    pub address: H160,
    /// Address that initiated this frame.
    pub caller: H160,
    /// Value apparent to the callee, which a delegated call may fake.
    pub apparent_value: U256,
}

/// Address-derivation mode for contract creation.
#[derive(Clone, Copy, Debug, PartialEq, Eq, Structural)]
pub enum CreateScheme {
    /// Nonce-based derivation from the creating address.
    Legacy {
        /// The creating address.
        caller: H160,
    },
    /// Salted deterministic derivation from caller, code hash and salt.
    Create2 {
        /// The creating address.
        caller: H160,
        /// Hash of the initialization code.
        code_hash: H256,
        /// Caller-chosen salt.
        salt: H256,
    },
    /// A fixed target address, for hosts that pick the address themselves.
    Fixed(H160),
}

/// A machine-level failure local to the erring frame: its effects are rolled
/// back, its remaining gas is consumed, and the caller continues.
#[derive(Clone, Copy, Debug, PartialEq, Eq, Structural)]
pub enum ExitError {
    /// The frame ran out of gas, or forwarded more than it had.
    OutOfGas,
    /// The source balance cannot cover a requested transfer.
    OutOfFund,
    /// An operand was popped from an empty stack.
    StackUnderflow,
    /// A push exceeded the stack limit.
    StackOverflow,
    /// A jump landed outside the valid destinations.
    InvalidJump,
    /// An opcode byte with no meaning in this frame.
    InvalidOpcode,
    /// The configured nesting depth was exceeded.
    CallTooDeep,
    /// A creation targeted an address that already holds code.
    CreateCollision,
    /// A mutating operation was attempted in a read-only context.
    StaticModeViolation,
    /// A feedback was delivered with no matching outstanding trap, or its
    /// payload did not fit the trap it answers.
    UnpairedFeedback,
    /// Host-level resource exhaustion outside the contract's control.
    Exhausted,
}

/// The ways an execution can end successfully.
#[derive(Clone, Copy, Debug, PartialEq, Eq, Structural)]
pub enum ExitSucceed {
    /// Execution stopped without return data.
    Stopped,
    /// Execution returned data.
    Returned,
    /// The frame scheduled its own account for deletion.
    Suicided,
}

/// A contract-requested rollback: effects are undone, return data is kept.
#[derive(Clone, Copy, Debug, PartialEq, Eq, Structural)]
pub enum ExitRevert {
    /// The revert opcode.
    Reverted,
}

/// An unrecoverable host-level failure: the whole transaction must abort with
/// no partial commit.
#[derive(Clone, Copy, Debug, PartialEq, Eq, Structural)]
pub enum ExitFatal {
    /// The host cannot perform the requested operation at all.
    NotSupported,
    /// A trap was produced that no component is able to resolve.
    UnhandledInterrupt,
    /// A recoverable error escalated by the host.
    CallErrorAsFatal(ExitError),
}

/// The terminal outcome of any execution, top-level or nested.
#[derive(Clone, Copy, Debug, PartialEq, Eq, Structural)]
pub enum ExitReason {
    /// The execution succeeded.
    Succeed(ExitSucceed),
    /// The contract asked for a rollback; return data is preserved.
    Revert(ExitRevert),
    /// A machine-level failure local to the frame.
    Error(ExitError),
    /// A host-level failure that aborts the whole transaction.
    Fatal(ExitFatal),
}

/// Either the immediate completion of a sub-operation, or a deferred
/// interrupt that the host must resolve out-of-band and later feed back.
///
/// Once a `Trap` is produced the issuing frame is logically paused: it holds
/// no assumption about the outcome and resumes only on a matching feedback.
#[derive(Clone, Copy, Debug, PartialEq, Eq, Structural)]
pub enum Capture<E, T> {
    /// The operation fully resolved; the value is ready.
    Exit(E),
    /// The operation could not complete synchronously.
    Trap(T),
}

/// An opcode the base interpreter implements natively.
#[derive(Clone, Copy, Debug, PartialEq, Eq, Structural)]
pub struct Opcode(pub u8);

/// An opcode byte left to the extension hook.
#[derive(Clone, Copy, Debug, PartialEq, Eq, Structural)]
pub struct ExternalOpcode(pub u8);

/// The interpreter's operand stack, shown to the pre-validation hook.
#[derive(Clone, Debug)]
pub struct Stack {
    /// Slots, bottom first.
    pub data: Vec<H256>,
    /// Maximum number of slots.
    pub limit: usize,
}

/// The interpreter's internal execution state, handed to the extension hook.
#[derive(Clone, Debug)]
pub struct Machine {
    /// The operand stack.
    pub stack: Stack,
    /// Linear memory.
    pub memory: Vec<u8>,
    /// The program counter.
    pub position: usize,
}

/// Block and transaction environment constants, fixed for a whole
/// transaction.
#[derive(Clone, Copy, Debug, PartialEq, Eq, Structural)]
pub struct BlockEnv {
    /// Price of one unit of gas.
    pub gas_price: U256,
    /// The externally-owned account that signed the transaction.
    pub origin: H160,
    /// The chain identifier.
    pub chain_id: U256,
    /// Height of the block under construction.
    pub block_number: U256,
    /// Beneficiary of the block's fees.
    pub block_coinbase: H160,
    /// Timestamp of the block.
    pub block_timestamp: U256,
    /// Difficulty of the block.
    pub block_difficulty: U256,
    /// Gas limit of the whole block.
    pub block_gas_limit: U256,
}

} // verus!
