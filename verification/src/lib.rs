//! Host-interaction boundary of an account-based, gas-metered virtual machine.
//!
//! The interpreter core (opcode dispatch, operand stack, gas tables) is an
//! external collaborator: every state-touching or control-transferring opcode
//! calls into the [`handler::Handler`] trait defined here.  The trait's
//! contracts pin down the protocol invariants that every concrete host must
//! obey: static-context enforcement, the gas-forwarding bound, storage
//! divergence for refund accounting, and the trap/feedback suspension
//! discipline for nested calls and creations.
//!
//! [`memory::MemoryHandler`] is a journal-based in-memory host, verified
//! against those contracts; it also provides the frame enter/commit/revert
//! operations through which revert atomicity is proved.

pub mod handler;
pub mod laws;
pub mod memory;
pub mod types;
pub mod uint;
