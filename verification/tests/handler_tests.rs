use evm_runtime::handler::Handler;
use evm_runtime::memory::MemoryHandler;
use evm_runtime::types::{
    BlockEnv, Capture, Context, CreateScheme, ExitError, ExitReason, ExitSucceed, H160, H256,
    Machine, Stack, Transfer,
};
use evm_runtime::uint::U256;

fn addr(n: u128) -> H160 {
    H160 { hi: 0, lo: n }
}

fn word(n: u128) -> H256 {
    H256 { hi: 0, lo: n }
}

fn env() -> BlockEnv {
    BlockEnv {
        gas_price: U256::from_u64(1),
        origin: addr(1),
        chain_id: U256::from_u64(5),
        block_number: U256::from_u64(1000),
        block_coinbase: addr(2),
        block_timestamp: U256::from_u64(1_700_000_000),
        block_difficulty: U256::from_u64(0),
        block_gas_limit: U256::from_u64(30_000_000),
    }
}

/// A: balance 1000; B: balance 0; C: holds one byte of code.
fn handler() -> MemoryHandler {
    MemoryHandler::new(
        env(),
        10_000,
        vec![addr(10), addr(11), addr(12)],
        vec![(addr(10), U256::from_u64(1000))],
        vec![(addr(12), vec![0x60])],
        vec![((addr(10), word(1)), word(7))],
        vec![(addr(12), word(0xc0de))],
        vec![(U256::from_u64(999), word(0xb10c))],
    )
}

fn ctx() -> Context {
    Context { address: addr(11), caller: addr(10), apparent_value: U256::zero() }
}

#[test]
fn queries_reflect_initial_world() {
    let h = handler();
    assert_eq!(h.balance(addr(10)), U256::from_u64(1000));
    assert_eq!(h.balance(addr(99)), U256::zero());
    assert_eq!(h.code(addr(12)), vec![0x60]);
    assert_eq!(h.code(addr(10)), Vec::<u8>::new());
    assert_eq!(h.code_size(addr(12)), U256::from_u64(1));
    assert_eq!(h.code_hash(addr(12)), word(0xc0de));
    assert_eq!(h.code_hash(addr(99)), H256::zero());
    assert_eq!(h.storage(addr(10), word(1)), word(7));
    assert_eq!(h.storage(addr(10), word(2)), H256::zero());
    assert!(h.account_exists(addr(10)));
    assert!(!h.account_exists(addr(99)));
    assert!(!h.deleted(addr(10)));
}

#[test]
fn environment_accessors() {
    let h = handler();
    assert_eq!(h.gas_left(), U256::from_u64(10_000));
    assert_eq!(h.gas_price(), U256::from_u64(1));
    assert_eq!(h.origin(), addr(1));
    assert_eq!(h.chain_id(), U256::from_u64(5));
    assert_eq!(h.block_number(), U256::from_u64(1000));
    assert_eq!(h.block_coinbase(), addr(2));
    assert_eq!(h.block_timestamp(), U256::from_u64(1_700_000_000));
    assert_eq!(h.block_difficulty(), U256::from_u64(0));
    assert_eq!(h.block_gas_limit(), U256::from_u64(30_000_000));
    assert_eq!(h.block_hash(U256::from_u64(999)), word(0xb10c));
    assert_eq!(h.block_hash(U256::from_u64(1)), H256::zero());
}

#[test]
fn storage_divergence_after_write() {
    let mut h = handler();
    assert_eq!(h.set_storage(addr(10), word(1), word(42)), Ok(()));
    // the live value follows the write, the original stays at its
    // transaction-start value
    assert_eq!(h.storage(addr(10), word(1)), word(42));
    assert_eq!(h.original_storage(addr(10), word(1)), word(7));
    // untouched slots are unaffected
    assert_eq!(h.storage(addr(10), word(2)), H256::zero());
    // still diverged after an unrelated operation
    assert_eq!(h.log(addr(10), vec![], vec![]), Ok(()));
    assert_eq!(h.storage(addr(10), word(1)), word(42));
    assert_eq!(h.original_storage(addr(10), word(1)), word(7));
}

#[test]
fn static_context_rejects_mutation_and_leaves_state_unchanged() {
    let mut h = handler();
    h.enter_frame(true);
    assert_eq!(h.set_storage(addr(10), word(1), word(9)), Err(ExitError::StaticModeViolation));
    assert_eq!(h.log(addr(10), vec![word(1)], vec![1]), Err(ExitError::StaticModeViolation));
    assert_eq!(h.mark_delete(addr(10), addr(11)), Err(ExitError::StaticModeViolation));
    let t = Transfer { source: addr(10), target: addr(11), value: U256::from_u64(1) };
    match h.call(addr(11), Some(t), vec![], None, false, ctx()) {
        Capture::Exit((reason, output)) => {
            assert_eq!(reason, ExitReason::Error(ExitError::StaticModeViolation));
            assert!(output.is_empty());
        }
        Capture::Trap(_) => panic!("a static violation must not suspend"),
    }
    match h.create(addr(10), CreateScheme::Fixed(addr(20)), U256::zero(), vec![], None) {
        Capture::Exit((reason, address, output)) => {
            assert_eq!(reason, ExitReason::Error(ExitError::StaticModeViolation));
            assert_eq!(address, None);
            assert!(output.is_empty());
        }
        Capture::Trap(_) => panic!("a static violation must not suspend"),
    }
    // nothing observable changed
    assert_eq!(h.storage(addr(10), word(1)), word(7));
    assert_eq!(h.balance(addr(10)), U256::from_u64(1000));
    assert!(h.logs.is_empty());
    assert!(!h.deleted(addr(10)));
}

#[test]
fn static_context_propagates_to_nested_frames() {
    let mut h = handler();
    h.enter_frame(true);
    // a nested non-static frame cannot undo the read-only context
    h.enter_frame(false);
    assert_eq!(h.set_storage(addr(10), word(1), word(9)), Err(ExitError::StaticModeViolation));
}

#[test]
fn static_call_without_value_succeeds() {
    let mut h = handler();
    h.enter_frame(true);
    match h.call(addr(11), None, vec![], None, true, ctx()) {
        Capture::Exit((reason, output)) => {
            assert_eq!(reason, ExitReason::Succeed(ExitSucceed::Stopped));
            assert!(output.is_empty());
        }
        Capture::Trap(_) => panic!("a code-less call resolves synchronously"),
    }
}

#[test]
fn gas_forwarding_beyond_gas_left_is_out_of_gas() {
    let mut h = handler();
    match h.call(addr(11), None, vec![], Some(10_001), false, ctx()) {
        Capture::Exit((reason, _)) => assert_eq!(reason, ExitReason::Error(ExitError::OutOfGas)),
        Capture::Trap(_) => panic!("an over-forwarded call must not suspend"),
    }
    match h.create(addr(10), CreateScheme::Fixed(addr(20)), U256::zero(), vec![], Some(10_001)) {
        Capture::Exit((reason, address, _)) => {
            assert_eq!(reason, ExitReason::Error(ExitError::OutOfGas));
            assert_eq!(address, None);
        }
        Capture::Trap(_) => panic!("an over-forwarded creation must not suspend"),
    }
    // forwarding exactly the remaining gas is allowed
    match h.call(addr(11), None, vec![], Some(10_000), false, ctx()) {
        Capture::Exit((reason, _)) => assert_eq!(reason, ExitReason::Succeed(ExitSucceed::Stopped)),
        Capture::Trap(_) => panic!("a code-less call resolves synchronously"),
    }
}

#[test]
fn simple_value_transfer() {
    let mut h = handler();
    let t = Transfer { source: addr(10), target: addr(11), value: U256::from_u64(100) };
    match h.call(addr(11), Some(t), vec![], None, false, ctx()) {
        Capture::Exit((reason, output)) => {
            assert_eq!(reason, ExitReason::Succeed(ExitSucceed::Stopped));
            assert!(output.is_empty());
        }
        Capture::Trap(_) => panic!("a code-less call resolves synchronously"),
    }
    assert_eq!(h.balance(addr(10)), U256::from_u64(900));
    assert_eq!(h.balance(addr(11)), U256::from_u64(100));
}

#[test]
fn transfer_beyond_balance_is_out_of_fund() {
    let mut h = handler();
    let t = Transfer { source: addr(10), target: addr(11), value: U256::from_u64(1001) };
    match h.call(addr(11), Some(t), vec![], None, false, ctx()) {
        Capture::Exit((reason, _)) => assert_eq!(reason, ExitReason::Error(ExitError::OutOfFund)),
        Capture::Trap(_) => panic!("an unfunded call resolves synchronously"),
    }
    assert_eq!(h.balance(addr(10)), U256::from_u64(1000));
    assert_eq!(h.balance(addr(11)), U256::zero());
}

#[test]
fn failed_creation_on_collision() {
    let mut h = handler();
    // addr(12) already holds non-empty code
    match h.create(addr(10), CreateScheme::Fixed(addr(12)), U256::from_u64(5), vec![], None) {
        Capture::Exit((reason, address, output)) => {
            assert_eq!(reason, ExitReason::Error(ExitError::CreateCollision));
            assert_eq!(address, None);
            assert!(output.is_empty());
        }
        Capture::Trap(_) => panic!("a collision resolves synchronously"),
    }
    // no balance transfer was applied
    assert_eq!(h.balance(addr(10)), U256::from_u64(1000));
    assert_eq!(h.balance(addr(12)), U256::zero());
}

#[test]
fn value_only_creation_succeeds() {
    let mut h = handler();
    match h.create(addr(10), CreateScheme::Fixed(addr(20)), U256::from_u64(30), vec![], None) {
        Capture::Exit((reason, address, output)) => {
            assert_eq!(reason, ExitReason::Succeed(ExitSucceed::Returned));
            assert_eq!(address, Some(addr(20)));
            assert!(output.is_empty());
        }
        Capture::Trap(_) => panic!("a value-only creation resolves synchronously"),
    }
    assert_eq!(h.balance(addr(10)), U256::from_u64(970));
    assert_eq!(h.balance(addr(20)), U256::from_u64(30));
    assert!(h.account_exists(addr(20)));
}

#[test]
fn self_destruct_then_query() {
    let mut h = handler();
    assert_eq!(h.mark_delete(addr(10), addr(11)), Ok(()));
    assert!(h.deleted(addr(10)));
    // existence is kept until transaction end, and no balance moves yet
    assert!(h.account_exists(addr(10)));
    assert_eq!(h.balance(addr(10)), U256::from_u64(1000));
    assert_eq!(h.balance(addr(11)), U256::zero());
}

#[test]
fn mark_delete_twice_keeps_one_entry() {
    let mut h = handler();
    assert_eq!(h.mark_delete(addr(10), addr(11)), Ok(()));
    assert_eq!(h.mark_delete(addr(10), addr(11)), Ok(()));
    assert_eq!(h.deletes.len(), 1);
}

#[test]
fn log_order_is_preserved() {
    let mut h = handler();
    assert_eq!(h.log(addr(10), vec![word(1)], vec![1, 2]), Ok(()));
    assert_eq!(h.log(addr(11), vec![word(2)], vec![3]), Ok(()));
    assert_eq!(h.logs.len(), 2);
    assert_eq!(h.logs[0], (addr(10), vec![word(1)], vec![1, 2]));
    assert_eq!(h.logs[1], (addr(11), vec![word(2)], vec![3]));
}

#[test]
fn call_into_code_traps_and_takes_one_feedback() {
    let mut h = handler();
    // addr(12) holds code, so the call is deferred
    let tok = match h.call(addr(12), None, vec![0xaa], Some(500), false, ctx()) {
        Capture::Trap(tok) => tok,
        Capture::Exit(_) => panic!("a call into code must suspend"),
    };
    assert_eq!(tok.index, 0);
    assert_eq!(h.pending_calls.len(), 1);
    // exactly one feedback resolves it
    let fb = evm_runtime::memory::CallOutcome {
        reason: ExitReason::Succeed(ExitSucceed::Returned),
        output: vec![],
    };
    assert_eq!(h.call_feedback(fb), Ok(()));
    assert_eq!(h.pending_calls.len(), 0);
    // a second feedback for the same trap is a detected protocol violation
    let fb2 = evm_runtime::memory::CallOutcome {
        reason: ExitReason::Succeed(ExitSucceed::Returned),
        output: vec![],
    };
    assert_eq!(h.call_feedback(fb2), Err(ExitError::UnpairedFeedback));
}

#[test]
fn call_feedback_applies_transfer_only_on_success() {
    let mut h = handler();
    let t = Transfer { source: addr(10), target: addr(12), value: U256::from_u64(100) };
    match h.call(addr(12), Some(t), vec![], None, false, ctx()) {
        Capture::Trap(_) => {}
        Capture::Exit(_) => panic!("a call into code must suspend"),
    }
    // while suspended, nothing has moved
    assert_eq!(h.balance(addr(10)), U256::from_u64(1000));
    let fb = evm_runtime::memory::CallOutcome {
        reason: ExitReason::Revert(evm_runtime::types::ExitRevert::Reverted),
        output: vec![],
    };
    assert_eq!(h.call_feedback(fb), Ok(()));
    // the reverted sub-execution moved nothing
    assert_eq!(h.balance(addr(10)), U256::from_u64(1000));
    assert_eq!(h.balance(addr(12)), U256::zero());

    match h.call(addr(12), Some(t), vec![], None, false, ctx()) {
        Capture::Trap(_) => {}
        Capture::Exit(_) => panic!("a call into code must suspend"),
    }
    let fb2 = evm_runtime::memory::CallOutcome {
        reason: ExitReason::Succeed(ExitSucceed::Returned),
        output: vec![],
    };
    assert_eq!(h.call_feedback(fb2), Ok(()));
    assert_eq!(h.balance(addr(10)), U256::from_u64(900));
    assert_eq!(h.balance(addr(12)), U256::from_u64(100));
}

#[test]
fn create_with_init_code_traps_and_feedback_deploys() {
    let mut h = handler();
    let scheme = CreateScheme::Legacy { caller: addr(10) };
    match h.create(addr(10), scheme, U256::from_u64(10), vec![0x60, 0x00], None) {
        Capture::Trap(tok) => assert_eq!(tok.index, 0),
        Capture::Exit(_) => panic!("a derivation-dependent creation must suspend"),
    }
    let fb = evm_runtime::memory::CreateOutcome {
        reason: ExitReason::Succeed(ExitSucceed::Returned),
        address: Some(addr(30)),
        code: vec![0xfe],
    };
    assert_eq!(h.create_feedback(fb), Ok(()));
    assert_eq!(h.code(addr(30)), vec![0xfe]);
    assert!(h.account_exists(addr(30)));
    assert_eq!(h.balance(addr(30)), U256::from_u64(10));
    assert_eq!(h.balance(addr(10)), U256::from_u64(990));
    // no trap is left outstanding
    assert_eq!(
        h.create_feedback(evm_runtime::memory::CreateOutcome {
            reason: ExitReason::Succeed(ExitSucceed::Returned),
            address: Some(addr(31)),
            code: vec![],
        }),
        Err(ExitError::UnpairedFeedback)
    );
}

#[test]
fn feedback_without_trap_is_rejected() {
    let mut h = handler();
    let fb = evm_runtime::memory::CallOutcome {
        reason: ExitReason::Succeed(ExitSucceed::Stopped),
        output: vec![],
    };
    assert_eq!(h.call_feedback(fb), Err(ExitError::UnpairedFeedback));
    let fbc = evm_runtime::memory::CreateOutcome {
        reason: ExitReason::Succeed(ExitSucceed::Stopped),
        address: None,
        code: vec![],
    };
    assert_eq!(h.create_feedback(fbc), Err(ExitError::UnpairedFeedback));
}

#[test]
fn revert_undoes_storage_log_and_transfer_but_not_gas() {
    let mut h = handler();
    h.enter_frame(false);
    assert_eq!(h.set_storage(addr(10), word(1), word(42)), Ok(()));
    assert_eq!(h.log(addr(10), vec![word(3)], vec![9]), Ok(()));
    let t = Transfer { source: addr(10), target: addr(11), value: U256::from_u64(100) };
    match h.call(addr(11), Some(t), vec![], None, false, ctx()) {
        Capture::Exit((reason, _)) => assert_eq!(reason, ExitReason::Succeed(ExitSucceed::Stopped)),
        Capture::Trap(_) => panic!("a code-less call resolves synchronously"),
    }
    assert_eq!(h.use_gas(77), Ok(()));
    h.exit_frame_revert();
    // all three effects are gone
    assert_eq!(h.storage(addr(10), word(1)), word(7));
    assert!(h.logs.is_empty());
    assert_eq!(h.balance(addr(10)), U256::from_u64(1000));
    assert_eq!(h.balance(addr(11)), U256::zero());
    // gas already consumed stays charged
    assert_eq!(h.gas_left(), U256::from_u64(10_000 - 77));
}

#[test]
fn commit_keeps_frame_effects() {
    let mut h = handler();
    h.enter_frame(false);
    assert_eq!(h.set_storage(addr(10), word(1), word(42)), Ok(()));
    h.exit_frame_commit();
    assert_eq!(h.storage(addr(10), word(1)), word(42));
}

#[test]
fn use_gas_beyond_remaining_fails_without_effect() {
    let mut h = handler();
    assert_eq!(h.use_gas(10_001), Err(ExitError::OutOfGas));
    assert_eq!(h.gas_left(), U256::from_u64(10_000));
}

#[test]
fn pre_validate_enforces_the_stack_limit() {
    let mut h = handler();
    let ok_stack = Stack { data: vec![word(1)], limit: 16 };
    assert_eq!(
        h.pre_validate(&ctx(), Ok(evm_runtime::types::Opcode(0x01)), &ok_stack),
        Ok(())
    );
    let deep_stack = Stack { data: vec![word(1), word(2), word(3)], limit: 2 };
    assert_eq!(
        h.pre_validate(&ctx(), Ok(evm_runtime::types::Opcode(0x01)), &deep_stack),
        Err(ExitError::StackOverflow)
    );
}

#[test]
fn unknown_opcode_fails_closed() {
    let mut h = handler();
    let mut m = Machine {
        stack: Stack { data: vec![], limit: 4 },
        memory: vec![],
        position: 0,
    };
    assert_eq!(h.other(0xf9, &mut m), Err(ExitError::OutOfGas));
}

#[test]
fn self_transfer_leaves_balance_unchanged() {
    let mut h = handler();
    let t = Transfer { source: addr(10), target: addr(10), value: U256::from_u64(100) };
    match h.call(addr(11), Some(t), vec![], None, false, ctx()) {
        Capture::Exit((reason, _)) => assert_eq!(reason, ExitReason::Succeed(ExitSucceed::Stopped)),
        Capture::Trap(_) => panic!("a code-less call resolves synchronously"),
    }
    assert_eq!(h.balance(addr(10)), U256::from_u64(1000));
}

#[test]
fn self_transfer_beyond_balance_still_fails() {
    let mut h = handler();
    let t = Transfer { source: addr(10), target: addr(10), value: U256::from_u64(1001) };
    match h.call(addr(11), Some(t), vec![], None, false, ctx()) {
        Capture::Exit((reason, _)) => assert_eq!(reason, ExitReason::Error(ExitError::OutOfFund)),
        Capture::Trap(_) => panic!("an unfunded call resolves synchronously"),
    }
    assert_eq!(h.balance(addr(10)), U256::from_u64(1000));
}

#[test]
fn create_feedback_refuses_deploy_over_occupied_account() {
    let mut h = handler();
    let scheme = CreateScheme::Legacy { caller: addr(10) };
    match h.create(addr(10), scheme, U256::from_u64(10), vec![0x60, 0x00], None) {
        Capture::Trap(_) => {}
        Capture::Exit(_) => panic!("a derivation-dependent creation must suspend"),
    }
    // the resolver reports success at addr(12), which already holds code
    let fb = evm_runtime::memory::CreateOutcome {
        reason: ExitReason::Succeed(ExitSucceed::Returned),
        address: Some(addr(12)),
        code: vec![0xfe],
    };
    assert_eq!(h.create_feedback(fb), Err(ExitError::CreateCollision));
    // nothing was overwritten or moved, and the trap is still outstanding
    assert_eq!(h.code(addr(12)), vec![0x60]);
    assert_eq!(h.balance(addr(10)), U256::from_u64(1000));
    assert_eq!(h.pending_creates.len(), 1);
}
