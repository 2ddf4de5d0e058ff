use veil7::execution::vm::{BytecodeBuilder, MicroVM, OpCode, MAX_CODE, STACK_DEPTH};

#[test]
fn deterministic_same_code_same_root() {
    let code = BytecodeBuilder::new().push(1).push(2).add().build();
    let mut vm1 = MicroVM::new();
    let mut vm2 = MicroVM::new();
    let r1 = vm1.execute(&code);
    let r2 = vm2.execute(&code);
    assert_eq!(r1, r2, "same code → same root");
}

#[test]
fn different_code_different_root() {
    let code1 = BytecodeBuilder::new().push(1).push(2).add().build();
    let code2 = BytecodeBuilder::new().push(1).push(3).add().build();
    let mut vm = MicroVM::new();
    let r1 = vm.execute(&code1);
    let r2 = vm.execute(&code2);
    assert_ne!(r1, r2);
}

#[test]
fn empty_code_returns_zeros() {
    let mut vm = MicroVM::new();
    let r = vm.execute(&[]);
    assert_eq!(r, [0u8; 64]);
}

#[test]
fn oversized_code_returns_zeros() {
    let mut vm = MicroVM::new();
    let code = vec![0x00u8; MAX_CODE + 1];
    let r = vm.execute(&code);
    assert_eq!(r, [0u8; 64]);
}

#[test]
fn invalid_first_opcode_returns_zeros() {
    let mut vm = MicroVM::new();
    let r = vm.execute(&[0xFF, 0x01, 0x02]);
    assert_eq!(r, [0u8; 64]);
}

#[test]
fn root_is_not_all_zeros_for_valid_code() {
    let code = BytecodeBuilder::new().push(42).build();
    let mut vm = MicroVM::new();
    let r = vm.execute(&code);
    assert_ne!(r, [0u8; 64], "valid code must produce non-zero root");
}

#[test]
fn nop_first_opcode_is_valid() {
    let code = BytecodeBuilder::new().nop().push(1).push(2).add().build();
    let mut vm1 = MicroVM::new();
    let mut vm2 = MicroVM::new();
    let r = vm1.execute(&code);
    let z = vm2.execute(&code);
    assert_eq!(r, z, "nop-start code is deterministic");
}

#[test]
fn add_two_numbers() {
    let code = BytecodeBuilder::new().push(10).push(20).add().build();
    let mut vm = MicroVM::new();
    let _ = vm.execute(&code);
    let code2 = BytecodeBuilder::new().push(10).push(21).add().build();
    let mut vm2 = MicroVM::new();
    let r1 = vm.execute(&BytecodeBuilder::new().push(10).push(20).add().build());
    let r2 = vm2.execute(&code2);
    assert_ne!(r1, r2, "10+20 ≠ 10+21");
}

#[test]
fn mul_wrapping() {
    let code = BytecodeBuilder::new().push(u64::MAX).push(2).mul().build();
    let mut vm = MicroVM::new();
    let r = vm.execute(&code);
    assert_ne!(r, [0u8; 64], "wrapping mul must produce valid root");
}

#[test]
fn div_by_zero_returns_zero() {
    let code = BytecodeBuilder::new().push(42).push(0).div().build();
    let mut vm = MicroVM::new();
    let r = vm.execute(&code);
    assert_ne!(r, [0u8; 64]);
}

#[test]
fn dup_duplicates_top() {
    let code = BytecodeBuilder::new().push(5).dup().add().build();
    let code_push5_only = BytecodeBuilder::new().push(5).build();
    let mut vm1 = MicroVM::new();
    let mut vm2 = MicroVM::new();
    let r1 = vm1.execute(&code);
    let r2 = vm2.execute(&code_push5_only);
    assert_ne!(r1, [0u8; 64], "dup+add must succeed");
    assert_ne!(r1, r2, "dup+add trace differs from single push");
}

#[test]
fn swap_reverses_top_two() {
    let code1 = BytecodeBuilder::new().push(1).push(2).swap().pop().build();
    let code2 = BytecodeBuilder::new().push(2).build();
    let mut vm1 = MicroVM::new();
    let mut vm2 = MicroVM::new();
    let r1 = vm1.execute(&code1);
    let r2 = vm2.execute(&code2);
    assert_ne!(r1, [0u8; 64]);
    assert_ne!(r2, [0u8; 64]);
}

#[test]
fn pop_on_empty_stack_fails() {
    let code = BytecodeBuilder::new().pop().build();
    let mut vm = MicroVM::new();
    let r = vm.execute(&code);
    assert_eq!(r, [0u8; 64], "pop on empty stack must fail-closed");
}

#[test]
fn dup_on_empty_stack_fails() {
    let code = BytecodeBuilder::new().dup().build();
    let mut vm = MicroVM::new();
    let r = vm.execute(&code);
    assert_eq!(r, [0u8; 64], "dup on empty stack must fail-closed");
}

#[test]
fn swap_on_single_element_fails() {
    let code = BytecodeBuilder::new().push(1).swap().build();
    let mut vm = MicroVM::new();
    let r = vm.execute(&code);
    assert_eq!(r, [0u8; 64], "swap with <2 elements must fail-closed");
}

#[test]
fn and_operation() {
    let code = BytecodeBuilder::new().push(0xFF00).push(0x0FF0).and().build();
    let mut vm = MicroVM::new();
    let r = vm.execute(&code);
    assert_ne!(r, [0u8; 64]);
}

#[test]
fn or_operation() {
    let code = BytecodeBuilder::new().push(0xFF00).push(0x00FF).or().build();
    let mut vm = MicroVM::new();
    let r = vm.execute(&code);
    assert_ne!(r, [0u8; 64]);
}

#[test]
fn not_operation() {
    let code = BytecodeBuilder::new().push(0).not().build();
    let mut vm = MicroVM::new();
    let r = vm.execute(&code);
    assert_ne!(r, [0u8; 64], "NOT 0 = all ones, must produce valid root");
}

#[test]
fn shl_shr_roundtrip() {
    let code = BytecodeBuilder::new().push(42).push(8).shl().push(8).shr().build();
    let mut vm = MicroVM::new();
    let r = vm.execute(&code);
    assert_ne!(r, [0u8; 64]);
}

#[test]
fn eq_equal_values() {
    let code = BytecodeBuilder::new().push(42).push(42).eq().build();
    let mut vm = MicroVM::new();
    let r = vm.execute(&code);
    assert_ne!(r, [0u8; 64]);
}

#[test]
fn eq_different_values() {
    let code = BytecodeBuilder::new().push(42).push(43).eq().build();
    let mut vm = MicroVM::new();
    let r = vm.execute(&code);
    assert_ne!(r, [0u8; 64]);
}

#[test]
fn lt_comparison() {
    let code = BytecodeBuilder::new().push(1).push(2).lt().build();
    let mut vm = MicroVM::new();
    let r = vm.execute(&code);
    assert_ne!(r, [0u8; 64]);
}

#[test]
fn rot_rotates_bottom_to_top() {
    let code1 = BytecodeBuilder::new().push(1).push(2).push(3).rot().build();
    let code2 = BytecodeBuilder::new().push(1).push(2).push(3).build();
    let mut vm1 = MicroVM::new();
    let mut vm2 = MicroVM::new();
    let r1 = vm1.execute(&code1);
    let r2 = vm2.execute(&code2);
    assert_ne!(r1, r2, "rotation must change the execution trace");
}

#[test]
fn stack_overflow_fails_closed() {
    let mut builder = BytecodeBuilder::new();
    for i in 0..=(STACK_DEPTH as u64) {
        builder = builder.push(i);
    }
    let code = builder.build();
    let mut vm = MicroVM::new();
    let r = vm.execute(&code);
    assert_eq!(r, [0u8; 64], "stack overflow must fail-closed");
}

#[test]
fn push_with_truncated_immediate_fails() {
    let mut code = vec![OpCode::Push.to_u8()];
    code.extend_from_slice(&[0x01, 0x00, 0x00, 0x00]);
    let mut vm = MicroVM::new();
    let r = vm.execute(&code);
    assert_eq!(r, [0u8; 64], "truncated Push immediate must fail-closed");
}

#[test]
fn complex_program_is_deterministic() {
    let code = BytecodeBuilder::new()
        .push(3)
        .push(5)
        .add()
        .push(10)
        .push(2)
        .xor()
        .mul()
        .build();
    let mut vm1 = MicroVM::new();
    let mut vm2 = MicroVM::new();
    let r1 = vm1.execute(&code);
    let r2 = vm2.execute(&code);
    assert_eq!(r1, r2, "complex program must be deterministic");
    assert_ne!(r1, [0u8; 64]);
}

#[test]
fn stack_is_wiped_after_execute() {
    let code = BytecodeBuilder::new().push(0xDEADBEEF).push(0xCAFEBABE).build();
    let mut vm = MicroVM::new();
    let _ = vm.execute(&code);
    assert_eq!(vm.stack_depth(), 0);
    for &slot in vm.stack_words().iter() {
        assert_eq!(slot, 0, "stack must be wiped after execute");
    }
}

#[test]
fn binary_op_with_one_element_fails() {
    let code = BytecodeBuilder::new().push(1).add().build();
    let mut vm = MicroVM::new();
    let r = vm.execute(&code);
    assert_eq!(r, [0u8; 64], "binary op needs 2 operands");
}

#[test]
fn binary_op_with_zero_elements_fails() {
    let code = BytecodeBuilder::new().nop().add().build();
    let mut vm = MicroVM::new();
    let r = vm.execute(&code);
    assert_eq!(r, [0u8; 64], "binary op on empty stack must fail");
}

#[test]
fn microvm_execute_near_max_bytes() {
    let mut builder = BytecodeBuilder::new();
    for _ in 0..100 {
        builder = builder.push(42);
    }
    let code = builder.build();
    assert_eq!(code.len(), 900);
    let mut vm = MicroVM::new();
    let root = vm.execute(&code);
    assert_ne!(root, [0u8; 64]);
}

// ── additional scenarios ────────────────────────────────────────────────────

#[test]
fn builder_push_encodes_little_endian_immediate() {
    let code = BytecodeBuilder::new().push(0x0102030405060708).add().build();
    assert_eq!(code, vec![0x05, 0x08, 0x07, 0x06, 0x05, 0x04, 0x03, 0x02, 0x01, 0x01]);
}

#[test]
fn damaged_canary_fails_closed() {
    let code = BytecodeBuilder::new().push(1).build();
    let mut zero = MicroVM::with_canary(0);
    let mut ones = MicroVM::with_canary(u64::MAX);
    assert_eq!(zero.execute(&code), [0u8; 64]);
    assert_eq!(ones.execute(&code), [0u8; 64]);
}

#[test]
fn intact_canaries_agree() {
    let code = BytecodeBuilder::new().push(7).dup().mul().build();
    let mut a = MicroVM::with_canary(3);
    let mut b = MicroVM::default();
    assert_eq!(a.execute(&code), b.execute(&code));
}

#[test]
fn invalid_opcode_midway_fails_closed() {
    let mut code = BytecodeBuilder::new().push(1).build();
    code.push(0x11);
    let mut vm = MicroVM::with_canary(9);
    assert_eq!(vm.execute(&code), [0u8; 64]);
    assert_eq!(vm.peek(), None);
}

#[test]
fn rot_with_single_element_is_identity_in_value() {
    let code = BytecodeBuilder::new().push(1).rot().build();
    let mut vm = MicroVM::with_canary(9);
    assert_ne!(vm.execute(&code), [0u8; 64]);
}

#[test]
fn opcode_roundtrip() {
    for b in 0u8..=0x10 {
        let op = OpCode::from_u8(b).expect("valid opcode");
        assert_eq!(op.to_u8(), b);
        assert_eq!(op.has_immediate(), b == 0x05);
    }
    assert!(OpCode::from_u8(0x11).is_none());
}
