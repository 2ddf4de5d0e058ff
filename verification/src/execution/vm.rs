//! MicroVM — isolated, deterministic bytecode executor.
//!
//! A stack machine with a canary-protected operand stack (128 × u64). Every
//! run produces a 64-byte root: SHAKE256 over the execution trace (the tag,
//! each opcode, each immediate, each arithmetic result, and the final stack
//! depth). Any failure — empty or oversized code, an invalid opcode, stack
//! underflow or overflow, a truncated immediate, a damaged canary — yields
//! the all-zero root. The stack is wiped after every run.
//!
//! | Code | Name | Effect |
//! |------|------|--------|
//! | 0x00 | Nop  | — |
//! | 0x01 | Add  | pop b, a → push a + b (mod 2^64) |
//! | 0x02 | Xor  | pop b, a → push a ⊕ b |
//! | 0x03 | Mul  | pop b, a → push a × b (mod 2^64) |
//! | 0x04 | Div  | pop b, a → push a / b (0 if b = 0) |
//! | 0x05 | Push | push the 8-byte little-endian immediate |
//! | 0x06 | Pop  | discard the top |
//! | 0x07 | Dup  | duplicate the top |
//! | 0x08 | Swap | swap the top two |
//! | 0x09 | And  | pop b, a → push a & b |
//! | 0x0A | Or   | pop b, a → push a \| b |
//! | 0x0B | Not  | pop a → push !a |
//! | 0x0C | Shl  | pop s, a → push a << (s & 63) |
//! | 0x0D | Shr  | pop s, a → push a >> (s & 63) |
//! | 0x0E | Rot  | the bottom element moves to the top |
//! | 0x0F | Eq   | pop b, a → push 1 if a = b else 0 |
//! | 0x10 | Lt   | pop b, a → push 1 if a < b else 0 |

use crate::bytes::{decode_u64_le, le_bytes, le_value, lemma_le_bytes_len, lemma_le_roundtrip, lemma_pow256_8, to_array_64, u64_le};
use crate::osrand::os_random;
use crate::xof::{absorbed, shake256, xof_new, xof_squeeze, xof_update};
use vstd::prelude::*;

verus! {

/// Maximum bytecode length in bytes.
pub const MAX_CODE: usize = 4096;
/// Operand stack depth (128 × u64).
pub const STACK_DEPTH: usize = 128;

/// Tag absorbed first into every execution trace: "veil7:vm-trace:v2".
pub const VM_TRACE_TAG: [u8; 17] = [0x76, 0x65, 0x69, 0x6c, 0x37, 0x3a, 0x76, 0x6d, 0x2d, 0x74, 0x72, 0x61, 0x63, 0x65, 0x3a, 0x76, 0x32];

/// The instruction set.
#[derive(Clone, Copy, PartialEq, Eq, Structural)]
pub enum OpCode {
    Nop,
    Add,
    Xor,
    Mul,
    Div,
    Push,
    Pop,
    Dup,
    Swap,
    And,
    Or,
    Not,
    Shl,
    Shr,
    Rot,
    Eq,
    Lt,
}

/// The opcode a byte encodes, if any.
pub open spec fn spec_opcode(b: u8) -> Option<OpCode> {
    if b == 0x00 { Some(OpCode::Nop) }
    else if b == 0x01 { Some(OpCode::Add) }
    else if b == 0x02 { Some(OpCode::Xor) }
    else if b == 0x03 { Some(OpCode::Mul) }
    else if b == 0x04 { Some(OpCode::Div) }
    else if b == 0x05 { Some(OpCode::Push) }
    else if b == 0x06 { Some(OpCode::Pop) }
    else if b == 0x07 { Some(OpCode::Dup) }
    else if b == 0x08 { Some(OpCode::Swap) }
    else if b == 0x09 { Some(OpCode::And) }
    else if b == 0x0A { Some(OpCode::Or) }
    else if b == 0x0B { Some(OpCode::Not) }
    else if b == 0x0C { Some(OpCode::Shl) }
    else if b == 0x0D { Some(OpCode::Shr) }
    else if b == 0x0E { Some(OpCode::Rot) }
    else if b == 0x0F { Some(OpCode::Eq) }
    else if b == 0x10 { Some(OpCode::Lt) }
    else { None }
}

/// The byte that encodes an opcode.
pub open spec fn spec_opcode_byte(op: OpCode) -> u8 {
    match op {
        OpCode::Nop => 0x00,
        OpCode::Add => 0x01,
        OpCode::Xor => 0x02,
        OpCode::Mul => 0x03,
        OpCode::Div => 0x04,
        OpCode::Push => 0x05,
        OpCode::Pop => 0x06,
        OpCode::Dup => 0x07,
        OpCode::Swap => 0x08,
        OpCode::And => 0x09,
        OpCode::Or => 0x0A,
        OpCode::Not => 0x0B,
        OpCode::Shl => 0x0C,
        OpCode::Shr => 0x0D,
        OpCode::Rot => 0x0E,
        OpCode::Eq => 0x0F,
        OpCode::Lt => 0x10,
    }
}

impl OpCode {
    /// Decode an opcode byte.
    pub fn from_u8(b: u8) -> (r: Option<OpCode>)
        ensures
            r == spec_opcode(b),
    {
        match b {
            0x00 => Some(OpCode::Nop),
            0x01 => Some(OpCode::Add),
            0x02 => Some(OpCode::Xor),
            0x03 => Some(OpCode::Mul),
            0x04 => Some(OpCode::Div),
            0x05 => Some(OpCode::Push),
            0x06 => Some(OpCode::Pop),
            0x07 => Some(OpCode::Dup),
            0x08 => Some(OpCode::Swap),
            0x09 => Some(OpCode::And),
            0x0A => Some(OpCode::Or),
            0x0B => Some(OpCode::Not),
            0x0C => Some(OpCode::Shl),
            0x0D => Some(OpCode::Shr),
            0x0E => Some(OpCode::Rot),
            0x0F => Some(OpCode::Eq),
            0x10 => Some(OpCode::Lt),
            _ => None,
        }
    }

    /// The byte that encodes this opcode.
    pub fn to_u8(self) -> (b: u8)
        ensures
            b == spec_opcode_byte(self),
            spec_opcode(b) == Some(self),
    {
        match self {
            OpCode::Nop => 0x00,
            OpCode::Add => 0x01,
            OpCode::Xor => 0x02,
            OpCode::Mul => 0x03,
            OpCode::Div => 0x04,
            OpCode::Push => 0x05,
            OpCode::Pop => 0x06,
            OpCode::Dup => 0x07,
            OpCode::Swap => 0x08,
            OpCode::And => 0x09,
            OpCode::Or => 0x0A,
            OpCode::Not => 0x0B,
            OpCode::Shl => 0x0C,
            OpCode::Shr => 0x0D,
            OpCode::Rot => 0x0E,
            OpCode::Eq => 0x0F,
            OpCode::Lt => 0x10,
        }
    }

    /// Whether this opcode is followed by immediate data.
    pub fn has_immediate(self) -> (r: bool)
        ensures
            r == (self == OpCode::Push),
    {
        match self {
            OpCode::Push => true,
            _ => false,
        }
    }
}

/// Whether an opcode pops two operands and pushes one result.
pub open spec fn is_binary(op: OpCode) -> bool {
    match op {
        OpCode::Add | OpCode::Xor | OpCode::Mul | OpCode::Div | OpCode::And | OpCode::Or
        | OpCode::Shl | OpCode::Shr | OpCode::Eq | OpCode::Lt => true,
        _ => false,
    }
}

/// The result of a binary opcode on operands `a` (deeper) and `b` (top).
pub open spec fn binary_result(op: OpCode, a: u64, b: u64) -> u64 {
    match op {
        OpCode::Add => ((a as nat + b as nat) % 0x1_0000_0000_0000_0000) as u64,
        OpCode::Xor => a ^ b,
        OpCode::Mul => ((a as nat * b as nat) % 0x1_0000_0000_0000_0000) as u64,
        OpCode::Div => if b == 0 { 0 } else { a / b },
        OpCode::And => a & b,
        OpCode::Or => a | b,
        OpCode::Shl => a << (b & 63),
        OpCode::Shr => a >> (b & 63),
        OpCode::Eq => if a == b { 1 } else { 0 },
        _ => if a < b { 1 } else { 0 },
    }
}

/// Run `code` from `pc` with operand stack `stack` (bottom first) and the
/// trace absorbed so far. `None` when the run fails closed; otherwise the
/// final stack and trace.
pub open spec fn vm_run(code: Seq<u8>, pc: nat, stack: Seq<u64>, trace: Seq<u8>) -> Option<(Seq<u64>, Seq<u8>)>
    decreases code.len() - pc,
{
    if pc >= code.len() {
        Some((stack, trace))
    } else {
        match spec_opcode(code[pc as int]) {
            None => None,
            Some(op) => {
                let t1 = trace.push(code[pc as int]);
                let n = stack.len();
                match op {
                    OpCode::Nop => vm_run(code, pc + 1, stack, t1),
                    OpCode::Push => {
                        if pc + 9 > code.len() {
                            None
                        } else {
                            let imm = code.subrange(pc + 1 as int, pc + 9 as int);
                            if n >= 128 {
                                None
                            } else {
                                vm_run(code, pc + 9, stack.push(le_value(imm) as u64), t1 + imm)
                            }
                        }
                    },
                    OpCode::Pop => if n == 0 { None } else { vm_run(code, pc + 1, stack.drop_last(), t1) },
                    OpCode::Dup => {
                        if n == 0 || n >= 128 {
                            None
                        } else {
                            vm_run(code, pc + 1, stack.push(stack[n - 1]), t1)
                        }
                    },
                    OpCode::Swap => {
                        if n < 2 {
                            None
                        } else {
                            vm_run(code, pc + 1, stack.update(n - 1, stack[n - 2]).update(n - 2, stack[n - 1]), t1)
                        }
                    },
                    OpCode::Rot => {
                        if n < 2 {
                            vm_run(code, pc + 1, stack, t1)
                        } else {
                            vm_run(code, pc + 1, stack.drop_first().push(stack[0]), t1)
                        }
                    },
                    OpCode::Not => {
                        if n == 0 {
                            None
                        } else {
                            let r = !stack[n - 1];
                            vm_run(code, pc + 1, stack.drop_last().push(r), t1 + le_bytes(r as nat, 8))
                        }
                    },
                    _ => {
                        if n < 2 {
                            None
                        } else {
                            let r = binary_result(op, stack[n - 2], stack[n - 1]);
                            vm_run(code, pc + 1, stack.subrange(0, n - 2).push(r), t1 + le_bytes(r as nat, 8))
                        }
                    },
                }
            },
        }
    }
}

/// The all-zero root returned on any failure.
pub open spec fn zero_root() -> Seq<u8> {
    Seq::new(64, |i: int| 0u8)
}

/// Whether a canary value is intact (neither all-zero nor all-one bits).
pub open spec fn canary_intact(canary: u64) -> bool {
    canary != 0 && canary != u64::MAX
}

/// The 64-byte root `execute` returns for `code` under `canary`.
pub open spec fn vm_root(code: Seq<u8>, canary: u64) -> Seq<u8> {
    if code.len() == 0 || code.len() > MAX_CODE || spec_opcode(code[0]) is None || !canary_intact(canary) {
        zero_root()
    } else {
        match vm_run(code, 0, Seq::empty(), VM_TRACE_TAG@) {
            None => zero_root(),
            Some((stack, trace)) => shake256(trace + le_bytes(stack.len(), 8), 64),
        }
    }
}

/// A tiny, isolated stack machine.
pub struct MicroVM {
    stack: [u64; 128],
    sp: usize,
    canary: u64,
}

impl MicroVM {
    /// The live operand stack, bottom first.
    pub closed spec fn spec_stack(&self) -> Seq<u64> {
        self.stack@.subrange(0, self.sp as int)
    }

    /// Every stack slot, live or not.
    pub closed spec fn spec_slots(&self) -> Seq<u64> {
        self.stack@
    }

    /// The canary this VM checks before and after each run.
    pub closed spec fn spec_canary(&self) -> u64 {
        self.canary
    }

    /// Every stack slot is zero and the stack is empty.
    pub closed spec fn is_clear(&self) -> bool {
        &&& self.sp == 0
        &&& forall|i: int| 0 <= i < 128 ==> self.stack@[i] == 0
    }

    /// The stack pointer stays within the stack.
    pub closed spec fn sized(&self) -> bool {
        &&& self.sp <= 128
        &&& self.stack@.len() == 128
    }

    /// The state every VM is in between runs: empty and wiped.
    pub closed spec fn wf(&self) -> bool {
        &&& self.sized()
        &&& self.is_clear()
    }

    /// A VM between runs is wiped: its stack is empty, every slot is zero,
    /// and its stack pointer is in range. With `execute`'s `ensures`, this
    /// says that no operand outlives a run, on success and on every
    /// fail-closed path alike.
    pub proof fn lemma_wf_is_wiped(&self)
        requires
            self.wf(),
        ensures
            self.sized(),
            self.spec_stack() == Seq::<u64>::empty(),
            self.spec_slots() == Seq::new(128, |i: int| 0u64),
    {
        assert(self.spec_stack() =~= Seq::<u64>::empty());
        assert(self.spec_slots() =~= Seq::new(128, |i: int| 0u64));
    }

    /// Create a fresh VM whose canary comes from the OS random source. When the
    /// source fails the canary is zero, and every run then fails closed.
    pub fn new() -> (vm: Self)
        ensures
            vm.wf(),
    {
        let bytes = os_random(8);
        let canary: u64 = match bytes {
            Some(b) => decode_u64_le(b.as_slice(), 0),
            None => 0,
        };
        Self::with_canary(canary)
    }

    /// Create a VM with a caller-supplied canary.
    pub fn with_canary(canary: u64) -> (vm: Self)
        ensures
            vm.wf(),
            vm.spec_canary() == canary,
    {
        let vm = MicroVM { stack: [0u64; 128], sp: 0, canary };
        assert(vm.stack@.len() == 128);
        assert(forall|i: int| 0 <= i < 128 ==> vm.stack@[i] == 0);
        vm
    }

    /// Push a value. Returns false (and changes nothing) if the stack is full.
    fn push(&mut self, val: u64) -> (ok: bool)
        requires
            old(self).sized(),
        ensures
            final(self).sized(),
            final(self).canary == old(self).canary,
            ok == (old(self).sp < 128),
            ok ==> final(self).spec_stack() == old(self).spec_stack().push(val),
            !ok ==> *final(self) == *old(self),
    {
        if self.sp >= STACK_DEPTH {
            return false;
        }
        let ghost before = self.spec_stack();
        self.stack[self.sp] = val;
        self.sp = self.sp + 1;
        assert(self.spec_stack() =~= before.push(val));
        true
    }

    /// Pop a value, zeroing its slot. `None` if the stack is empty.
    fn pop(&mut self) -> (r: Option<u64>)
        requires
            old(self).sized(),
        ensures
            final(self).sized(),
            final(self).canary == old(self).canary,
            r is None <==> old(self).sp == 0,
            r is None ==> *final(self) == *old(self),
            r matches Some(v) ==> v == old(self).spec_stack().last()
                && final(self).spec_stack() == old(self).spec_stack().drop_last(),
    {
        if self.sp == 0 {
            return None;
        }
        let ghost before = self.spec_stack();
        self.sp = self.sp - 1;
        let val = self.stack[self.sp];
        self.stack[self.sp] = 0;
        assert(self.spec_stack() =~= before.drop_last());
        Some(val)
    }

    /// Execute bytecode and return its deterministic 64-byte root.
    ///
    /// Returns the all-zero root on any failure: empty code, oversized code,
    /// an invalid opcode, stack underflow/overflow, a truncated immediate, or a
    /// damaged canary. The stack is wiped whatever the outcome.
    #[verifier::spinoff_prover]
    #[verifier::rlimit(40)]
    pub fn execute(&mut self, code: &[u8]) -> (root: [u8; 64])
        requires
            old(self).wf(),
        ensures
            final(self).wf(),
            final(self).spec_canary() == old(self).spec_canary(),
            root@ == vm_root(code@, old(self).spec_canary()),
    {
        let zeros: [u8; 64] = [0u8; 64];
        assert(zeros@ =~= zero_root());
        if code.len() == 0 || code.len() > MAX_CODE {
            return zeros;
        }
        if OpCode::from_u8(code[0]).is_none() {
            return zeros;
        }
        if self.canary == 0 || self.canary == u64::MAX {
            return zeros;
        }
        // Reset the stack.
        self.wipe_state();

        let mut trace = xof_new();
        xof_update(&mut trace, &VM_TRACE_TAG);
        let ghost full = vm_run(code@, 0, Seq::empty(), VM_TRACE_TAG@);
        assert(self.spec_stack() =~= Seq::<u64>::empty());
        assert(absorbed(trace) =~= VM_TRACE_TAG@);

        let n = code.len();
        let mut pc: usize = 0;
        while pc < n
            invariant
                n == code@.len(),
                0 < n <= MAX_CODE,
                spec_opcode(code@[0]) is Some,
                zeros@ == zero_root(),
                pc <= n,
                self.sized(),
                self.canary == old(self).canary,
                canary_intact(self.canary),
                full == vm_run(code@, 0, Seq::empty(), VM_TRACE_TAG@),
                vm_run(code@, pc as nat, self.spec_stack(), absorbed(trace)) == full,
            decreases n - pc,
        {
            let ghost st = self.spec_stack();
            let ghost tr = absorbed(trace);
            let byte = code[pc];
            let op = match OpCode::from_u8(byte) {
                Some(o) => o,
                None => {
                    self.wipe_state();
                    return zeros;
                },
            };
            let one = [byte];
            xof_update(&mut trace, &one);
            assert(absorbed(trace) =~= tr.push(byte));
            pc = pc + 1;
            match op {
                OpCode::Nop => {},
                OpCode::Push => {
                    if pc + 8 > n {
                        self.wipe_state();
                        return zeros;
                    }
                    let val = decode_u64_le(code, pc);
                    let ghost imm = code@.subrange(pc as int, pc + 8);
                    let buf = u64_le(val);
                    proof {
                        lemma_pow256_8();
                        crate::bytes::lemma_le_value_bound(imm);
                        assert(imm.len() == 8);
                        lemma_le_bytes_round_value(imm);
                    }
                    xof_update(&mut trace, buf.as_slice());
                    pc = pc + 8;
                    if !self.push(val) {
                        self.wipe_state();
                        return zeros;
                    }
                },
                OpCode::Pop => {
                    if self.pop().is_none() {
                        self.wipe_state();
                        return zeros;
                    }
                },
                OpCode::Dup => {
                    if self.sp == 0 {
                        self.wipe_state();
                        return zeros;
                    }
                    let top = self.stack[self.sp - 1];
                    if !self.push(top) {
                        self.wipe_state();
                        return zeros;
                    }
                },
                OpCode::Swap => {
                    if self.sp < 2 {
                        self.wipe_state();
                        return zeros;
                    }
                    let i = self.sp - 1;
                    let j = self.sp - 2;
                    let x = self.stack[i];
                    let y = self.stack[j];
                    self.stack[i] = y;
                    self.stack[j] = x;
                    assert(self.spec_stack() =~= st.update(st.len() - 1, st[st.len() - 2]).update(st.len() - 2, st[st.len() - 1]));
                },
                OpCode::Rot => {
                    if self.sp >= 2 {
                        let bottom = self.stack[0];
                        let top = self.sp - 1;
                        let mut i: usize = 0;
                        while i < top
                            invariant
                                self.sized(),
                                self.sp == st.len(),
                                top == self.sp - 1,
                                i <= top,
                                st.len() >= 2,
                                bottom == st[0],
                                self.canary == old(self).canary,
                                forall|k: int| 0 <= k < i ==> self.stack@[k] == st[k + 1],
                                forall|k: int| i <= k < st.len() ==> self.stack@[k] == st[k],
                            decreases top - i,
                        {
                            self.stack[i] = self.stack[i + 1];
                            i = i + 1;
                        }
                        self.stack[top] = bottom;
                        assert(self.spec_stack() =~= st.drop_first().push(st[0]));
                    }
                },
                OpCode::Not => {
                    let a = match self.pop() {
                        Some(v) => v,
                        None => {
                            self.wipe_state();
                            return zeros;
                        },
                    };
                    let result = !a;
                    let rb = u64_le(result);
                    xof_update(&mut trace, rb.as_slice());
                    let ok = self.push(result);
                    assert(ok);
                },
                _ => {
                    let b = match self.pop() {
                        Some(v) => v,
                        None => {
                            self.wipe_state();
                            return zeros;
                        },
                    };
                    let a = match self.pop() {
                        Some(v) => v,
                        None => {
                            self.wipe_state();
                            return zeros;
                        },
                    };
                    let result = apply_binary(op, a, b);
                    let rb = u64_le(result);
                    xof_update(&mut trace, rb.as_slice());
                    let ok = self.push(result);
                    assert(ok);
                    assert(st.drop_last().drop_last() =~= st.subrange(0, st.len() - 2));
                },
            }
        }
        // Canary check after execution.
        if self.canary == 0 || self.canary == u64::MAX {
            self.wipe_state();
            return zeros;
        }
        let depth = u64_le(self.sp as u64);
        xof_update(&mut trace, depth.as_slice());
        let out = xof_squeeze(trace, 64);
        let root = to_array_64(&out);
        self.wipe_state();
        root
    }

    /// The number of values currently on the stack.
    pub fn stack_depth(&self) -> (d: usize)
        requires
            self.sized(),
        ensures
            d == self.spec_stack().len(),
    {
        self.sp
    }

    /// The top of the stack, if any.
    pub fn peek(&self) -> (r: Option<u64>)
        requires
            self.sized(),
        ensures
            r == (if self.spec_stack().len() == 0 { None } else { Some(self.spec_stack().last()) }),
    {
        if self.sp == 0 {
            None
        } else {
            Some(self.stack[self.sp - 1])
        }
    }

    /// A copy of every stack slot (live or not).
    pub fn stack_words(&self) -> (w: [u64; 128])
        ensures
            w@ == self.spec_slots(),
    {
        self.stack
    }

    /// Wipe all execution state (stack + pointer).
    fn wipe_state(&mut self)
        requires
            old(self).sized(),
        ensures
            final(self).wf(),
            final(self).canary == old(self).canary,
    {
        let mut i: usize = 0;
        while i < STACK_DEPTH
            invariant
                i <= 128,
                self.stack@.len() == 128,
                self.sp <= 128,
                self.canary == old(self).canary,
                forall|j: int| 0 <= j < i ==> self.stack@[j] == 0,
            decreases 128 - i,
        {
            self.stack[i] = 0;
            i = i + 1;
        }
        self.sp = 0;
    }
}

/// Eight bytes encode the value they decode to.
proof fn lemma_le_bytes_round_value(imm: Seq<u8>)
    requires
        imm.len() == 8,
    ensures
        le_bytes(le_value(imm), 8) == imm,
{
    lemma_le_bytes_inverse(imm);
}

/// Encoding a decoded byte string gives the byte string back.
pub proof fn lemma_le_bytes_inverse(s: Seq<u8>)
    ensures
        le_bytes(le_value(s), s.len()) == s,
    decreases s.len(),
{
    if s.len() > 0 {
        let v = le_value(s);
        let r = le_value(s.drop_first());
        assert(v % 256 == s[0] as nat && v / 256 == r) by (nonlinear_arith)
            requires v == s[0] as nat + 256 * r, s[0] < 256;
        lemma_le_bytes_inverse(s.drop_first());
        assert(le_bytes(v, s.len()) =~= seq![s[0]] + le_bytes(r, (s.len() - 1) as nat));
        assert(s =~= seq![s[0]] + s.drop_first());
    }
}

/// Constant-time "is non-zero" bit: 1 when `x != 0`, else 0.
fn nonzero_bit(x: u64) -> (r: u64)
    ensures
        r == (if x == 0 { 0u64 } else { 1u64 }),
{
    let neg = 0u64.wrapping_sub(x);
    let r = (x | neg) >> 63;
    assert(neg == (if x == 0 { 0u64 } else { (0x1_0000_0000_0000_0000 - x) as u64 }));
    assert(((x | (if x == 0 { 0u64 } else { (0x1_0000_0000_0000_0000 - x) as u64 })) >> 63u64)
        == (if x == 0 { 0u64 } else { 1u64 })) by (bit_vector);
    r
}

/// Constant-time division: `a / b`, or 0 when `b == 0`, without a branch on `b`.
fn ct_div(a: u64, b: u64) -> (r: u64)
    ensures
        r == binary_result(OpCode::Div, a, b),
{
    let is_nonzero = nonzero_bit(b);
    let flip = 1 - is_nonzero;
    let safe_b = b | flip;
    assert(safe_b != 0) by (bit_vector)
        requires safe_b == b | flip, flip == (if b == 0 { 1u64 } else { 0u64 });
    let raw = a / safe_b;
    let mask = 0u64.wrapping_sub(is_nonzero);
    assert(mask == (if b == 0 { 0u64 } else { 0xffff_ffff_ffff_ffffu64 }));
    let r = raw & mask;
    assert(b != 0 ==> safe_b == b) by (bit_vector)
        requires safe_b == b | flip, flip == (if b == 0 { 1u64 } else { 0u64 });
    assert(r == (if b == 0 { 0u64 } else { raw })) by (bit_vector)
        requires r == raw & mask, mask == (if b == 0 { 0u64 } else { 0xffff_ffff_ffff_ffffu64 });
    r
}

/// Constant-time equality bit: 1 when `a == b`, else 0.
fn ct_eq_bit(a: u64, b: u64) -> (r: u64)
    ensures
        r == binary_result(OpCode::Eq, a, b),
{
    let diff = a ^ b;
    let nz = nonzero_bit(diff);
    let r = nz ^ 1;
    assert(r == (if a == b { 1u64 } else { 0u64 })) by (bit_vector)
        requires
            diff == a ^ b,
            nz == (if diff == 0 { 0u64 } else { 1u64 }),
            r == nz ^ 1u64;
    r
}

/// Constant-time unsigned less-than bit: the borrow out of `a - b`.
fn ct_lt_bit(a: u64, b: u64) -> (r: u64)
    ensures
        r == binary_result(OpCode::Lt, a, b),
{
    let d = a.wrapping_sub(b);
    assert(d == (if a >= b { (a - b) as u64 } else { (a - b + 0x1_0000_0000_0000_0000) as u64 }));
    let r = ((!a & b) | (!(a ^ b) & d)) >> 63;
    assert(r == (if a < b { 1u64 } else { 0u64 })) by (bit_vector)
        requires
            d == (if a >= b { (a - b) as u64 } else { (a - b + 0x1_0000_0000_0000_0000) as u64 }),
            r == ((!a & b) | (!(a ^ b) & d)) >> 63u64;
    r
}

/// Apply a binary opcode to `a` (deeper operand) and `b` (top operand).
fn apply_binary(op: OpCode, a: u64, b: u64) -> (r: u64)
    requires
        is_binary(op),
    ensures
        r == binary_result(op, a, b),
{
    match op {
        OpCode::Add => a.wrapping_add(b),
        OpCode::Xor => a ^ b,
        OpCode::Mul => a.wrapping_mul(b),
        OpCode::Div => ct_div(a, b),
        OpCode::And => a & b,
        OpCode::Or => a | b,
        OpCode::Shl => {
            let s = b & 63;
            assert(s < 64) by (bit_vector) requires s == b & 63u64;
            a.wrapping_shl(s as u32)
        },
        OpCode::Shr => {
            let s = b & 63;
            assert(s < 64) by (bit_vector) requires s == b & 63u64;
            a.wrapping_shr(s as u32)
        },
        OpCode::Eq => ct_eq_bit(a, b),
        _ => ct_lt_bit(a, b),
    }
}


impl Default for MicroVM {
    /// A VM with canary 1.
    fn default() -> (vm: Self)
        ensures
            vm.wf(),
            vm.spec_canary() == 1,
    {
        Self::with_canary(1)
    }
}

impl Drop for MicroVM {
    /// Wipe the stack, the stack pointer and the canary.
    fn drop(&mut self)
        opens_invariants none
        no_unwind
    {
        let mut i: usize = 0;
        while i < 128
            invariant
                i <= 128,
            decreases 128 - i,
        {
            self.stack[i] = 0;
            i = i + 1;
        }
        self.sp = 0;
        self.canary = 0;
    }
}

/// Builder for VM bytecode from opcodes and immediates.
pub struct BytecodeBuilder {
    code: Vec<u8>,
}

impl View for BytecodeBuilder {
    type V = Seq<u8>;

    closed spec fn view(&self) -> Seq<u8> {
        self.code@
    }
}

impl BytecodeBuilder {
    /// An empty program.
    pub fn new() -> (b: Self)
        ensures
            b@ == Seq::<u8>::empty(),
    {
        BytecodeBuilder { code: Vec::new() }
    }

    /// Append a raw opcode byte.
    pub fn op(self, byte: u8) -> (b: Self)
        ensures
            b@ == self@.push(byte),
    {
        let mut code = self.code;
        code.push(byte);
        BytecodeBuilder { code }
    }

    /// Append `Push` with the 8-byte little-endian immediate `val`.
    pub fn push(self, val: u64) -> (b: Self)
        ensures
            b@ == self@.push(0x05) + le_bytes(val as nat, 8),
    {
        let b = self.op(OpCode::Push.to_u8());
        let imm = u64_le(val);
        let mut code = b.code;
        let mut i: usize = 0;
        let ghost start = code@;
        while i < 8
            invariant
                i <= 8,
                imm@.len() == 8,
                code@ == start + imm@.subrange(0, i as int),
            decreases 8 - i,
        {
            code.push(imm[i]);
            i = i + 1;
            assert(code@ =~= start + imm@.subrange(0, i as int));
        }
        assert(imm@.subrange(0, 8) =~= imm@);
        BytecodeBuilder { code }
    }

    /// No-operation.
    pub fn nop(self) -> (b: Self)
        ensures b@ == self@.push(0x00),
    {
        self.op(OpCode::Nop.to_u8())
    }

    /// Pop two values, push their sum (wrapping).
    pub fn add(self) -> (b: Self)
        ensures b@ == self@.push(0x01),
    {
        self.op(OpCode::Add.to_u8())
    }

    /// Pop two values, push their XOR.
    pub fn xor(self) -> (b: Self)
        ensures b@ == self@.push(0x02),
    {
        self.op(OpCode::Xor.to_u8())
    }

    /// Pop two values, push their product (wrapping).
    pub fn mul(self) -> (b: Self)
        ensures b@ == self@.push(0x03),
    {
        self.op(OpCode::Mul.to_u8())
    }

    /// Pop two values, push their quotient (0 if the divisor is 0).
    pub fn div(self) -> (b: Self)
        ensures b@ == self@.push(0x04),
    {
        self.op(OpCode::Div.to_u8())
    }

    /// Pop and discard the top value.
    pub fn pop(self) -> (b: Self)
        ensures b@ == self@.push(0x06),
    {
        self.op(OpCode::Pop.to_u8())
    }

    /// Duplicate the top value.
    pub fn dup(self) -> (b: Self)
        ensures b@ == self@.push(0x07),
    {
        self.op(OpCode::Dup.to_u8())
    }

    /// Swap the top two values.
    pub fn swap(self) -> (b: Self)
        ensures b@ == self@.push(0x08),
    {
        self.op(OpCode::Swap.to_u8())
    }

    /// Pop two values, push their bitwise AND.
    pub fn and(self) -> (b: Self)
        ensures b@ == self@.push(0x09),
    {
        self.op(OpCode::And.to_u8())
    }

    /// Pop two values, push their bitwise OR.
    pub fn or(self) -> (b: Self)
        ensures b@ == self@.push(0x0A),
    {
        self.op(OpCode::Or.to_u8())
    }

    /// Pop one value, push its bitwise NOT.
    pub fn not(self) -> (b: Self)
        ensures b@ == self@.push(0x0B),
    {
        self.op(OpCode::Not.to_u8())
    }

    /// Pop two values, push left shifted by right (mod 64).
    pub fn shl(self) -> (b: Self)
        ensures b@ == self@.push(0x0C),
    {
        self.op(OpCode::Shl.to_u8())
    }

    /// Pop two values, push left shifted right by right (mod 64).
    pub fn shr(self) -> (b: Self)
        ensures b@ == self@.push(0x0D),
    {
        self.op(OpCode::Shr.to_u8())
    }

    /// Rotate the stack (bottom becomes top).
    pub fn rot(self) -> (b: Self)
        ensures b@ == self@.push(0x0E),
    {
        self.op(OpCode::Rot.to_u8())
    }

    /// Pop two values, push 1 if equal, 0 otherwise.
    pub fn eq(self) -> (b: Self)
        ensures b@ == self@.push(0x0F),
    {
        self.op(OpCode::Eq.to_u8())
    }

    /// Pop two values, push 1 if first < second, 0 otherwise.
    pub fn lt(self) -> (b: Self)
        ensures b@ == self@.push(0x10),
    {
        self.op(OpCode::Lt.to_u8())
    }

    /// Consume the builder and return the raw bytecode.
    pub fn build(self) -> (code: Vec<u8>)
        ensures
            code@ == self@,
    {
        self.code
    }
}

impl Default for BytecodeBuilder {
    /// An empty program.
    fn default() -> (b: Self)
        ensures
            b@ == Seq::<u8>::empty(),
    {
        Self::new()
    }
}

/// What the builder writes for `push(v)` the VM reads back as `v`: running a
/// `Push` encoding from a stack with room pushes exactly `v` and traces the
/// opcode and the immediate.
pub proof fn lemma_push_encoding_runs(code: Seq<u8>, pc: nat, stack: Seq<u64>, trace: Seq<u8>, v: u64)
    requires
        pc + 9 <= code.len(),
        code.subrange(pc as int, pc + 9 as int) == seq![0x05u8] + le_bytes(v as nat, 8),
        stack.len() < 128,
    ensures
        vm_run(code, pc, stack, trace) == vm_run(code, pc + 9, stack.push(v), trace.push(0x05) + le_bytes(v as nat, 8)),
{
    let enc = seq![0x05u8] + le_bytes(v as nat, 8);
    assert(code[pc as int] == enc[0]);
    lemma_le_bytes_len(v as nat, 8);
    let imm = code.subrange(pc + 1 as int, pc + 9 as int);
    assert(imm =~= le_bytes(v as nat, 8)) by {
        assert forall|k: int| 0 <= k < 8 implies imm[k] == le_bytes(v as nat, 8)[k] by {
            assert(imm[k] == code.subrange(pc as int, pc + 9 as int)[k + 1]);
        }
    }
    lemma_pow256_8();
    lemma_le_roundtrip(v as nat, 8);
}

/// What one instruction does, for every opcode byte other than Push (see
/// `lemma_push_encoding_runs`), stated operand by operand: the run from `pc`
/// equals the run from the next instruction on the stack the instruction
/// leaves, with the opcode (and, for an arithmetic instruction, its result)
/// appended to the trace; an instruction without the operands or the room it
/// needs, or an undefined byte, fails the run.
pub proof fn lemma_vm_step(code: Seq<u8>, pc: nat, stack: Seq<u64>, trace: Seq<u8>)
    requires
        pc < code.len(),
    ensures
        ({
            let b = code[pc as int];
            let n = stack.len();
            let run = vm_run(code, pc, stack, trace);
            let t = trace.push(b);
            &&& b == 0x00 ==> run == vm_run(code, pc + 1, stack, t)
            &&& b == 0x06 ==> (if n == 0 {
                run is None
            } else {
                run == vm_run(code, pc + 1, stack.subrange(0, n - 1), t)
            })
            &&& b == 0x07 ==> (if n == 0 || n >= 128 {
                run is None
            } else {
                run == vm_run(code, pc + 1, stack + seq![stack[n - 1]], t)
            })
            &&& b == 0x08 ==> (if n < 2 {
                run is None
            } else {
                run == vm_run(
                    code,
                    pc + 1,
                    Seq::new(n, |i: int| if i == n - 1 { stack[n - 2] } else if i == n - 2 { stack[n - 1] } else { stack[i] }),
                    t,
                )
            })
            &&& b == 0x0E ==> (if n < 2 {
                run == vm_run(code, pc + 1, stack, t)
            } else {
                run == vm_run(code, pc + 1, Seq::new(n, |i: int| if i == n - 1 { stack[0] } else { stack[i + 1] }), t)
            })
            &&& b == 0x0B ==> (if n == 0 {
                run is None
            } else {
                run == vm_run(
                    code,
                    pc + 1,
                    stack.subrange(0, n - 1) + seq![!stack[n - 1]],
                    t + le_bytes((!stack[n - 1]) as nat, 8),
                )
            })
            &&& (b == 0x01 || b == 0x02 || b == 0x03 || b == 0x04 || b == 0x09 || b == 0x0A || b == 0x0C
                || b == 0x0D || b == 0x0F || b == 0x10) ==> (if n < 2 {
                run is None
            } else {
                forall|r: u64| {
                    let x = stack[n - 2];
                    let y = stack[n - 1];
                    ||| b == 0x01 && r as nat == (x as nat + y as nat) % 0x1_0000_0000_0000_0000
                    ||| b == 0x02 && r == x ^ y
                    ||| b == 0x03 && r as nat == (x as nat * y as nat) % 0x1_0000_0000_0000_0000
                    ||| b == 0x04 && r == (if y == 0 { 0 } else { x / y })
                    ||| b == 0x09 && r == x & y
                    ||| b == 0x0A && r == x | y
                    ||| b == 0x0C && r == x << (y & 63)
                    ||| b == 0x0D && r == x >> (y & 63)
                    ||| b == 0x0F && r == (if x == y { 1u64 } else { 0u64 })
                    ||| b == 0x10 && r == (if x < y { 1u64 } else { 0u64 })
                } ==> #[trigger] vm_run(code, pc + 1, stack.subrange(0, n - 2) + seq![r], t + le_bytes(r as nat, 8)) == run
            })
            &&& b > 0x10 ==> run is None
        }),
{
    let b = code[pc as int];
    let n = stack.len();
    let t = trace.push(b);
    if b == 0x06 && n > 0 {
        assert(stack.drop_last() =~= stack.subrange(0, n - 1));
    }
    if b == 0x07 && 0 < n < 128 {
        assert(stack.push(stack[n - 1]) =~= stack + seq![stack[n - 1]]);
    }
    if b == 0x08 && n >= 2 {
        assert(stack.update(n - 1, stack[n - 2]).update(n - 2, stack[n - 1])
            =~= Seq::new(n, |i: int| if i == n - 1 { stack[n - 2] } else if i == n - 2 { stack[n - 1] } else { stack[i] }));
    }
    if b == 0x0E && n >= 2 {
        assert(stack.drop_first().push(stack[0]) =~= Seq::new(n, |i: int| if i == n - 1 { stack[0] } else { stack[i + 1] }));
    }
    if b == 0x0B && n > 0 {
        assert(stack.drop_last().push(!stack[n - 1]) =~= stack.subrange(0, n - 1) + seq![!stack[n - 1]]);
    }
    if (b == 0x01 || b == 0x02 || b == 0x03 || b == 0x04 || b == 0x09 || b == 0x0A || b == 0x0C
        || b == 0x0D || b == 0x0F || b == 0x10) && n >= 2 {
        let op = spec_opcode(b).unwrap();
        let x = stack[n - 2];
        let y = stack[n - 1];
        let r0 = binary_result(op, x, y);
        assert(stack.subrange(0, n - 2).push(r0) =~= stack.subrange(0, n - 2) + seq![r0]);
        assert forall|r: u64| {
            ||| b == 0x01 && r as nat == (x as nat + y as nat) % 0x1_0000_0000_0000_0000
            ||| b == 0x02 && r == x ^ y
            ||| b == 0x03 && r as nat == (x as nat * y as nat) % 0x1_0000_0000_0000_0000
            ||| b == 0x04 && r == (if y == 0 { 0 } else { x / y })
            ||| b == 0x09 && r == x & y
            ||| b == 0x0A && r == x | y
            ||| b == 0x0C && r == x << (y & 63)
            ||| b == 0x0D && r == x >> (y & 63)
            ||| b == 0x0F && r == (if x == y { 1u64 } else { 0u64 })
            ||| b == 0x10 && r == (if x < y { 1u64 } else { 0u64 })
        } implies #[trigger] vm_run(code, pc + 1, stack.subrange(0, n - 2) + seq![r], t + le_bytes(r as nat, 8))
            == vm_run(code, pc, stack, trace) by {
            assert(r == r0);
        }
    }
}

/// The root depends on the canary only through whether it is intact: two
/// intact canaries give the same root for the same code.
pub proof fn lemma_root_independent_of_canary(code: Seq<u8>, c1: u64, c2: u64)
    requires
        canary_intact(c1),
        canary_intact(c2),
    ensures
        vm_root(code, c1) == vm_root(code, c2),
{
}

} // verus!
