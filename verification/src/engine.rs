//! The virtual machine: a register file, a comparison flag, and two cursors
//! over one byte buffer (the "tape").  The tape is both the instruction
//! stream (read at the instruction cursor `ip`) and a value stack (written
//! and read at the memory cursor `mem`, which grows upward from one position
//! before the entry point).
//!
//! The machine is modelled by the ghost state `VmView`; every executable
//! operation is specified as a pure transition function on that model.

use vstd::prelude::*;

verus! {

/// Terminal outcome of one run of the machine.
///
/// `Accept` is reached when the opcode byte at the instruction cursor lies
/// outside the instruction set (above 16); by construction this happens when
/// execution runs off the program region.  `Fail` is the explicit reject
/// opcode.  `Fault` is this implementation's explicit answer to the boundary
/// conditions the machine itself leaves open: a cursor or operand outside the
/// tape, a read of the target key past its last byte, or a memory cursor at
/// the lower limit of its representation.  A step that faults leaves the
/// machine unchanged.
#[derive(Clone, Copy, Debug, PartialEq, Eq, Structural)]
pub enum Outcome {
    Accept,
    Fail,
    Fault,
}

/// The mathematical state of the machine: register file, comparison flag,
/// tape contents, instruction cursor, memory cursor, and the index of the
/// next target-key byte to be revealed.
pub ghost struct VmView {
    pub regs: Seq<u8>,
    pub flag: bool,
    pub tape: Seq<u8>,
    pub ip: int,
    pub mem: int,
    pub key_index: int,
}

/// The embedded 31-byte reference key, revealed back to front by the
/// `read-secret` opcode.
pub open spec fn target_key_spec() -> Seq<u8> {
    seq![
        0x79u8, 0x73u8, 0x4eu8, 0x2bu8, 0x23u8, 0xb4u8, 0x5bu8, 0x33u8, 0x35u8, 0x7eu8, 0x7au8,
        0x13u8, 0x69u8, 0x74u8, 0x4eu8, 0x10u8, 0x52u8, 0x76u8, 0xfau8, 0xecu8, 0x69u8, 0x00u8,
        0x2cu8, 0x35u8, 0x75u8, 0x64u8, 0x18u8, 0x57u8, 0x33u8, 0x78u8, 0xedu8,
    ]
}

/// The number of bytes in the target key.
pub const KEY_LEN: usize = 31;

/// Largest tape the machine accepts; keeps all cursor arithmetic far from
/// the limits of its 64-bit representation.
pub const TAPE_CAP: usize = 0x7fff_ffff;

/// The value a register operand resolves to: the named register for operands
/// 1 through 4, and zero for every operand outside that range.
pub open spec fn reg_value(regs: Seq<u8>, c: u8) -> u8 {
    if 1 <= c && c <= 4 {
        regs[c - 1]
    } else {
        0
    }
}

/// Storing through a register operand: operands 1 through 4 replace the named
/// register, every operand outside that range stores nothing.
pub open spec fn reg_store(regs: Seq<u8>, c: u8, v: u8) -> Seq<u8> {
    if 1 <= c && c <= 4 {
        regs.update(c - 1, v)
    } else {
        regs
    }
}

/// The operand bytes of the current instruction, at offsets 1 up to `k` from
/// the opcode byte, all lie on the tape.
pub open spec fn opnd_ok(s: VmView, k: int) -> bool {
    0 <= s.ip && s.ip + k < s.tape.len()
}

/// The machine as started on a tape: registers cleared, flag down, the
/// instruction cursor at the entry point (position 0 of the tape), the memory
/// cursor at the sentinel position one before it, and the whole target key
/// still unread.
pub open spec fn start_view(tape: Seq<u8>) -> VmView {
    VmView {
        regs: seq![0u8, 0u8, 0u8, 0u8],
        flag: false,
        tape: tape,
        ip: 0,
        mem: -1,
        key_index: (KEY_LEN - 1) as int,
    }
}

impl VmView {
    /// Well-formedness of the model: four registers, a bounded tape, both
    /// key index and cursors within the ranges the machine can produce.
    pub open spec fn wf(self) -> bool {
        &&& self.regs.len() == 4
        &&& self.tape.len() <= TAPE_CAP
        &&& -0x200 <= self.ip <= self.tape.len() + 0x200
        &&& i64::MIN <= self.mem < self.tape.len()
        &&& -1 <= self.key_index < KEY_LEN
    }
}

/// `pop-register` (opcode 0, operand: destination register).  Unless the
/// memory cursor is at the sentinel, the tape byte under it is copied into
/// the destination register; the memory cursor retreats by one in every case,
/// past the sentinel included.
pub open spec fn pop_step(s: VmView) -> (VmView, Option<Outcome>) {
    if !opnd_ok(s, 1) {
        (s, Some(Outcome::Fault))
    } else if s.mem != -1 && 1 <= s.tape[s.ip + 1] && s.tape[s.ip + 1] <= 4 && !(0 <= s.mem
        && s.mem < s.tape.len()) {
        (s, Some(Outcome::Fault))
    } else if s.mem <= i64::MIN {
        (s, Some(Outcome::Fault))
    } else {
        let c = s.tape[s.ip + 1];
        let regs2 = if s.mem != -1 && 1 <= c && c <= 4 {
            s.regs.update(c - 1, s.tape[s.mem])
        } else {
            s.regs
        };
        (VmView { regs: regs2, mem: s.mem - 1, ip: s.ip + 2, ..s }, None)
    }
}

/// `read-secret` (opcode 1, operand: destination register).  The target-key
/// byte at the read index is stored through the operand, and the index
/// retreats by one; once the whole key has been consumed a further read is a
/// fault.
pub open spec fn read_secret_step(s: VmView) -> (VmView, Option<Outcome>) {
    if !opnd_ok(s, 1) {
        (s, Some(Outcome::Fault))
    } else if s.key_index < 0 {
        (s, Some(Outcome::Fault))
    } else {
        let regs2 = reg_store(s.regs, s.tape[s.ip + 1], target_key_spec()[s.key_index]);
        (VmView { regs: regs2, key_index: s.key_index - 1, ip: s.ip + 2, ..s }, None)
    }
}

/// `push-immediate` (opcode 2, operand: a literal byte).  The memory cursor
/// advances by one and the literal is written at it.
pub open spec fn push_lit_step(s: VmView) -> (VmView, Option<Outcome>) {
    if !opnd_ok(s, 1) {
        (s, Some(Outcome::Fault))
    } else if !(0 <= s.mem + 1 && s.mem + 1 < s.tape.len()) {
        (s, Some(Outcome::Fault))
    } else {
        let v = s.tape[s.ip + 1];
        (VmView { mem: s.mem + 1, tape: s.tape.update(s.mem + 1, v), ip: s.ip + 2, ..s }, None)
    }
}

/// `push-register` (opcode 3, operand: source register).  The memory cursor
/// advances by one and the resolved register value is written at it.
pub open spec fn push_reg_step(s: VmView) -> (VmView, Option<Outcome>) {
    if !opnd_ok(s, 1) {
        (s, Some(Outcome::Fault))
    } else if !(0 <= s.mem + 1 && s.mem + 1 < s.tape.len()) {
        (s, Some(Outcome::Fault))
    } else {
        let v = reg_value(s.regs, s.tape[s.ip + 1]);
        (VmView { mem: s.mem + 1, tape: s.tape.update(s.mem + 1, v), ip: s.ip + 2, ..s }, None)
    }
}

/// `compare` (opcode 5, operands: two registers).  The flag records whether
/// the two resolved values are identical.
pub open spec fn cmp_step(s: VmView) -> (VmView, Option<Outcome>) {
    if !opnd_ok(s, 2) {
        (s, Some(Outcome::Fault))
    } else {
        let v1 = reg_value(s.regs, s.tape[s.ip + 1]);
        let v2 = reg_value(s.regs, s.tape[s.ip + 2]);
        (VmView { flag: v1 == v2, ip: s.ip + 3, ..s }, None)
    }
}

/// `move` (opcode 6, operands: destination then source register).
pub open spec fn mov_step(s: VmView) -> (VmView, Option<Outcome>) {
    if !opnd_ok(s, 2) {
        (s, Some(Outcome::Fault))
    } else {
        let v = reg_value(s.regs, s.tape[s.ip + 2]);
        (VmView { regs: reg_store(s.regs, s.tape[s.ip + 1], v), ip: s.ip + 3, ..s }, None)
    }
}

/// The shared shape of the two conditional jumps: when taken, the cursor
/// advances by exactly the operand byte; when not taken, by exactly 2.
pub open spec fn jump_if_step(s: VmView, taken: bool) -> (VmView, Option<Outcome>) {
    if !opnd_ok(s, 1) {
        (s, Some(Outcome::Fault))
    } else if taken {
        (VmView { ip: s.ip + s.tape[s.ip + 1], ..s }, None)
    } else {
        (VmView { ip: s.ip + 2, ..s }, None)
    }
}

/// `jump-if-equal` (opcode 7, operand: offset), taken when the flag is up.
pub open spec fn je_step(s: VmView) -> (VmView, Option<Outcome>) {
    jump_if_step(s, s.flag)
}

/// `jump-if-not-equal` (opcode 8, operand: offset), taken when the flag is
/// down.
pub open spec fn jne_step(s: VmView) -> (VmView, Option<Outcome>) {
    jump_if_step(s, !s.flag)
}

/// `jump-back` (opcode 9, operand: offset).  The cursor retreats by exactly
/// the operand byte, with no further advance.
pub open spec fn jback_step(s: VmView) -> (VmView, Option<Outcome>) {
    if !opnd_ok(s, 1) {
        (s, Some(Outcome::Fault))
    } else {
        (VmView { ip: s.ip - s.tape[s.ip + 1], ..s }, None)
    }
}

/// The shared shape of the two-operand register transforms (opcodes 10 to
/// 15): the register named by the first operand is replaced by `f` of its
/// resolved value and the second operand byte, and the cursor advances by 3.
pub open spec fn alu_step(s: VmView, f: spec_fn(u8, u8) -> u8) -> (VmView, Option<Outcome>) {
    if !opnd_ok(s, 2) {
        (s, Some(Outcome::Fault))
    } else {
        let c = s.tape[s.ip + 1];
        let v = f(reg_value(s.regs, c), s.tape[s.ip + 2]);
        (VmView { regs: reg_store(s.regs, c, v), ip: s.ip + 3, ..s }, None)
    }
}

/// Rotation of an 8-bit value left by `n` places (`n` taken modulo 8).
pub open spec fn rol8(v: u8, n: u8) -> u8 {
    let k = (n % 8) as u8;
    if k == 0 {
        v
    } else {
        (v << k) | (v >> ((8 - k) as u8))
    }
}

/// Rotation of an 8-bit value right by `n` places (`n` taken modulo 8).
pub open spec fn ror8(v: u8, n: u8) -> u8 {
    let k = (n % 8) as u8;
    if k == 0 {
        v
    } else {
        (v >> k) | (v << ((8 - k) as u8))
    }
}

/// `xor` (opcode 10): register ^= literal.
pub open spec fn xor_step(s: VmView) -> (VmView, Option<Outcome>) {
    alu_step(s, |a: u8, b: u8| a ^ b)
}

/// `rotate-right` (opcode 11).
pub open spec fn ror_step(s: VmView) -> (VmView, Option<Outcome>) {
    alu_step(s, |a: u8, b: u8| ror8(a, b))
}

/// `rotate-left` (opcode 12).
pub open spec fn rol_step(s: VmView) -> (VmView, Option<Outcome>) {
    alu_step(s, |a: u8, b: u8| rol8(a, b))
}

/// `add` (opcode 13): wraparound addition of the literal.
pub open spec fn add_step(s: VmView) -> (VmView, Option<Outcome>) {
    alu_step(s, |a: u8, b: u8| vstd::wrapping::u8_specs::wrapping_add(a, b))
}

/// `subtract` (opcode 14): wraparound subtraction of the literal.
pub open spec fn sub_step(s: VmView) -> (VmView, Option<Outcome>) {
    alu_step(s, |a: u8, b: u8| vstd::wrapping::u8_specs::wrapping_sub(a, b))
}

/// `multiply` (opcode 15): wraparound multiplication by the literal.
pub open spec fn mul_step(s: VmView) -> (VmView, Option<Outcome>) {
    alu_step(s, |a: u8, b: u8| vstd::wrapping::u8_specs::wrapping_mul(a, b))
}

/// `increment` (opcode 16, operand: a register).  Wraparound increment, so
/// that it can never fault on overflow, exactly like its arithmetic
/// siblings.
pub open spec fn inc_step(s: VmView) -> (VmView, Option<Outcome>) {
    if !opnd_ok(s, 1) {
        (s, Some(Outcome::Fault))
    } else {
        let c = s.tape[s.ip + 1];
        let v = vstd::wrapping::u8_specs::wrapping_add(reg_value(s.regs, c), 1);
        (VmView { regs: reg_store(s.regs, c, v), ip: s.ip + 2, ..s }, None)
    }
}

/// One step of the machine: dispatch on the opcode byte at the instruction
/// cursor.  Opcode 4 stops the run as `Fail`; any opcode above 16 stops it
/// as `Accept`; a cursor off the tape stops it as `Fault`.  A stopped or
/// faulted step leaves the state unchanged.
pub open spec fn step_view(s: VmView) -> (VmView, Option<Outcome>) {
    if !(0 <= s.ip && s.ip < s.tape.len()) {
        (s, Some(Outcome::Fault))
    } else {
        let op = s.tape[s.ip];
        if op == 0 {
            pop_step(s)
        } else if op == 1 {
            read_secret_step(s)
        } else if op == 2 {
            push_lit_step(s)
        } else if op == 3 {
            push_reg_step(s)
        } else if op == 4 {
            (s, Some(Outcome::Fail))
        } else if op == 5 {
            cmp_step(s)
        } else if op == 6 {
            mov_step(s)
        } else if op == 7 {
            je_step(s)
        } else if op == 8 {
            jne_step(s)
        } else if op == 9 {
            jback_step(s)
        } else if op == 10 {
            xor_step(s)
        } else if op == 11 {
            ror_step(s)
        } else if op == 12 {
            rol_step(s)
        } else if op == 13 {
            add_step(s)
        } else if op == 14 {
            sub_step(s)
        } else if op == 15 {
            mul_step(s)
        } else if op == 16 {
            inc_step(s)
        } else {
            (s, Some(Outcome::Accept))
        }
    }
}

/// The machine after `n` steps from `s`, paired with its terminal outcome if
/// it stopped within those steps.  A stopped machine stays stopped: for every
/// `m >= n` the result is the same pair.
pub open spec fn run_view(s: VmView, n: nat) -> (VmView, Option<Outcome>)
    decreases n,
{
    if n == 0 {
        (s, None)
    } else {
        let prev = run_view(s, (n - 1) as nat);
        if prev.1 is Some {
            prev
        } else {
            step_view(prev.0)
        }
    }
}

/// Law: a stopped run stays stopped.  Once `run_view` reports a terminal
/// outcome at some step count, every larger step count reports the same
/// state and the same outcome — so the outcome a run reaches is the one
/// terminal outcome of its tape, whatever fuel uncovered it.
pub proof fn lemma_run_view_stable(s: VmView, n: nat, m: nat)
    requires
        n <= m,
        run_view(s, n).1 is Some,
    ensures
        run_view(s, m) == run_view(s, n),
    decreases m,
{
    if m > n {
        lemma_run_view_stable(s, n, (m - 1) as nat);
    }
}

/// The machine state, executable form.  `ip` is the instruction cursor,
/// `mem` the memory cursor; the sentinel "no value present" position of the
/// memory cursor is -1, one position before the entry point.
pub struct InputTable {
    pub registers: Vec<u8>,
    pub flag: bool,
    pub tape: Vec<u8>,
    pub ip: i64,
    pub mem: i64,
    pub key_index: i64,
    pub target_key: Vec<u8>,
}

impl View for InputTable {
    type V = VmView;

    open spec fn view(&self) -> VmView {
        VmView {
            regs: self.registers@,
            flag: self.flag,
            tape: self.tape@,
            ip: self.ip as int,
            mem: self.mem as int,
            key_index: self.key_index as int,
        }
    }
}

impl InputTable {
    /// The executable state is well formed: its model is, and the embedded
    /// key is the reference key.
    pub open spec fn wf(&self) -> bool {
        &&& self@.wf()
        &&& self.target_key@ == target_key_spec()
    }

    /// A fresh machine over the given tape, ready to execute from position 0.
    pub fn new(tape: Vec<u8>) -> (r: InputTable)
        requires
            tape@.len() <= TAPE_CAP,
        ensures
            r.wf(),
            r@ == start_view(tape@),
    {
        let mut registers: Vec<u8> = Vec::new();
        registers.push(0);
        registers.push(0);
        registers.push(0);
        registers.push(0);
        let r = InputTable {
            registers,
            flag: false,
            tape,
            ip: 0,
            mem: -1,
            key_index: (KEY_LEN - 1) as i64,
            target_key: target_key_bytes(),
        };
        proof {
            assert(r.registers@ =~= seq![0u8, 0u8, 0u8, 0u8]);
            assert(r@ =~= start_view(r.tape@));
        }
        r
    }

    /// `pop-register`: copy the byte under the memory cursor into the operand
    /// register unless the cursor is at the sentinel; the cursor retreats in
    /// every case.
    pub fn pop_reg_op(&mut self) -> (r: Option<Outcome>)
        requires
            old(self).wf(),
        ensures
            final(self).wf(),
            final(self)@ == pop_step(old(self)@).0,
            r == pop_step(old(self)@).1,
    {
        if self.ip < 0 || self.ip + 1 >= self.tape.len() as i64 {
            return Some(Outcome::Fault);
        }
        let c = self.tape[(self.ip + 1) as usize];
        if self.mem != -1 && 1 <= c && c <= 4 {
            if self.mem < 0 || self.mem >= self.tape.len() as i64 {
                return Some(Outcome::Fault);
            }
            let v = self.tape[self.mem as usize];
            self.registers[(c - 1) as usize] = v;
        }
        if self.mem == i64::MIN {
            return Some(Outcome::Fault);
        }
        self.mem = self.mem - 1;
        self.ip = self.ip + 2;
        None
    }

    /// `read-secret`: reveal the next target-key byte (back to front) into
    /// the operand register; reading past the first byte is a fault.
    pub fn read_secret_op(&mut self) -> (r: Option<Outcome>)
        requires
            old(self).wf(),
        ensures
            final(self).wf(),
            final(self)@ == read_secret_step(old(self)@).0,
            r == read_secret_step(old(self)@).1,
    {
        if self.ip < 0 || self.ip + 1 >= self.tape.len() as i64 {
            return Some(Outcome::Fault);
        }
        if self.key_index < 0 {
            return Some(Outcome::Fault);
        }
        let c = self.tape[(self.ip + 1) as usize];
        if 1 <= c && c <= 4 {
            let v = self.target_key[self.key_index as usize];
            self.registers[(c - 1) as usize] = v;
        }
        self.key_index = self.key_index - 1;
        self.ip = self.ip + 2;
        None
    }

    /// `push-immediate`: advance the memory cursor and write the literal
    /// operand at it.
    pub fn push_mem_op(&mut self) -> (r: Option<Outcome>)
        requires
            old(self).wf(),
        ensures
            final(self).wf(),
            final(self)@ == push_lit_step(old(self)@).0,
            r == push_lit_step(old(self)@).1,
    {
        if self.ip < 0 || self.ip + 1 >= self.tape.len() as i64 {
            return Some(Outcome::Fault);
        }
        let v = self.tape[(self.ip + 1) as usize];
        if self.mem + 1 < 0 || self.mem + 1 >= self.tape.len() as i64 {
            return Some(Outcome::Fault);
        }
        self.mem = self.mem + 1;
        self.tape[self.mem as usize] = v;
        self.ip = self.ip + 2;
        None
    }

    /// `push-register`: advance the memory cursor and write the resolved
    /// operand register value at it.
    pub fn push_reg_op(&mut self) -> (r: Option<Outcome>)
        requires
            old(self).wf(),
        ensures
            final(self).wf(),
            final(self)@ == push_reg_step(old(self)@).0,
            r == push_reg_step(old(self)@).1,
    {
        if self.ip < 0 || self.ip + 1 >= self.tape.len() as i64 {
            return Some(Outcome::Fault);
        }
        let c = self.tape[(self.ip + 1) as usize];
        let v = if 1 <= c && c <= 4 {
            self.registers[(c - 1) as usize]
        } else {
            0
        };
        if self.mem + 1 < 0 || self.mem + 1 >= self.tape.len() as i64 {
            return Some(Outcome::Fault);
        }
        self.mem = self.mem + 1;
        self.tape[self.mem as usize] = v;
        self.ip = self.ip + 2;
        None
    }

    /// `compare`: raise the flag exactly when the two resolved operand
    /// values are identical.
    pub fn cmp_op(&mut self) -> (r: Option<Outcome>)
        requires
            old(self).wf(),
        ensures
            final(self).wf(),
            final(self)@ == cmp_step(old(self)@).0,
            r == cmp_step(old(self)@).1,
    {
        if self.ip < 0 || self.ip + 2 >= self.tape.len() as i64 {
            return Some(Outcome::Fault);
        }
        let c1 = self.tape[(self.ip + 1) as usize];
        let c2 = self.tape[(self.ip + 2) as usize];
        let v1 = if 1 <= c1 && c1 <= 4 {
            self.registers[(c1 - 1) as usize]
        } else {
            0
        };
        let v2 = if 1 <= c2 && c2 <= 4 {
            self.registers[(c2 - 1) as usize]
        } else {
            0
        };
        self.flag = v1 == v2;
        self.ip = self.ip + 3;
        None
    }

    /// `move`: store the resolved source value through the destination
    /// operand.
    pub fn mov_op(&mut self) -> (r: Option<Outcome>)
        requires
            old(self).wf(),
        ensures
            final(self).wf(),
            final(self)@ == mov_step(old(self)@).0,
            r == mov_step(old(self)@).1,
    {
        if self.ip < 0 || self.ip + 2 >= self.tape.len() as i64 {
            return Some(Outcome::Fault);
        }
        let c1 = self.tape[(self.ip + 1) as usize];
        let c2 = self.tape[(self.ip + 2) as usize];
        let v2 = if 1 <= c2 && c2 <= 4 {
            self.registers[(c2 - 1) as usize]
        } else {
            0
        };
        if 1 <= c1 && c1 <= 4 {
            self.registers[(c1 - 1) as usize] = v2;
        }
        self.ip = self.ip + 3;
        None
    }

    /// The shared body of the conditional jumps: advance the cursor by the
    /// operand byte when `taken`, by 2 otherwise.
    pub fn jump_if_op(&mut self, taken: bool) -> (r: Option<Outcome>)
        requires
            old(self).wf(),
        ensures
            final(self).wf(),
            final(self)@ == jump_if_step(old(self)@, taken).0,
            r == jump_if_step(old(self)@, taken).1,
    {
        if self.ip < 0 || self.ip + 1 >= self.tape.len() as i64 {
            return Some(Outcome::Fault);
        }
        if taken {
            let off = self.tape[(self.ip + 1) as usize];
            self.ip = self.ip + off as i64;
        } else {
            self.ip = self.ip + 2;
        }
        None
    }

    /// `jump-if-equal`: taken when the flag is up.
    pub fn je_op(&mut self) -> (r: Option<Outcome>)
        requires
            old(self).wf(),
        ensures
            final(self).wf(),
            final(self)@ == je_step(old(self)@).0,
            r == je_step(old(self)@).1,
    {
        let taken = self.flag;
        self.jump_if_op(taken)
    }

    /// `jump-if-not-equal`: taken when the flag is down.
    pub fn jne_op(&mut self) -> (r: Option<Outcome>)
        requires
            old(self).wf(),
        ensures
            final(self).wf(),
            final(self)@ == jne_step(old(self)@).0,
            r == jne_step(old(self)@).1,
    {
        let taken = !self.flag;
        self.jump_if_op(taken)
    }

    /// `jump-back`: retreat the cursor by the operand byte, unconditionally
    /// and with no further advance.
    pub fn jmp_back_op(&mut self) -> (r: Option<Outcome>)
        requires
            old(self).wf(),
        ensures
            final(self).wf(),
            final(self)@ == jback_step(old(self)@).0,
            r == jback_step(old(self)@).1,
    {
        if self.ip < 0 || self.ip + 1 >= self.tape.len() as i64 {
            return Some(Outcome::Fault);
        }
        let off = self.tape[(self.ip + 1) as usize];
        self.ip = self.ip - off as i64;
        None
    }

    /// `xor`: exclusive-or the literal operand into the operand register.
    pub fn xor_op(&mut self) -> (r: Option<Outcome>)
        requires
            old(self).wf(),
        ensures
            final(self).wf(),
            final(self)@ == xor_step(old(self)@).0,
            r == xor_step(old(self)@).1,
    {
        if self.ip < 0 || self.ip + 2 >= self.tape.len() as i64 {
            return Some(Outcome::Fault);
        }
        let c = self.tape[(self.ip + 1) as usize];
        let lit = self.tape[(self.ip + 2) as usize];
        if 1 <= c && c <= 4 {
            let i = (c - 1) as usize;
            self.registers[i] = self.registers[i] ^ lit;
        }
        self.ip = self.ip + 3;
        None
    }

    /// `rotate-right` of the operand register by the literal operand.
    pub fn ror_op(&mut self) -> (r: Option<Outcome>)
        requires
            old(self).wf(),
        ensures
            final(self).wf(),
            final(self)@ == ror_step(old(self)@).0,
            r == ror_step(old(self)@).1,
    {
        if self.ip < 0 || self.ip + 2 >= self.tape.len() as i64 {
            return Some(Outcome::Fault);
        }
        let c = self.tape[(self.ip + 1) as usize];
        let amt = self.tape[(self.ip + 2) as usize];
        if 1 <= c && c <= 4 {
            let i = (c - 1) as usize;
            let v = self.registers[i];
            let k = amt % 8;
            let w = if k == 0 {
                v
            } else {
                (v >> k) | (v << (8 - k))
            };
            self.registers[i] = w;
        }
        self.ip = self.ip + 3;
        None
    }

    /// `rotate-left` of the operand register by the literal operand.
    pub fn rol_op(&mut self) -> (r: Option<Outcome>)
        requires
            old(self).wf(),
        ensures
            final(self).wf(),
            final(self)@ == rol_step(old(self)@).0,
            r == rol_step(old(self)@).1,
    {
        if self.ip < 0 || self.ip + 2 >= self.tape.len() as i64 {
            return Some(Outcome::Fault);
        }
        let c = self.tape[(self.ip + 1) as usize];
        let amt = self.tape[(self.ip + 2) as usize];
        if 1 <= c && c <= 4 {
            let i = (c - 1) as usize;
            let v = self.registers[i];
            let k = amt % 8;
            let w = if k == 0 {
                v
            } else {
                (v << k) | (v >> (8 - k))
            };
            self.registers[i] = w;
        }
        self.ip = self.ip + 3;
        None
    }

    /// `add`: wraparound addition of the literal operand.
    pub fn add_op(&mut self) -> (r: Option<Outcome>)
        requires
            old(self).wf(),
        ensures
            final(self).wf(),
            final(self)@ == add_step(old(self)@).0,
            r == add_step(old(self)@).1,
    {
        if self.ip < 0 || self.ip + 2 >= self.tape.len() as i64 {
            return Some(Outcome::Fault);
        }
        let c = self.tape[(self.ip + 1) as usize];
        let lit = self.tape[(self.ip + 2) as usize];
        if 1 <= c && c <= 4 {
            let i = (c - 1) as usize;
            self.registers[i] = self.registers[i].wrapping_add(lit);
        }
        self.ip = self.ip + 3;
        None
    }

    /// `subtract`: wraparound subtraction of the literal operand.
    pub fn sub_op(&mut self) -> (r: Option<Outcome>)
        requires
            old(self).wf(),
        ensures
            final(self).wf(),
            final(self)@ == sub_step(old(self)@).0,
            r == sub_step(old(self)@).1,
    {
        if self.ip < 0 || self.ip + 2 >= self.tape.len() as i64 {
            return Some(Outcome::Fault);
        }
        let c = self.tape[(self.ip + 1) as usize];
        let lit = self.tape[(self.ip + 2) as usize];
        if 1 <= c && c <= 4 {
            let i = (c - 1) as usize;
            self.registers[i] = self.registers[i].wrapping_sub(lit);
        }
        self.ip = self.ip + 3;
        None
    }

    /// `multiply`: wraparound multiplication by the literal operand.
    pub fn mul_op(&mut self) -> (r: Option<Outcome>)
        requires
            old(self).wf(),
        ensures
            final(self).wf(),
            final(self)@ == mul_step(old(self)@).0,
            r == mul_step(old(self)@).1,
    {
        if self.ip < 0 || self.ip + 2 >= self.tape.len() as i64 {
            return Some(Outcome::Fault);
        }
        let c = self.tape[(self.ip + 1) as usize];
        let lit = self.tape[(self.ip + 2) as usize];
        if 1 <= c && c <= 4 {
            let i = (c - 1) as usize;
            self.registers[i] = self.registers[i].wrapping_mul(lit);
        }
        self.ip = self.ip + 3;
        None
    }

    /// `increment`: wraparound increment of the operand register.
    pub fn inc_op(&mut self) -> (r: Option<Outcome>)
        requires
            old(self).wf(),
        ensures
            final(self).wf(),
            final(self)@ == inc_step(old(self)@).0,
            r == inc_step(old(self)@).1,
    {
        if self.ip < 0 || self.ip + 1 >= self.tape.len() as i64 {
            return Some(Outcome::Fault);
        }
        let c = self.tape[(self.ip + 1) as usize];
        if 1 <= c && c <= 4 {
            let i = (c - 1) as usize;
            self.registers[i] = self.registers[i].wrapping_add(1);
        }
        self.ip = self.ip + 2;
        None
    }

    /// Execute exactly one instruction: dispatch on the opcode byte at the
    /// instruction cursor.  `None` means the machine stepped and may
    /// continue; `Some` is the terminal outcome and the machine is left
    /// unchanged by the stopping step.
    pub fn step(&mut self) -> (r: Option<Outcome>)
        requires
            old(self).wf(),
        ensures
            final(self).wf(),
            final(self)@ == step_view(old(self)@).0,
            r == step_view(old(self)@).1,
    {
        if self.ip < 0 || self.ip >= self.tape.len() as i64 {
            return Some(Outcome::Fault);
        }
        let op = self.tape[self.ip as usize];
        match op {
            0 => self.pop_reg_op(),
            1 => self.read_secret_op(),
            2 => self.push_mem_op(),
            3 => self.push_reg_op(),
            4 => Some(Outcome::Fail),
            5 => self.cmp_op(),
            6 => self.mov_op(),
            7 => self.je_op(),
            8 => self.jne_op(),
            9 => self.jmp_back_op(),
            10 => self.xor_op(),
            11 => self.ror_op(),
            12 => self.rol_op(),
            13 => self.add_op(),
            14 => self.sub_op(),
            15 => self.mul_op(),
            16 => self.inc_op(),
            _ => Some(Outcome::Accept),
        }
    }

    /// Execute until a terminal outcome is reached, but at most `fuel`
    /// instructions.  `Some` is the terminal outcome, reached after some
    /// number of steps within the fuel; `None` means the machine is still
    /// running after `fuel` steps, and a further call picks up where this
    /// one stopped.  The machine itself has no step bound: a caller that
    /// wants the run-until-terminal behaviour calls again until `Some`.
    pub fn run(&mut self, fuel: u64) -> (r: Option<Outcome>)
        requires
            old(self).wf(),
        ensures
            final(self).wf(),
            (match r {
                Some(o) => exists|n: nat|
                    n <= fuel && #[trigger] run_view(old(self)@, n) == (final(self)@, Some(o)),
                None => run_view(old(self)@, fuel as nat) == (final(self)@, None::<Outcome>),
            }),
    {
        let ghost s0 = self@;
        let mut i: u64 = 0;
        while i < fuel
            invariant
                self.wf(),
                i <= fuel,
                s0 == old(self)@,
                run_view(s0, i as nat) == (self@, None::<Outcome>),
            decreases fuel - i,
        {
            let ghost prev = self@;
            let r = self.step();
            i = i + 1;
            proof {
                assert(run_view(s0, i as nat) == step_view(prev));
            }
            match r {
                Some(o) => {
                    proof {
                        assert(run_view(s0, i as nat) == (self@, Some(o)));
                    }
                    return Some(o);
                },
                None => {},
            }
        }
        None
    }
}

/// The reference key as a vector, equal to its mathematical statement.
pub fn target_key_bytes() -> (r: Vec<u8>)
    ensures
        r@ == target_key_spec(),
{
    let mut v: Vec<u8> = Vec::new();
    v.push(0x79);
    v.push(0x73);
    v.push(0x4e);
    v.push(0x2b);
    v.push(0x23);
    v.push(0xb4);
    v.push(0x5b);
    v.push(0x33);
    v.push(0x35);
    v.push(0x7e);
    v.push(0x7a);
    v.push(0x13);
    v.push(0x69);
    v.push(0x74);
    v.push(0x4e);
    v.push(0x10);
    v.push(0x52);
    v.push(0x76);
    v.push(0xfa);
    v.push(0xec);
    v.push(0x69);
    v.push(0x00);
    v.push(0x2c);
    v.push(0x35);
    v.push(0x75);
    v.push(0x64);
    v.push(0x18);
    v.push(0x57);
    v.push(0x33);
    v.push(0x78);
    v.push(0xed);
    proof {
        assert(v@ =~= target_key_spec());
    }
    v
}

/// Law: a register operand outside 1 through 4 resolves to zero when read
/// and stores nothing when written.  Every opcode that takes a register
/// operand reads and writes the register file only through `reg_value` and
/// `reg_store`, so this holds of all of them.
pub proof fn lemma_invalid_register_operand(regs: Seq<u8>, c: u8, v: u8)
    requires
        !(1 <= c && c <= 4),
    ensures
        reg_value(regs, c) == 0,
        reg_store(regs, c, v) == regs,
{
}

/// Law: with its operands on the tape, every register-writing opcode leaves
/// the register file untouched when its register operand lies outside 1
/// through 4.
pub proof fn lemma_invalid_operand_ops_write_nothing(s: VmView)
    requires
        opnd_ok(s, 2),
        !(1 <= s.tape[s.ip + 1] && s.tape[s.ip + 1] <= 4),
    ensures
        mov_step(s).0.regs == s.regs,
        xor_step(s).0.regs == s.regs,
        ror_step(s).0.regs == s.regs,
        rol_step(s).0.regs == s.regs,
        add_step(s).0.regs == s.regs,
        sub_step(s).0.regs == s.regs,
        mul_step(s).0.regs == s.regs,
        inc_step(s).0.regs == s.regs,
        read_secret_step(s).0.regs == s.regs,
        pop_step(s).0.regs == s.regs,
{
}

/// Law: `compare` never faults when both operand bytes are on the tape, and
/// it raises the flag exactly when the two resolved operand values are
/// bit-identical, whether the operands are valid registers or not; nothing
/// but the flag and the cursor changes.
pub proof fn lemma_compare_sets_flag(s: VmView)
    requires
        opnd_ok(s, 2),
    ensures
        cmp_step(s).1 is None,
        cmp_step(s).0.flag == (reg_value(s.regs, s.tape[s.ip + 1]) == reg_value(
            s.regs,
            s.tape[s.ip + 2],
        )),
        cmp_step(s).0 == (VmView { flag: cmp_step(s).0.flag, ip: s.ip + 3, ..s }),
{
}

/// Law: the conditional jumps advance the cursor by exactly the operand byte
/// when taken and by exactly 2 when not taken, and change nothing else.
pub proof fn lemma_conditional_jump(s: VmView)
    requires
        opnd_ok(s, 1),
    ensures
        je_step(s).1 is None,
        jne_step(s).1 is None,
        s.flag ==> je_step(s).0.ip == s.ip + s.tape[s.ip + 1],
        !s.flag ==> je_step(s).0.ip == s.ip + 2,
        !s.flag ==> jne_step(s).0.ip == s.ip + s.tape[s.ip + 1],
        s.flag ==> jne_step(s).0.ip == s.ip + 2,
        je_step(s).0 == (VmView { ip: je_step(s).0.ip, ..s }),
        jne_step(s).0 == (VmView { ip: jne_step(s).0.ip, ..s }),
{
}

/// Law: `jump-back` always retreats the cursor by exactly the operand byte,
/// with no additional advance, and changes nothing else.
pub proof fn lemma_jump_back(s: VmView)
    requires
        opnd_ok(s, 1),
    ensures
        jback_step(s).1 is None,
        jback_step(s).0 == (VmView { ip: s.ip - s.tape[s.ip + 1], ..s }),
{
}

/// Law: with their operands on the tape, the register transforms never
/// fault, whatever the register values — overflow wraps — and each result
/// is exactly the corresponding wraparound or bitwise operation on the
/// resolved register value and the literal operand.
pub proof fn lemma_arithmetic_wraps(s: VmView)
    requires
        opnd_ok(s, 2),
    ensures
        xor_step(s).1 is None,
        ror_step(s).1 is None,
        rol_step(s).1 is None,
        add_step(s).1 is None,
        sub_step(s).1 is None,
        mul_step(s).1 is None,
        xor_step(s).0.regs == reg_store(
            s.regs,
            s.tape[s.ip + 1],
            reg_value(s.regs, s.tape[s.ip + 1]) ^ s.tape[s.ip + 2],
        ),
        ror_step(s).0.regs == reg_store(
            s.regs,
            s.tape[s.ip + 1],
            ror8(reg_value(s.regs, s.tape[s.ip + 1]), s.tape[s.ip + 2]),
        ),
        rol_step(s).0.regs == reg_store(
            s.regs,
            s.tape[s.ip + 1],
            rol8(reg_value(s.regs, s.tape[s.ip + 1]), s.tape[s.ip + 2]),
        ),
        add_step(s).0.regs == reg_store(
            s.regs,
            s.tape[s.ip + 1],
            vstd::wrapping::u8_specs::wrapping_add(
                reg_value(s.regs, s.tape[s.ip + 1]),
                s.tape[s.ip + 2],
            ),
        ),
        sub_step(s).0.regs == reg_store(
            s.regs,
            s.tape[s.ip + 1],
            vstd::wrapping::u8_specs::wrapping_sub(
                reg_value(s.regs, s.tape[s.ip + 1]),
                s.tape[s.ip + 2],
            ),
        ),
        mul_step(s).0.regs == reg_store(
            s.regs,
            s.tape[s.ip + 1],
            vstd::wrapping::u8_specs::wrapping_mul(
                reg_value(s.regs, s.tape[s.ip + 1]),
                s.tape[s.ip + 2],
            ),
        ),
{
}

/// Law: `increment` needs only its register operand on the tape, never
/// faults, and wraps on overflow exactly like addition of 1.
pub proof fn lemma_increment_wraps(s: VmView)
    requires
        opnd_ok(s, 1),
    ensures
        inc_step(s).1 is None,
        inc_step(s).0.regs == reg_store(
            s.regs,
            s.tape[s.ip + 1],
            vstd::wrapping::u8_specs::wrapping_add(reg_value(s.regs, s.tape[s.ip + 1]), 1),
        ),
{
}

} // verus!
