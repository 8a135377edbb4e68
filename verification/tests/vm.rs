use tapevm::engine::{target_key_bytes, InputTable, Outcome};

const FUEL: u64 = 10_000;

#[test]
fn scenario_xor_then_halt_fail() {
    // [xor reg=1, literal=0xFF][halt-fail] with register 1 preset to 0x0F.
    let mut m = InputTable::new(vec![10, 1, 0xFF, 4]);
    m.registers[0] = 0x0F;
    let outcome = m.run(FUEL);
    assert_eq!(outcome, Some(Outcome::Fail));
    assert_eq!(m.registers[0], 0xF0);
}

#[test]
fn scenario_compare_equal_then_jump_taken() {
    // compare r1,r2 with both registers at their default 0 raises the flag;
    // the following jump-if-equal with offset 5 advances by 5, not 2, which
    // skips the three halt-fail bytes and lands on the accept terminator.
    let mut m = InputTable::new(vec![5, 1, 2, 7, 5, 4, 4, 4, 0xFF]);
    let outcome = m.run(FUEL);
    assert_eq!(outcome, Some(Outcome::Accept));
    assert!(m.flag);
    assert_eq!(m.ip, 8);
}

#[test]
fn scenario_pop_at_sentinel() {
    // pop-register with the memory cursor at the sentinel alters no register
    // but still decrements the memory cursor and advances the instruction
    // cursor by 2.
    let mut m = InputTable::new(vec![0, 1, 0xFF]);
    let r = m.step();
    assert_eq!(r, None);
    assert_eq!(m.mem, -2);
    assert_eq!(m.ip, 2);
    assert_eq!(m.registers, vec![0, 0, 0, 0]);
    assert_eq!(m.step(), Some(Outcome::Accept));
}

#[test]
fn invalid_register_operand_write_is_no_op() {
    // xor through register operand 0 changes nothing.
    let mut m = InputTable::new(vec![10, 0, 0xFF, 0xFF]);
    m.registers[1] = 9;
    assert_eq!(m.run(FUEL), Some(Outcome::Accept));
    assert_eq!(m.registers, vec![0, 9, 0, 0]);
    // read-secret through register operand 5 stores nothing but still
    // consumes a key byte.
    let mut m = InputTable::new(vec![1, 5, 0xFF]);
    assert_eq!(m.run(FUEL), Some(Outcome::Accept));
    assert_eq!(m.registers, vec![0, 0, 0, 0]);
    assert_eq!(m.key_index, 29);
}

#[test]
fn invalid_register_operand_reads_zero() {
    // push-register with operand 9 pushes 0; the pop then overwrites the
    // preset register 1 with that 0.
    let mut m = InputTable::new(vec![3, 9, 0, 1, 0xFF]);
    m.registers[0] = 7;
    assert_eq!(m.run(FUEL), Some(Outcome::Accept));
    assert_eq!(m.registers[0], 0);
}

#[test]
fn compare_operand_combinations() {
    // Equal default registers.
    let mut m = InputTable::new(vec![5, 1, 2, 0xFF]);
    assert_eq!(m.run(FUEL), Some(Outcome::Accept));
    assert!(m.flag);
    // Distinct values.
    let mut m = InputTable::new(vec![5, 1, 2, 0xFF]);
    m.registers[0] = 5;
    m.run(FUEL);
    assert!(!m.flag);
    // Two invalid operands both resolve to 0.
    let mut m = InputTable::new(vec![5, 0, 9, 0xFF]);
    m.run(FUEL);
    assert!(m.flag);
    // A zero register equals an invalid operand.
    let mut m = InputTable::new(vec![5, 1, 0, 0xFF]);
    m.run(FUEL);
    assert!(m.flag);
    // A non-zero register does not.
    let mut m = InputTable::new(vec![5, 1, 0, 0xFF]);
    m.registers[0] = 7;
    m.run(FUEL);
    assert!(!m.flag);
}

#[test]
fn conditional_jumps_advance_exactly() {
    // jump-if-not-equal taken (flag starts down): advance by the operand 3.
    let mut m = InputTable::new(vec![8, 3, 4, 0xFF]);
    assert_eq!(m.run(FUEL), Some(Outcome::Accept));
    assert_eq!(m.ip, 3);
    // jump-if-equal not taken (flag down): advance by exactly 2.
    let mut m = InputTable::new(vec![7, 9, 0xFF]);
    assert_eq!(m.run(FUEL), Some(Outcome::Accept));
    assert_eq!(m.ip, 2);
    // jump-if-not-equal not taken after an equal compare: advance by 2.
    let mut m = InputTable::new(vec![5, 1, 2, 8, 9, 0xFF]);
    assert_eq!(m.run(FUEL), Some(Outcome::Accept));
    assert_eq!(m.ip, 5);
}

#[test]
fn jump_back_subtracts_exactly() {
    // From cursor 2, jump-back 4 lands on -2 and the next fetch faults; the
    // faulting step leaves the cursor where the jump put it.
    let mut m = InputTable::new(vec![16, 1, 9, 4, 0xFF]);
    assert_eq!(m.run(FUEL), Some(Outcome::Fault));
    assert_eq!(m.ip, -2);
    assert_eq!(m.registers[0], 1);
}

#[test]
fn jump_back_loop_and_fuel_resume() {
    // increment r1 then jump back to it: never terminal.  Ten steps are five
    // increments; a second call resumes where the first ran out of fuel.
    let mut m = InputTable::new(vec![16, 1, 9, 2]);
    assert_eq!(m.run(10), None);
    assert_eq!(m.registers[0], 5);
    assert_eq!(m.run(2), None);
    assert_eq!(m.registers[0], 6);
}

#[test]
fn arithmetic_wraps_on_overflow() {
    // add: 250 + 10 wraps to 4.
    let mut m = InputTable::new(vec![13, 1, 10, 0xFF]);
    m.registers[0] = 250;
    assert_eq!(m.run(FUEL), Some(Outcome::Accept));
    assert_eq!(m.registers[0], 4);
    // subtract: 3 - 10 wraps to 249.
    let mut m = InputTable::new(vec![14, 1, 10, 0xFF]);
    m.registers[0] = 3;
    m.run(FUEL);
    assert_eq!(m.registers[0], 249);
    // multiply: 100 * 3 wraps to 44.
    let mut m = InputTable::new(vec![15, 1, 3, 0xFF]);
    m.registers[0] = 100;
    m.run(FUEL);
    assert_eq!(m.registers[0], 44);
    // increment: 255 wraps to 0.
    let mut m = InputTable::new(vec![16, 1, 0xFF]);
    m.registers[0] = 255;
    m.run(FUEL);
    assert_eq!(m.registers[0], 0);
}

#[test]
fn rotations_are_bitwise() {
    // 0b1000_0001 rotated left by 1 is 0b0000_0011.
    let mut m = InputTable::new(vec![12, 1, 1, 0xFF]);
    m.registers[0] = 129;
    m.run(FUEL);
    assert_eq!(m.registers[0], 3);
    // 0b1000_0001 rotated right by 1 is 0b1100_0000.
    let mut m = InputTable::new(vec![11, 1, 1, 0xFF]);
    m.registers[0] = 129;
    m.run(FUEL);
    assert_eq!(m.registers[0], 192);
    // Rotation by 8 leaves the value unchanged.
    let mut m = InputTable::new(vec![12, 1, 8, 0xFF]);
    m.registers[0] = 129;
    m.run(FUEL);
    assert_eq!(m.registers[0], 129);
    // Rotation amounts count modulo 8: right by 11 is right by 3.
    let mut m = InputTable::new(vec![11, 1, 11, 0xFF]);
    m.registers[0] = 129;
    m.run(FUEL);
    assert_eq!(m.registers[0], 48);
}

#[test]
fn read_secret_reveals_key_back_to_front() {
    let mut m = InputTable::new(vec![1, 1, 0xFF]);
    assert_eq!(m.run(FUEL), Some(Outcome::Accept));
    let tk = target_key_bytes();
    assert_eq!(m.registers[0], tk[30]);
    assert_eq!(m.registers[0], 0xED);
    assert_eq!(m.key_index, 29);
}

#[test]
fn read_secret_past_the_key_faults() {
    // read r1 then jump back to the read: the 32nd read finds the key
    // exhausted and faults.
    let mut m = InputTable::new(vec![1, 1, 9, 2]);
    assert_eq!(m.run(200), Some(Outcome::Fault));
    assert_eq!(m.key_index, -1);
    let tk = target_key_bytes();
    assert_eq!(m.registers[0], tk[0]);
}

#[test]
fn push_then_pop_round_trip() {
    let mut m = InputTable::new(vec![2, 0xAB, 0, 1, 0xFF]);
    assert_eq!(m.run(FUEL), Some(Outcome::Accept));
    assert_eq!(m.registers[0], 0xAB);
    assert_eq!(m.mem, -1);
}

#[test]
fn move_copies_between_registers() {
    let mut m = InputTable::new(vec![6, 2, 1, 0xFF]);
    m.registers[0] = 0x42;
    assert_eq!(m.run(FUEL), Some(Outcome::Accept));
    assert_eq!(m.registers[1], 0x42);
}

#[test]
fn terminal_outcomes() {
    let mut m = InputTable::new(vec![4]);
    assert_eq!(m.run(FUEL), Some(Outcome::Fail));
    let mut m = InputTable::new(vec![17]);
    assert_eq!(m.run(FUEL), Some(Outcome::Accept));
    let mut m = InputTable::new(vec![99]);
    assert_eq!(m.run(FUEL), Some(Outcome::Accept));
    // An empty tape has no opcode under the cursor at all.
    let mut m = InputTable::new(vec![]);
    assert_eq!(m.run(FUEL), Some(Outcome::Fault));
    // A lone opcode with its operand off the end of the tape faults.
    let mut m = InputTable::new(vec![10]);
    assert_eq!(m.run(FUEL), Some(Outcome::Fault));
}

#[test]
fn target_key_is_the_embedded_constant() {
    let tk = target_key_bytes();
    assert_eq!(tk.len(), 31);
    assert_eq!(tk[0], 0x79);
    assert_eq!(tk[21], 0x00);
    assert_eq!(tk[30], 0xED);
}
