use mcisa::cpu::Flag;
use mcisa::cpu::Register;
use mcisa::data::ADDData;
use mcisa::data::CHKData;
use mcisa::data::CMPData;
use mcisa::data::DIVData;
use mcisa::data::JMPData;
use mcisa::data::JNSData;
use mcisa::data::JSData;
use mcisa::data::MOVData;
use mcisa::data::MULData;
use mcisa::data::POPData;
use mcisa::data::PUSHData;
use mcisa::data::SUBData;

// Tests the has_literal_source method
#[test]
fn test_has_literal_source() {
    let d1 = MOVData::from_literal(0x32, Register::R0);
    let d2 = MOVData::from_register(Register::R0, Register::R1);
    assert!(d1.has_literal_source());
    assert_eq!(d2.has_literal_source(), false);
}

// Tests the has_register_source method
#[test]
fn test_has_register_source() {
    let d1 = MOVData::from_register(Register::R0, Register::R1);
    let d2 = MOVData::from_literal(0x32, Register::R0);
    assert!(d1.has_register_source());
    assert_eq!(d2.has_register_source(), false);
}

// a literal-sourced MOV hands out its literal and its destination
#[test]
fn mov_literal_accessors() {
    let d = MOVData::from_literal(0x32, Register::R0);
    assert_eq!(d.src_literal(), Some(0x32));
    assert_eq!(d.unwrap_src_literal(), 0x32);
    assert_eq!(d.src_register(), None);
    assert_eq!(d.dest(), Register::R0);
}

// a register-sourced MOV hands out its register and its destination
#[test]
fn mov_register_accessors() {
    let d = MOVData::from_register(Register::R4, Register::R5);
    assert_eq!(d.src_register(), Some(Register::R4));
    assert_eq!(d.unwrap_src_register(), Register::R4);
    assert_eq!(d.src_literal(), None);
    assert_eq!(d.dest(), Register::R5);
}

// the ADD record keeps its operands in order
#[test]
fn add_data_accessors() {
    let d = ADDData::new(Register::R1, Register::R2, Register::R3);
    assert_eq!(d.arg0(), Register::R1);
    assert_eq!(d.arg1(), Register::R2);
    assert_eq!(d.dest(), Register::R3);
}

// the SUB record keeps minuend and subtrahend apart
#[test]
fn sub_data_accessors() {
    let d = SUBData::new(Register::R7, Register::R8, Register::R9);
    assert_eq!(d.arg0(), Register::R7);
    assert_eq!(d.arg1(), Register::R8);
    assert_eq!(d.dest(), Register::R9);
}

// the MUL record keeps its operands in order
#[test]
fn mul_data_accessors() {
    let d = MULData::new(Register::R10, Register::R11, Register::R12);
    assert_eq!(d.arg0(), Register::R10);
    assert_eq!(d.arg1(), Register::R11);
    assert_eq!(d.dest(), Register::R12);
}

// the DIV record keeps dividend and divisor apart
#[test]
fn div_data_accessors() {
    let d = DIVData::new(Register::R13, Register::R14, Register::R15);
    assert_eq!(d.arg0(), Register::R13);
    assert_eq!(d.arg1(), Register::R14);
    assert_eq!(d.dest(), Register::R15);
}

// the CMP record keeps the compared registers in order
#[test]
fn cmp_data_accessors() {
    let d = CMPData::new(Register::R0, Register::R15);
    assert_eq!(d.arg0(), Register::R0);
    assert_eq!(d.arg1(), Register::R15);
}

// the CHK record holds the register to test
#[test]
fn chk_data_accessor() {
    let d = CHKData::new(Register::R6);
    assert_eq!(d.chk_reg(), Register::R6);
}

// the PUSH record holds the pushed register
#[test]
fn push_data_accessor() {
    let d = PUSHData::new(Register::R2);
    assert_eq!(d.arg0(), Register::R2);
}

// the POP record holds the destination register
#[test]
fn pop_data_accessor() {
    let d = POPData::new(Register::R3);
    assert_eq!(d.arg0(), Register::R3);
}

// the JMP record holds the resolved label identifier
#[test]
fn jmp_data_accessor() {
    let d = JMPData::new(42);
    assert_eq!(d.jmp_label_id(), 42);
}

// the JS record holds its condition flag and label identifier
#[test]
fn js_data_accessors() {
    let d = JSData::new(Flag::Equal, 7);
    assert_eq!(d.cond_flag(), Flag::Equal);
    assert_eq!(d.jmp_label_id(), 7);
}

// the JNS record holds its condition flag and label identifier
#[test]
fn jns_data_accessors() {
    let d = JNSData::new(Flag::Negative, 9);
    assert_eq!(d.cond_flag(), Flag::Negative);
    assert_eq!(d.jmp_label_id(), 9);
}
