use mcisa::cpu::Flag;
use mcisa::cpu::Register;
use std::convert::TryFrom;

// this test checks the count method
#[test]
fn flag_test_count() {
    assert_eq!(Flag::count(), 7);
}

// this test checks conversion from a u8
#[test]
fn flag_test_convert_from_u8() {
    assert_eq!(Flag::try_from(0x0).unwrap(), Flag::Zero);
    assert_eq!(Flag::try_from(0x1).unwrap(), Flag::Negative);
    assert_eq!(Flag::try_from(0x2).unwrap(), Flag::Equal);
    assert_eq!(Flag::try_from(0x3).unwrap(), Flag::GreaterThan);
    assert_eq!(Flag::try_from(0x4).unwrap(), Flag::LessThan);
    assert_eq!(Flag::try_from(0x5).unwrap(), Flag::Block);
    assert_eq!(Flag::try_from(0x6).unwrap(), Flag::Entity);
    assert!(Flag::try_from(0x7).is_err());
}

// this test checks conversion to a u8
#[test]
fn flag_test_convert_to_u8() {
    assert_eq!(u8::from(Flag::Zero), 0x0);
    assert_eq!(u8::from(Flag::Negative), 0x1);
    assert_eq!(u8::from(Flag::Equal), 0x2);
    assert_eq!(u8::from(Flag::GreaterThan), 0x3);
    assert_eq!(u8::from(Flag::LessThan), 0x4);
    assert_eq!(u8::from(Flag::Block), 0x5);
    assert_eq!(u8::from(Flag::Entity), 0x6)
}

// this test checks converting from a u8 to a Register
#[test]
fn register_test_convert_from_u8() {
    // test valid conversions
    assert_eq!(Register::try_from(0x0).unwrap(), Register::R0);
    assert_eq!(Register::try_from(0x1).unwrap(), Register::R1);
    assert_eq!(Register::try_from(0x2).unwrap(), Register::R2);
    assert_eq!(Register::try_from(0x3).unwrap(), Register::R3);
    assert_eq!(Register::try_from(0x4).unwrap(), Register::R4);
    assert_eq!(Register::try_from(0x5).unwrap(), Register::R5);
    assert_eq!(Register::try_from(0x6).unwrap(), Register::R6);
    assert_eq!(Register::try_from(0x7).unwrap(), Register::R7);
    assert_eq!(Register::try_from(0x8).unwrap(), Register::R8);
    assert_eq!(Register::try_from(0x9).unwrap(), Register::R9);
    assert_eq!(Register::try_from(0xA).unwrap(), Register::R10);
    assert_eq!(Register::try_from(0xB).unwrap(), Register::R11);
    assert_eq!(Register::try_from(0xC).unwrap(), Register::R12);
    assert_eq!(Register::try_from(0xD).unwrap(), Register::R13);
    assert_eq!(Register::try_from(0xE).unwrap(), Register::R14);
    assert_eq!(Register::try_from(0xF).unwrap(), Register::R15);

    // then test invalid conversions
    assert_eq!(Register::try_from(0x10), Err(())); // 0x10 is reserved for the stack pointer
    assert_eq!(Register::try_from(0x11), Err(()));
}

// this test checks converting from a Register to a u8
#[test]
fn register_test_convert_to_u8() {
    // test valid conversions
    assert_eq!(u8::try_from(Register::R0).unwrap(), 0x0);
    assert_eq!(u8::try_from(Register::R1).unwrap(), 0x1);
    assert_eq!(u8::try_from(Register::R2).unwrap(), 0x2);
    assert_eq!(u8::try_from(Register::R3).unwrap(), 0x3);
    assert_eq!(u8::try_from(Register::R4).unwrap(), 0x4);
    assert_eq!(u8::try_from(Register::R5).unwrap(), 0x5);
    assert_eq!(u8::try_from(Register::R6).unwrap(), 0x6);
    assert_eq!(u8::try_from(Register::R7).unwrap(), 0x7);
    assert_eq!(u8::try_from(Register::R8).unwrap(), 0x8);
    assert_eq!(u8::try_from(Register::R9).unwrap(), 0x9);
    assert_eq!(u8::try_from(Register::R10).unwrap(), 0xA);
    assert_eq!(u8::try_from(Register::R11).unwrap(), 0xB);
    assert_eq!(u8::try_from(Register::R12).unwrap(), 0xC);
    assert_eq!(u8::try_from(Register::R13).unwrap(), 0xD);
    assert_eq!(u8::try_from(Register::R14).unwrap(), 0xE);
    assert_eq!(u8::try_from(Register::R15).unwrap(), 0xF);

    // then test invalid conversions
    assert_eq!(u8::try_from(Register::SR), Err(()));
}

// this test checks getting the number of available registers
#[test]
fn register_test_count() {
    assert_eq!(Register::count(), 17);
}

// every code from a register decodes back to the same register
#[test]
fn register_code_round_trips_for_every_register() {
    let regs = [
        Register::R0,
        Register::R1,
        Register::R2,
        Register::R3,
        Register::R4,
        Register::R5,
        Register::R6,
        Register::R7,
        Register::R8,
        Register::R9,
        Register::R10,
        Register::R11,
        Register::R12,
        Register::R13,
        Register::R14,
        Register::R15,
    ];
    for reg in regs {
        let code = u8::try_from(reg).unwrap();
        assert_eq!(Register::try_from(code).unwrap(), reg);
    }
}

// codes far above the valid range are rejected too
#[test]
fn register_rejects_large_codes() {
    assert_eq!(Register::try_from(0x80), Err(()));
    assert_eq!(Register::try_from(0xFF), Err(()));
}

// every flag code round-trips through both conversions
#[test]
fn flag_code_round_trips_for_every_flag() {
    for code in 0x0..=0x6u8 {
        let flag = Flag::try_from(code).unwrap();
        assert_eq!(u8::from(flag), code);
    }
    assert_eq!(Flag::try_from(0xFF), Err(()));
}

// register mnemonics are the lowercase names
#[test]
fn register_names() {
    assert_eq!(Register::R0.name(), "r0");
    assert_eq!(Register::R9.name(), "r9");
    assert_eq!(Register::R10.name(), "r10");
    assert_eq!(Register::R15.name(), "r15");
    assert_eq!(Register::SR.name(), "sr");
}

// flag names carry the fixed symbolic prefix
#[test]
fn flag_names() {
    assert_eq!(Flag::Zero.name(), "flag_Zero");
    assert_eq!(Flag::Negative.name(), "flag_Negative");
    assert_eq!(Flag::Equal.name(), "flag_Equal");
    assert_eq!(Flag::GreaterThan.name(), "flag_GreaterThan");
    assert_eq!(Flag::LessThan.name(), "flag_LessThan");
    assert_eq!(Flag::Block.name(), "flag_Block");
    assert_eq!(Flag::Entity.name(), "flag_Entity");
}
