use retroludos::IntRegister;
use retroludos::RatioRegister;

#[test]
fn int_register_code_round_trip() {
    for c in 0u8..8 {
        let reg = IntRegister::from_code(c).expect("codes below 8 name a register");
        assert_eq!(reg.code(), c);
    }
}

#[test]
fn int_register_rejects_codes_of_8_and_above() {
    for c in 8u8..=255 {
        assert_eq!(IntRegister::from_code(c), None);
    }
}

#[test]
fn int_register_boundary_codes() {
    assert_eq!(IntRegister::from_code(7), Some(IntRegister::I7));
    assert_eq!(IntRegister::from_code(8), None);
    assert_eq!(IntRegister::from_code(0), Some(IntRegister::I0));
}

#[test]
fn int_register_codes_are_distinct() {
    let regs = [
        IntRegister::I0,
        IntRegister::I1,
        IntRegister::I2,
        IntRegister::I3,
        IntRegister::I4,
        IntRegister::I5,
        IntRegister::I6,
        IntRegister::I7,
    ];
    for (i, a) in regs.iter().enumerate() {
        assert_eq!(a.code() as usize, i);
    }
}

#[test]
fn ratio_register_code_round_trip() {
    for c in 0u8..4 {
        let reg = RatioRegister::from_code(c).expect("codes below 4 name a register");
        assert_eq!(reg.code(), c);
    }
}

#[test]
fn ratio_register_rejects_codes_of_4_and_above() {
    for c in 4u8..=255 {
        assert_eq!(RatioRegister::from_code(c), None);
    }
}

#[test]
fn ratio_register_boundary_codes() {
    assert_eq!(RatioRegister::from_code(3), Some(RatioRegister::R3));
    assert_eq!(RatioRegister::from_code(4), None);
}
