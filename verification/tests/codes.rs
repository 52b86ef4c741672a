use clock_tree::{divisor_from_flag, pllq_flag, pllr_flag, AHBPrescaler, APBPrescaler, ClockError};

#[test]
fn apb_code_round_trip() {
    let variants = [
        APBPrescaler::NotDivided,
        APBPrescaler::Div2,
        APBPrescaler::Div4,
        APBPrescaler::Div8,
        APBPrescaler::Div16,
    ];
    for v in variants {
        assert_eq!(APBPrescaler::from_code(v.code()), Some(v));
    }
}

#[test]
fn ahb_code_round_trip() {
    let variants = [
        AHBPrescaler::NotDivided,
        AHBPrescaler::Div2,
        AHBPrescaler::Div4,
        AHBPrescaler::Div8,
        AHBPrescaler::Div16,
        AHBPrescaler::Div64,
        AHBPrescaler::Div128,
        AHBPrescaler::Div256,
        AHBPrescaler::Div512,
    ];
    for v in variants {
        assert_eq!(AHBPrescaler::from_code(v.code()), Some(v));
    }
}

#[test]
fn prescaler_codes_exact() {
    assert_eq!(APBPrescaler::NotDivided.code(), 1);
    assert_eq!(APBPrescaler::Div2.code(), 0x04);
    assert_eq!(APBPrescaler::Div16.code(), 0x07);
    assert_eq!(AHBPrescaler::NotDivided.code(), 1);
    assert_eq!(AHBPrescaler::Div2.code(), 0x08);
    assert_eq!(AHBPrescaler::Div512.code(), 0x0f);
}

#[test]
fn unknown_codes_decode_to_none() {
    assert_eq!(APBPrescaler::from_code(0), None);
    assert_eq!(APBPrescaler::from_code(2), None);
    assert_eq!(APBPrescaler::from_code(8), None);
    assert_eq!(AHBPrescaler::from_code(0), None);
    assert_eq!(AHBPrescaler::from_code(7), None);
    assert_eq!(AHBPrescaler::from_code(16), None);
}

#[test]
fn divisor_flag_round_trip() {
    for v in [2u32, 4, 6, 8] {
        let r = pllr_flag(v).unwrap();
        assert_eq!(divisor_from_flag(r), v);
        let q = pllq_flag(v).unwrap();
        assert_eq!(divisor_from_flag(q), v);
    }
}

#[test]
fn divisor_flags_exact() {
    assert_eq!(pllr_flag(2), Ok(0));
    assert_eq!(pllr_flag(4), Ok(1));
    assert_eq!(pllq_flag(6), Ok(2));
    assert_eq!(pllq_flag(8), Ok(3));
}

#[test]
fn unencodable_divisors_rejected() {
    for v in [0u32, 1, 3, 5, 7, 9, 10, 16] {
        assert_eq!(pllr_flag(v), Err(ClockError::InvalidDivisorCode));
        assert_eq!(pllq_flag(v), Err(ClockError::InvalidDivisorCode));
    }
}
