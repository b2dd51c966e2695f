use aphelion_util::interrupt::Interrupt;
use aphelion_util::io::Port;
use aphelion_util::nibble::Nibble;
use aphelion_util::registers::Register;

#[test]
fn nibble_conversions() {
    assert_eq!(Nibble::try_from_u8(0xB), Some(Nibble::XB));
    assert_eq!(Nibble::try_from_u8(0x10), None);
    assert_eq!(Nibble::from_u8(0x1B), Nibble::XB);
    assert_eq!(Nibble::from_u8_upper(0x1B), Nibble::X1);
    assert_eq!(Nibble::X5.as_u8(), 0x05);
    assert_eq!(Nibble::X5.as_u8_upper(), 0x50);
    assert_eq!(Nibble::X9.compose(Nibble::X6), 0x69);
}

#[test]
fn nibble_bools() {
    assert!(!Nibble::X0.to_bool());
    assert!(Nibble::X4.to_bool());
    assert_eq!(Nibble::from_bool(true), Nibble::X1);
    assert_eq!(Nibble::from_bool(false), Nibble::X0);
}

#[test]
fn nibble_every_value() {
    for v in 0u8..16 {
        let n = Nibble::try_from_u8(v).unwrap();
        assert_eq!(n.as_u8(), v);
        assert_eq!(Nibble::from_u8(v | 0xA0), n);
        assert_eq!(Nibble::from_u8_upper(v << 4), n);
    }
}

#[test]
fn register_conversions() {
    assert_eq!(Register::Sp.to_u8(), 0xD);
    assert_eq!(Register::try_from_u8(0xD), Some(Register::Sp));
    assert_eq!(Register::try_from_u8(0x10), None);
    assert_eq!(Register::from_nibble(Nibble::XF), Register::St);
    assert_eq!(Register::Ip.to_nibble(), Nibble::XC);
    assert_eq!(Register::Rk.string(), "rk");
    for v in 0u8..16 {
        let r = Register::try_from_u8(v).unwrap();
        assert_eq!(Register::from_nibble(r.to_nibble()), r);
        assert_eq!(r.to_nibble().as_u8(), v);
    }
}

#[test]
fn interrupt_codes() {
    assert!(Interrupt(Interrupt::DIVIDE_BY_ZERO).is_reserved());
    assert!(Interrupt(Interrupt::INTERRUPT_OVERFLOW).is_reserved());
    assert!(!Interrupt(0x07).is_reserved());
    assert_eq!(Interrupt::try_from_u16(0x0042), Some(Interrupt(0x42)));
    assert_eq!(Interrupt::try_from_u16(0x0100), None);
    assert_eq!(Interrupt::try_from_u16(0xFF00), None);
}

#[test]
fn port_numbers() {
    assert_eq!(Port(Port::SYSTIMER), Port(3));
    assert!(Port(Port::INT) < Port(Port::IO));
}
