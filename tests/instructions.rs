use aphelion_util::instruction::encoding::{B, E, F, M, R};
use aphelion_util::instruction::instruction_set::{
    BranchCond, FloatCastType, FloatPrecision, InstructionSet, LiType,
};
use aphelion_util::instruction::Instruction;
use aphelion_util::interrupt::Interrupt;
use aphelion_util::io::Port;
use aphelion_util::nibble::Nibble;
use aphelion_util::registers::Register;

fn decode(word: u32) -> Option<InstructionSet> {
    InstructionSet::try_from_instruction(Instruction(word))
}

#[test]
fn nth_nibble_and_opcode() {
    let i = Instruction(0x0123_4567);
    assert_eq!(i.nth_nibble(1), Nibble::X6);
    assert_eq!(i.nth_nibble(0), Nibble::X7);
    assert_eq!(i.nth_nibble(7), Nibble::X0);
    assert_eq!(i.nth_nibble(6), Nibble::X1);
    assert_eq!(i.opcode(), 0x67);
}

#[test]
fn format_e_fields() {
    let e = E::from_u32(0x1234_5678);
    assert_eq!(e.imm, 0x56);
    assert_eq!(e.func, Nibble::X4);
    assert_eq!(e.rs2, Nibble::X3);
    assert_eq!(e.rs1, Nibble::X2);
    assert_eq!(e.rde, Nibble::X1);
    assert_eq!(e.to_u32(0x78), 0x1234_5678);
    assert_eq!(Instruction(0x1234_5678).e(), e);
}

#[test]
fn format_r_fields() {
    let r = R::from_u32(0x1234_5678);
    assert_eq!(r.imm, 0x456);
    assert_eq!(r.rs2, Nibble::X3);
    assert_eq!(r.rs1, Nibble::X2);
    assert_eq!(r.rde, Nibble::X1);
    assert_eq!(r.to_u32(0x78), 0x1234_5678);
    let wide = R { imm: 0xF456, ..r };
    assert_eq!(wide.to_u32(0x78), 0x1234_5678);
    assert_eq!(Instruction(0x1234_5678).r(), r);
}

#[test]
fn format_m_fields() {
    let m = M::from_u32(0x1234_5678);
    assert_eq!(m.imm, 0x3456);
    assert_eq!(m.rs1, Nibble::X2);
    assert_eq!(m.rde, Nibble::X1);
    assert_eq!(m.to_u32(0x78), 0x1234_5678);
    assert_eq!(Instruction(0x1234_5678).m(), m);
}

#[test]
fn format_f_fields() {
    let f = F::from_u32(0x1234_5678);
    assert_eq!(f.imm, 0x3456);
    assert_eq!(f.func, Nibble::X2);
    assert_eq!(f.rde, Nibble::X1);
    assert_eq!(f.to_u32(0x78), 0x1234_5678);
    assert_eq!(Instruction(0x1234_5678).f(), f);
}

#[test]
fn format_b_fields() {
    let b = B::from_u32(0x1234_5678);
    assert_eq!(b.imm, 0x23456);
    assert_eq!(b.func, Nibble::X1);
    assert_eq!(b.to_u32(0x78), 0x1234_5678);
    let wide = B { imm: 0xFFF2_3456, ..b };
    assert_eq!(wide.to_u32(0x78), 0x1234_5678);
    assert_eq!(Instruction(0x1234_5678).b(), b);
}

#[test]
fn format_round_trips_on_sample_words() {
    for w in [0u32, 0xFFFF_FFFF, 0x8000_0001, 0x0F0F_F0F0, 0xDEAD_BEEF] {
        let op = (w & 0xFF) as u8;
        assert_eq!(E::from_u32(w).to_u32(op), w);
        assert_eq!(R::from_u32(w).to_u32(op), w);
        assert_eq!(M::from_u32(w).to_u32(op), w);
        assert_eq!(F::from_u32(w).to_u32(op), w);
        assert_eq!(B::from_u32(w).to_u32(op), w);
    }
}

#[test]
fn decode_rejects_unassigned_opcode() {
    assert_eq!(decode(0x0000_00FF), None);
    assert_eq!(decode(0xFFFF_FFFF), None);
    assert_eq!(decode(0x0000_0000), None);
    assert_eq!(decode(0x0000_000F), None);
    assert_eq!(decode(0x0000_0050), None);
}

#[test]
fn decode_rejects_unassigned_branch_condition() {
    assert_eq!(decode(0x7000_000A), None);
    assert_eq!(decode(0x8000_000A), None);
    assert_eq!(decode(0xF000_000A), None);
    assert_eq!(
        decode(0x5000_100A),
        Some(InstructionSet::Branch { cc: BranchCond::Bltu, imm20: 0x10 })
    );
}

#[test]
fn decode_rejects_wide_interrupt() {
    assert_eq!(decode(0x0001_0001), None);
    assert_eq!(decode(0x0000_4201), Some(InstructionSet::Int { imm8: Interrupt(0x42) }));
}

#[test]
fn decode_system_control() {
    assert_eq!(decode(0x0100_0001), Some(InstructionSet::Iret));
    assert_eq!(decode(0x0200_0001), Some(InstructionSet::Ires));
    assert_eq!(decode(0x5300_0001), Some(InstructionSet::Usr { rd: Register::Re }));
    assert_eq!(decode(0x0400_0001), None);
}

#[test]
fn decode_sub_codes() {
    assert_eq!(
        decode(0x3512_3410),
        Some(InstructionSet::Li { rd: Register::Rc, func: LiType::Ltis, imm: 0x1234 })
    );
    assert_eq!(decode(0x3812_3410), None);
    assert_eq!(
        decode(0x2100_071F),
        Some(InstructionSet::Cmpi { r1: Register::Rb, s: true, imm: 0x0007 })
    );
    assert_eq!(decode(0x2200_071F), None);
    assert_eq!(decode(0x2300_001E), Some(InstructionSet::Cmpr { r1: Register::Rb, r2: Register::Rc }));
}

#[test]
fn decode_memory_access() {
    assert_eq!(
        decode(0x1234_5617),
        Some(InstructionSet::Lbs {
            rd: Register::Ra,
            rs: Register::Rb,
            rn: Register::Rc,
            sh: Nibble::X4,
            off: 0x56,
        })
    );
}

#[test]
fn decode_opcode_parity() {
    assert_eq!(
        decode(0x1234_5620),
        Some(InstructionSet::Addr { rd: Register::Ra, r1: Register::Rb, r2: Register::Rc })
    );
    assert_eq!(
        decode(0x1234_5621),
        Some(InstructionSet::Addi { rd: Register::Ra, r1: Register::Rb, imm16: 0x3456 })
    );
    assert_eq!(
        decode(0x1234_563E),
        Some(InstructionSet::Bitr { rd: Register::Ra, r1: Register::Rb, r2: Register::Rc })
    );
    assert_eq!(
        decode(0x1234_563F),
        Some(InstructionSet::Biti { rd: Register::Ra, r1: Register::Rb, imm16: 0x3456 })
    );
    for op in 0x20u32..=0x3F {
        assert!(decode(0xABCD_EF00 | op).is_some());
    }
}

#[test]
fn decode_float_family() {
    assert_eq!(
        decode(0x1232_0045),
        Some(InstructionSet::Fadd {
            rd: Register::Ra,
            r1: Register::Rb,
            r2: Register::Rc,
            p: FloatPrecision::F64,
        })
    );
    assert_eq!(decode(0x1233_0045), None);
    assert_eq!(
        decode(0x1239_004E),
        Some(InstructionSet::Fcnv {
            rd: Register::Ra,
            r1: Register::Rb,
            p: FloatCastType { to: FloatPrecision::F32, from: FloatPrecision::F64 },
        })
    );
    assert_eq!(decode(0x123C_004E), None);
}

#[test]
fn cast_type_nibbles() {
    assert_eq!(
        FloatCastType::try_from_nibble(Nibble::X4),
        Some(FloatCastType { to: FloatPrecision::F16, from: FloatPrecision::F32 })
    );
    assert_eq!(
        FloatCastType::try_from_nibble(Nibble::X2),
        Some(FloatCastType { to: FloatPrecision::F16, from: FloatPrecision::F16 })
    );
    assert_eq!(FloatCastType::try_from_nibble(Nibble::XC), None);
    let c = FloatCastType { to: FloatPrecision::F32, from: FloatPrecision::F64 };
    assert_eq!(c.to_nibble(), Nibble::X9);
    assert_eq!(FloatPrecision::try_from_u8(2), Some(FloatPrecision::F64));
    assert_eq!(FloatPrecision::try_from_u8(3), None);
    assert_eq!(FloatPrecision::try_from_nibble(Nibble::X1), Some(FloatPrecision::F32));
}

#[test]
fn branch_and_li_codes() {
    assert_eq!(BranchCond::try_from_nibble(Nibble::X9), Some(BranchCond::Bne));
    assert_eq!(BranchCond::try_from_nibble(Nibble::X7), None);
    assert_eq!(BranchCond::Bgtu.to_nibble(), Nibble::XE);
    assert_eq!(BranchCond::Bgeu.string(), "bgeu");
    assert_eq!(LiType::try_from_nibble(Nibble::X7), Some(LiType::Ltuis));
    assert_eq!(LiType::try_from_nibble(Nibble::X8), None);
    assert_eq!(LiType::Lui.to_nibble(), Nibble::X2);
    assert_eq!(LiType::Luis.string(), "luis");
}

#[test]
fn encode_examples() {
    let asri = InstructionSet::Asri { rd: Register::Rb, r1: Register::Rc, imm16: 69 };
    assert_eq!(asri.to_instruction(), Instruction(0x2300_453B));
    let branch = InstructionSet::Branch { cc: BranchCond::Bltu, imm20: 500 };
    assert_eq!(branch.to_instruction(), Instruction(0x5001_F40A));
    let wide = InstructionSet::Branch { cc: BranchCond::Bra, imm20: 0xFFF0_0001 };
    assert_eq!(wide.to_instruction(), Instruction(0x0000_010A));
    assert_eq!(InstructionSet::Enter.to_instruction(), Instruction(0x0000_000D));
    assert_eq!(Instruction(0x2300_453B).try_into_instruction_set(), Some(asri));
}

#[test]
fn encode_then_decode_sample() {
    let (a, b, c) = (Register::Ra, Register::Sp, Register::St);
    let samples = [
        InstructionSet::Int { imm8: Interrupt(0xFE) },
        InstructionSet::Iret,
        InstructionSet::Ires,
        InstructionSet::Usr { rd: c },
        InstructionSet::Outr { rd: a, rs: b },
        InstructionSet::Outi { imm16: Port(0xBEEF), rs: b },
        InstructionSet::Inr { rd: a, rs: b },
        InstructionSet::Ini { rd: a, imm16: Port(Port::MMU) },
        InstructionSet::Jal { rs: b, imm16: 0xFFFF },
        InstructionSet::Jalr { rd: a, rs: b, imm16: 7 },
        InstructionSet::Ret,
        InstructionSet::Retr { rs: c },
        InstructionSet::Branch { cc: BranchCond::Bgtu, imm20: 0xF_FFFF },
        InstructionSet::Push { rs: c },
        InstructionSet::Pop { rd: c },
        InstructionSet::Enter,
        InstructionSet::Leave,
        InstructionSet::Li { rd: b, func: LiType::Lti, imm: 0x8000 },
        InstructionSet::Lw { rd: a, rs: b, rn: c, sh: Nibble::XF, off: 0xFF },
        InstructionSet::Sb { rd: c, rs: b, rn: a, sh: Nibble::X1, off: 0x80 },
        InstructionSet::Cmpr { r1: a, r2: c },
        InstructionSet::Cmpi { r1: c, s: false, imm: 0xFFFF },
        InstructionSet::Modr { rd: a, r1: b, r2: c },
        InstructionSet::Modi { rd: a, r1: b, imm16: 0x1234 },
        InstructionSet::Fcmp { r1: a, r2: c, p: FloatPrecision::F16 },
        InstructionSet::Ffrom { rd: a, rs: c, p: FloatPrecision::F32 },
        InstructionSet::Fma { rd: a, r1: b, r2: c, p: FloatPrecision::F64 },
        InstructionSet::Fsat { rd: a, r1: b, p: FloatPrecision::F16 },
        InstructionSet::Fcnv {
            rd: a,
            r1: b,
            p: FloatCastType { to: FloatPrecision::F16, from: FloatPrecision::F64 },
        },
        InstructionSet::Fnan { rd: c, r1: c, p: FloatPrecision::F64 },
    ];
    for v in samples {
        assert_eq!(v.to_instruction().try_into_instruction_set(), Some(v));
    }
}

#[test]
fn conversion_into_double_does_not_round_trip() {
    let v = InstructionSet::Fcnv {
        rd: Register::Ra,
        r1: Register::Rb,
        p: FloatCastType { to: FloatPrecision::F64, from: FloatPrecision::F16 },
    };
    let back = v.to_instruction().try_into_instruction_set();
    assert_ne!(back, Some(v));
}
