use minicpu::isa::{decode, encode, DecodeError, Instr};

#[test]
fn round_trip_three_register_opcodes() {
    for rd in 0u8..4 {
        for rs1 in 0u8..4 {
            for rs2 in 0u8..4 {
                for i in [
                    Instr::And(rd, rs1, rs2),
                    Instr::Add(rd, rs1, rs2),
                    Instr::Sub(rd, rs1, rs2),
                ] {
                    assert_eq!(decode(encode(i)), Ok(i));
                }
            }
        }
    }
}

#[test]
fn round_trip_register_immediate_opcodes() {
    for rd in 0u8..4 {
        for imm in [0u8, 1, 10, 77, 128, 255] {
            for i in [Instr::Mov(rd, imm), Instr::Ldr(rd, imm), Instr::Str(rd, imm)] {
                assert_eq!(decode(encode(i)), Ok(i));
            }
        }
    }
}

#[test]
fn encode_exact_words() {
    assert_eq!(encode(Instr::And(0, 1, 0)), 0x1001);
    assert_eq!(encode(Instr::Mov(0, 3)), 0x2003);
    assert_eq!(encode(Instr::Add(3, 2, 1)), 0x3036);
    assert_eq!(encode(Instr::Sub(1, 0, 2)), 0x4018);
    assert_eq!(encode(Instr::Ldr(3, 255)), 0x53FF);
    assert_eq!(encode(Instr::Str(3, 10)), 0x630A);
}

#[test]
fn decode_exact_words() {
    assert_eq!(decode(0x1001), Ok(Instr::And(0, 1, 0)));
    assert_eq!(decode(0x2003), Ok(Instr::Mov(0, 3)));
    assert_eq!(decode(0x3036), Ok(Instr::Add(3, 2, 1)));
    assert_eq!(decode(0x4018), Ok(Instr::Sub(1, 0, 2)));
    assert_eq!(decode(0x53FF), Ok(Instr::Ldr(3, 255)));
    assert_eq!(decode(0x630A), Ok(Instr::Str(3, 10)));
}

#[test]
fn encode_masks_wide_register_indices() {
    assert_eq!(encode(Instr::And(5, 6, 7)), encode(Instr::And(1, 2, 3)));
    assert_eq!(encode(Instr::Mov(255, 9)), encode(Instr::Mov(3, 9)));
}

#[test]
fn decode_rejects_invalid_tags() {
    for tag in [0u16, 7, 8, 9, 10, 11, 12, 13, 14, 15] {
        for low in [0u16, 0x001, 0x123, 0xFFF] {
            let word = (tag << 12) | low;
            assert_eq!(decode(word), Err(DecodeError));
        }
    }
}

#[test]
fn decode_accepts_all_valid_tags() {
    for tag in 1u16..=6 {
        for low in [0u16, 0x001, 0x123, 0xFFF] {
            let word = (tag << 12) | low;
            assert!(decode(word).is_ok());
        }
    }
}
