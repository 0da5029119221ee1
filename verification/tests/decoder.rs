use chip8::fault::Fault;
use chip8::op::Op;

#[test]
fn decodes_clear_and_return() {
    assert_eq!(Op::decode(0x00E0), Ok(Op::CLR));
    assert_eq!(Op::decode(0x00EE), Ok(Op::RET));
}

#[test]
fn decodes_group_zero_by_its_low_byte() {
    assert_eq!(Op::decode(0x01E0), Ok(Op::CLR));
    assert_eq!(Op::decode(0x0FEE), Ok(Op::RET));
    assert_eq!(Op::decode(0x0EE0), Ok(Op::CLR));
    assert_eq!(Op::decode(0x0E00), Err(Fault::InvalidOpcode));
}

#[test]
fn decodes_the_register_skips_whatever_their_low_nibble() {
    assert_eq!(Op::decode(0x5AB7), Ok(Op::SER));
    assert_eq!(Op::decode(0x9AB7), Ok(Op::SNER));
}

#[test]
fn decodes_jump_with_its_address() {
    assert_eq!(Op::decode(0x1ABC), Ok(Op::JP));
    assert_eq!(Op::nnn(0x1ABC), 0xABC);
}

#[test]
fn decodes_load_immediate_with_its_operands() {
    assert_eq!(Op::decode(0x6305), Ok(Op::LD));
    assert_eq!(Op::x(0x6305), 3);
    assert_eq!(Op::kk(0x6305), 0x05);
}

#[test]
fn decodes_every_group_by_its_top_nibble() {
    assert_eq!(Op::decode(0x2123), Ok(Op::CALL));
    assert_eq!(Op::decode(0x3A10), Ok(Op::SE));
    assert_eq!(Op::decode(0x4A10), Ok(Op::SNE));
    assert_eq!(Op::decode(0x5AB0), Ok(Op::SER));
    assert_eq!(Op::decode(0x7A10), Ok(Op::ADD));
    assert_eq!(Op::decode(0x9AB0), Ok(Op::SNER));
    assert_eq!(Op::decode(0xA123), Ok(Op::LDI));
    assert_eq!(Op::decode(0xB123), Ok(Op::JPA));
    assert_eq!(Op::decode(0xC1FF), Ok(Op::RND));
    assert_eq!(Op::decode(0xD125), Ok(Op::DRW));
}

#[test]
fn decodes_the_arithmetic_family_by_its_low_nibble() {
    assert_eq!(Op::decode(0x8120), Ok(Op::LDR));
    assert_eq!(Op::decode(0x8121), Ok(Op::OR));
    assert_eq!(Op::decode(0x8122), Ok(Op::AND));
    assert_eq!(Op::decode(0x8123), Ok(Op::XOR));
    assert_eq!(Op::decode(0x8124), Ok(Op::ADDR));
    assert_eq!(Op::decode(0x8125), Ok(Op::SUB));
    assert_eq!(Op::decode(0x8126), Ok(Op::SHR));
    assert_eq!(Op::decode(0x8127), Ok(Op::SUBN));
    assert_eq!(Op::decode(0x812E), Ok(Op::SHL));
    assert_eq!(Op::decode8(0x0004), Ok(Op::ADDR));
    assert_eq!(Op::decode8(0x8128), Err(Fault::InvalidOpcode));
}

#[test]
fn decodes_the_key_family_by_its_low_byte() {
    assert_eq!(Op::decode(0xE39E), Ok(Op::SKP));
    assert_eq!(Op::decode(0xE3A1), Ok(Op::SKNP));
    assert_eq!(Op::decode(0xE3A2), Err(Fault::InvalidOpcode));
}

#[test]
fn decodes_the_timer_and_memory_family_by_its_low_byte() {
    assert_eq!(Op::decode(0xF207), Ok(Op::LDD));
    assert_eq!(Op::decode(0xF20A), Ok(Op::LDK));
    assert_eq!(Op::decode(0xF215), Ok(Op::LDDT));
    assert_eq!(Op::decode(0xF218), Ok(Op::LDST));
    assert_eq!(Op::decode(0xF21E), Ok(Op::ADDI));
    assert_eq!(Op::decode(0xF229), Ok(Op::LDF));
    assert_eq!(Op::decode(0xF233), Ok(Op::LDB));
    assert_eq!(Op::decode(0xF255), Ok(Op::LDII));
    assert_eq!(Op::decode(0xF265), Ok(Op::LDVX));
    assert_eq!(Op::decode_f(0x0033), Ok(Op::LDB));
    assert_eq!(Op::decode_f(0xF2FF), Err(Fault::InvalidOpcode));
}

#[test]
fn rejects_words_that_encode_nothing() {
    assert_eq!(Op::decode(0x0000), Err(Fault::InvalidOpcode));
    assert_eq!(Op::decode(0x00E1), Err(Fault::InvalidOpcode));
    assert_eq!(Op::decode(0x00EF), Err(Fault::InvalidOpcode));
    assert_eq!(Op::decode(0x0123), Err(Fault::InvalidOpcode));
    assert_eq!(Op::decode(0x8008), Err(Fault::InvalidOpcode));
    assert_eq!(Op::decode(0xE000), Err(Fault::InvalidOpcode));
    assert_eq!(Op::decode(0xF000), Err(Fault::InvalidOpcode));
}

#[test]
fn extracts_the_operand_fields() {
    assert_eq!(Op::x(0xDABC), 0xA);
    assert_eq!(Op::y(0xDABC), 0xB);
    assert_eq!(Op::nibble(0xDABC), 0xC);
    assert_eq!(Op::kk(0xDABC), 0xBC);
    assert_eq!(Op::nnn(0xDABC), 0xABC);
    assert_eq!(Op::x(0xFFFF), 15);
    assert_eq!(Op::y(0x0000), 0);
}
