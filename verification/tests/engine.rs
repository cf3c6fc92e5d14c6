use disasm6502::engine::{decode_one, disassemble, DEFAULT_BASE_ADDRESS};

#[test]
fn every_opcode_byte_decodes() {
    for op in 0u16..=255u16 {
        let buffer = vec![op as u8, 0x00, 0x00];
        let (line, len) = decode_one(&buffer, 0, DEFAULT_BASE_ADDRESS)
            .expect("a three-byte buffer holds any instruction");
        assert!(len >= 1 && len <= 3, "opcode {:#04x} gave length {}", op, len);
        assert!(!line.is_empty(), "opcode {:#04x} gave an empty line", op);
    }
}

#[test]
fn lengths_tile_the_buffer() {
    let buffer = vec![0xA9, 0x01, 0x8D, 0x00, 0x20, 0x4C, 0x00, 0x50];
    let mut cursor: usize = 0;
    let mut total: usize = 0;
    while cursor < buffer.len() {
        let (_, len) = decode_one(&buffer, cursor, DEFAULT_BASE_ADDRESS).unwrap();
        total += len;
        cursor += len;
    }
    assert_eq!(total, buffer.len());
    assert_eq!(cursor, buffer.len());
}

#[test]
fn formatting_is_position_independent() {
    let buffer = vec![0xA9, 0x42, 0x00, 0xA9, 0x42];
    let (line_a, len_a) = decode_one(&buffer, 0, DEFAULT_BASE_ADDRESS).unwrap();
    let (line_b, len_b) = decode_one(&buffer, 3, DEFAULT_BASE_ADDRESS).unwrap();
    assert_eq!(len_a, 2);
    assert_eq!(len_b, 2);
    // the mnemonic and operand text starts after the 14-character
    // address and raw-byte prefix
    assert_eq!(&line_a[14..], &line_b[14..]);
    assert_ne!(&line_a[..4], &line_b[..4]);
}

#[test]
fn branch_forward_target() {
    let buffer = vec![0x90, 0x05];
    let (line, len) = decode_one(&buffer, 0, 0x5000).unwrap();
    assert_eq!(len, 2);
    assert_eq!(line, "5000 90 05    BCC $05\t\t; $5007");
}

#[test]
fn branch_backward_target_is_signed() {
    let buffer = vec![0x90, 0xFB];
    let (line, len) = decode_one(&buffer, 0, 0x5000).unwrap();
    assert_eq!(len, 2);
    assert_eq!(line, "5000 90 FB    BCC $fb\t\t; $4ffd");
}

#[test]
fn all_eight_branches_are_annotated() {
    for op in [0x10u8, 0x30, 0x50, 0x70, 0x90, 0xB0, 0xD0, 0xF0] {
        let buffer = vec![op, 0x02];
        let (line, _) = decode_one(&buffer, 0, 0x5000).unwrap();
        assert!(line.ends_with("\t\t; $5004"), "opcode {:#04x}: {}", op, line);
    }
}

#[test]
fn unknown_opcode_is_a_raw_data_byte() {
    let buffer = vec![0x02];
    let (line, len) = decode_one(&buffer, 0, 0x5000).unwrap();
    assert_eq!(len, 1);
    assert_eq!(line, "5000 02       .db $02");
}

#[test]
fn end_to_end_scenario() {
    let buffer = vec![0xA9, 0x01, 0x8D, 0x00, 0x20, 0x4C, 0x00, 0x50];
    let lines = disassemble(&buffer, 0x5000).unwrap();
    assert_eq!(
        lines,
        vec![
            "5000 A9 01    LDA #$01".to_string(),
            "5002 8D 00 20 STA $2000".to_string(),
            "5005 4C 00 50 JMP $5000".to_string(),
        ]
    );
}

#[test]
fn truncated_instruction_is_an_error() {
    let buffer = vec![0xA9];
    let err = decode_one(&buffer, 0, 0x5000).unwrap_err();
    assert_eq!(err.cursor, 0);
    assert_eq!(err.needed, 2);
    assert_eq!(err.available, 1);
    let err = disassemble(&buffer, 0x5000).unwrap_err();
    assert_eq!(err.cursor, 0);
    assert_eq!(err.needed, 2);
    assert_eq!(err.available, 1);
}

#[test]
fn truncation_mid_buffer() {
    let buffer = vec![0xEA, 0x4C, 0x00];
    let err = disassemble(&buffer, 0x5000).unwrap_err();
    assert_eq!(err.cursor, 1);
    assert_eq!(err.needed, 3);
    assert_eq!(err.available, 2);
}

#[test]
fn empty_buffer_disassembles_to_nothing() {
    let buffer: Vec<u8> = Vec::new();
    let lines = disassemble(&buffer, 0x5000).unwrap();
    assert!(lines.is_empty());
}

#[test]
fn implied_accumulator_and_indexed_forms() {
    let cases: Vec<(Vec<u8>, &str)> = vec![
        (vec![0x00], "5000 00       BRK"),
        (vec![0x0A], "5000 0A       ASL A"),
        (vec![0x01, 0x1F], "5000 01 1F    ORA ($1f,X)"),
        (vec![0x11, 0x1F], "5000 11 1F    ORA ($1f),Y"),
        (vec![0x15, 0x1F], "5000 15 1F    ORA $1f,X"),
        (vec![0x96, 0x1F], "5000 96 1F    STX $1f,Y"),
        (vec![0x6C, 0x34, 0x12], "5000 6C 34 12 JMP ($1234)"),
        (vec![0xBD, 0x34, 0x12], "5000 BD 34 12 LDA $1234,X"),
        (vec![0xB9, 0x34, 0x12], "5000 B9 34 12 LDA $1234,Y"),
        (vec![0xA5, 0x07], "5000 A5 07    LDA $07"),
    ];
    for (buffer, expected) in cases {
        let (line, _) = decode_one(&buffer, 0, 0x5000).unwrap();
        assert_eq!(line, expected);
    }
}

#[test]
fn display_address_follows_base_and_cursor() {
    let buffer = vec![0xEA, 0xEA];
    let (line, _) = decode_one(&buffer, 1, 0x1234).unwrap();
    assert_eq!(line, "1235 EA       NOP");
    let (line, _) = decode_one(&buffer, 0, 0x0000).unwrap();
    assert_eq!(line, "0000 EA       NOP");
}

#[test]
fn branch_target_wraps_around_the_address_space() {
    let buffer = vec![0x90, 0x80];
    let (line, _) = decode_one(&buffer, 0, 0x0000).unwrap();
    // displacement -128 from the next instruction at 0x0002
    assert_eq!(line, "0000 90 80    BCC $80\t\t; $ff82");
}
