use disasm6502::disassembler::Disassembler;
use disasm6502::metadata::{load_op_codes, MetadataLoadError};
use disasm6502::numparse::{parse_i16, parse_i32};

const HEADER: &str = "opcode,mnemonic,addressing_mode,bytes,cycles,flags\n";

fn source(rows: &[&str]) -> Vec<u8> {
    let mut text = String::from(HEADER);
    for row in rows {
        text.push_str(row);
        text.push('\n');
    }
    text.into_bytes()
}

#[test]
fn loads_well_formed_rows() {
    let data = source(&["169,LDA,Immediate,2,2,NZ", "141,STA,Absolute,3,4,None"]);
    let table = load_op_codes(&data).unwrap();
    let lda = table.get("LDA").unwrap();
    assert_eq!(lda.opcode, 169);
    assert_eq!(lda.mnemonic, "LDA");
    assert_eq!(lda.addressing_mode, "Immediate");
    assert_eq!(lda.bytes, 2);
    assert_eq!(lda.cycles, "2");
    assert_eq!(lda.flags, "NZ");
    let sta = table.get("STA").unwrap();
    assert_eq!(sta.opcode, 141);
    assert!(table.get("BRK").is_none());
}

#[test]
fn later_row_wins_on_a_repeated_mnemonic() {
    let data = source(&["169,LDA,Immediate,2,2,NZ", "173,LDA,Absolute,3,4,NZ"]);
    let table = load_op_codes(&data).unwrap();
    let lda = table.get("LDA").unwrap();
    assert_eq!(lda.opcode, 173);
    assert_eq!(lda.addressing_mode, "Absolute");
    assert_eq!(lda.bytes, 3);
}

#[test]
fn negative_and_signed_fields_parse() {
    let data = source(&["-1,XXX,None,+2,2,none"]);
    let table = load_op_codes(&data).unwrap();
    let x = table.get("XXX").unwrap();
    assert_eq!(x.opcode, -1);
    assert_eq!(x.bytes, 2);
}

#[test]
fn wrong_column_count_is_reported() {
    let data = b"a,b,c\n1,2,3\n".to_vec();
    let err = load_op_codes(&data).unwrap_err();
    assert!(matches!(err, MetadataLoadError::ColumnCount { row: 0, found: 3 }));
}

#[test]
fn unparsable_opcode_field_is_reported() {
    let data = source(&["169,LDA,Immediate,2,2,NZ", "xx,STA,Absolute,3,4,None"]);
    let err = load_op_codes(&data).unwrap_err();
    assert!(matches!(err, MetadataLoadError::BadOpcode { row: 1 }));
}

#[test]
fn out_of_range_opcode_field_is_reported() {
    let data = source(&["40000,LDA,Immediate,2,2,NZ"]);
    let err = load_op_codes(&data).unwrap_err();
    assert!(matches!(err, MetadataLoadError::BadOpcode { row: 0 }));
}

#[test]
fn unparsable_bytes_field_is_reported() {
    let data = source(&["169,LDA,Immediate,two,2,NZ"]);
    let err = load_op_codes(&data).unwrap_err();
    assert!(matches!(err, MetadataLoadError::BadByteCount { row: 0 }));
}

#[test]
fn malformed_source_is_a_syntax_error() {
    let data = source(&["169,LDA,Immediate,2,2,NZ", "141,STA,Absolute,3,4"]);
    let err = load_op_codes(&data).unwrap_err();
    assert!(matches!(err, MetadataLoadError::Syntax { .. }));
}

#[test]
fn empty_source_loads_an_empty_table() {
    let data = source(&[]);
    let table = load_op_codes(&data).unwrap();
    assert!(table.get("LDA").is_none());
}

#[test]
fn parse_i16_accepts_exactly_its_range() {
    assert_eq!(parse_i16("123"), Some(123));
    assert_eq!(parse_i16("007"), Some(7));
    assert_eq!(parse_i16("+7"), Some(7));
    assert_eq!(parse_i16("-128"), Some(-128));
    assert_eq!(parse_i16("32767"), Some(32767));
    assert_eq!(parse_i16("32768"), None);
    assert_eq!(parse_i16("-32768"), Some(-32768));
    assert_eq!(parse_i16("-32769"), None);
    assert_eq!(parse_i16(""), None);
    assert_eq!(parse_i16("-"), None);
    assert_eq!(parse_i16("+"), None);
    assert_eq!(parse_i16("12a"), None);
    assert_eq!(parse_i16(" 12"), None);
    assert_eq!(parse_i16("99999999999999999999"), None);
}

#[test]
fn parse_i32_accepts_exactly_its_range() {
    assert_eq!(parse_i32("2147483647"), Some(2147483647));
    assert_eq!(parse_i32("2147483648"), None);
    assert_eq!(parse_i32("-2147483648"), Some(-2147483648));
    assert_eq!(parse_i32("-2147483649"), None);
    assert_eq!(parse_i32("0"), Some(0));
    assert_eq!(parse_i32("--1"), None);
}

#[test]
fn disassembler_holds_table_and_rom_path() {
    let data = source(&["169,LDA,Immediate,2,2,NZ"]);
    let table = load_op_codes(&data).unwrap();
    let mut d = Disassembler::new(table);
    assert_eq!(d.rom_path(), "");
    d.load_rom("game.bin");
    assert_eq!(d.rom_path(), "game.bin");
    assert_eq!(d.opcodes().get("LDA").unwrap().opcode, 169);
    let lines = d.disassemble_buffer(&vec![0xA9, 0x01], 0x5000).unwrap();
    assert_eq!(lines, vec!["5000 A9 01    LDA #$01".to_string()]);
}
