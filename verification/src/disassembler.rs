//! The disassembler: a loaded metadata table plus the path of the
//! target binary to disassemble.
//!
//! The table is a readiness gate established at construction; the
//! decode engine works from its hardcoded classification. Reading the
//! target binary and printing the listing are the caller's concern:
//! the disassembler turns a buffer that was read for it into listing
//! lines.

use vstd::prelude::*;

use crate::engine::{disassemble, spec_fail_pos, spec_lines_view, spec_pass_ok,
    TruncatedInstructionError};
use crate::instr::spec_instr_len;
use crate::metadata::OpcodeTable;

verus! {

/// A disassembler ready to run passes over target binaries.
pub struct Disassembler {
    opcodes: OpcodeTable,
    rom: String,
}

impl Disassembler {
    /// Invariant: the metadata table is well formed.
    pub closed spec fn wf(&self) -> bool {
        self.opcodes.wf()
    }

    /// The loaded metadata table's mapping.
    pub closed spec fn spec_opcodes(&self) -> <OpcodeTable as View>::V {
        self.opcodes@
    }

    /// The path of the target binary, as set by `load_rom`.
    pub closed spec fn spec_rom(&self) -> Seq<char> {
        self.rom@
    }

    /// A disassembler over an already-loaded metadata table, with no
    /// target binary selected yet.
    pub fn new(opcodes: OpcodeTable) -> (d: Disassembler)
        requires
            opcodes.wf(),
        ensures
            d.wf(),
            d.spec_opcodes() == opcodes@,
            d.spec_rom() == Seq::<char>::empty(),
    {
        Disassembler { opcodes, rom: String::new() }
    }

    /// Selects the target binary by its path.
    pub fn load_rom(&mut self, file_path: &str)
        ensures
            final(self).spec_rom() == file_path@,
            final(self).spec_opcodes() == old(self).spec_opcodes(),
            final(self).wf() == old(self).wf(),
    {
        self.rom = file_path.to_owned();
    }

    /// The path of the selected target binary.
    pub fn rom_path(&self) -> (r: &str)
        ensures
            r@ == self.spec_rom(),
    {
        self.rom.as_str()
    }

    /// The loaded metadata table.
    pub fn opcodes(&self) -> (r: &OpcodeTable)
        ensures
            r@ == self.spec_opcodes(),
            self.wf() ==> r.wf(),
    {
        &self.opcodes
    }

    /// Disassembles the bytes of the target binary, displayed from
    /// `base`: one pass of the decode engine over the whole buffer.
    pub fn disassemble_buffer(&self, buffer: &Vec<u8>, base: u16) -> (r: Result<
        Vec<String>,
        TruncatedInstructionError,
    >)
        ensures
            r is Ok <==> spec_pass_ok(buffer@, 0),
            (match r {
                Ok(lines) => lines@.map_values(|s: String| s@) == spec_lines_view(
                    buffer@,
                    base,
                    0,
                ),
                Err(e) => {
                    let p = spec_fail_pos(buffer@, 0);
                    &&& e.cursor == p
                    &&& e.needed == spec_instr_len(buffer@[p])
                    &&& e.available == buffer@.len() - p
                },
            }),
    {
        disassemble(buffer, base)
    }
}

} // verus!
