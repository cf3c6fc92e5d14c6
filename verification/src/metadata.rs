//! The instruction metadata table and its loader.
//!
//! The metadata source is tabular text with a header row and the six
//! columns `opcode, mnemonic, addressing_mode, bytes, cycles, flags`;
//! `opcode` and `bytes` are decimal integers, the rest is free text.
//! The loader parses the source's bytes, validates every data row and
//! builds a mapping from mnemonic to its parsed record, later rows
//! winning over earlier ones with the same mnemonic. Loading is a
//! readiness gate for disassembly: the decode engine itself does not
//! consult the table.

use vstd::prelude::*;

use crate::numparse::{parse_i16, parse_i32, spec_parse_int};

verus! {

/// One parsed record of the metadata source.
#[derive(Debug)]
pub struct Opcode {
    pub opcode: i16,
    pub mnemonic: String,
    pub addressing_mode: String,
    pub bytes: i32,
    pub cycles: String,
    pub flags: String,
}

/// The mathematical value of a metadata record.
pub ghost struct OpcodeV {
    pub opcode: int,
    pub mnemonic: Seq<char>,
    pub addressing_mode: Seq<char>,
    pub bytes: int,
    pub cycles: Seq<char>,
    pub flags: Seq<char>,
}

impl View for Opcode {
    type V = OpcodeV;

    open spec fn view(&self) -> OpcodeV {
        OpcodeV {
            opcode: self.opcode as int,
            mnemonic: self.mnemonic@,
            addressing_mode: self.addressing_mode@,
            bytes: self.bytes as int,
            cycles: self.cycles@,
            flags: self.flags@,
        }
    }
}

/// Why the metadata source could not be loaded. Loading has no
/// degraded fallback: the caller reports the error and stops.
#[derive(Debug)]
pub enum MetadataLoadError {
    /// The tabular source itself is malformed; `message` is the
    /// reader's description.
    Syntax { message: String },
    /// Data row `row` (counted from zero) has `found` columns instead
    /// of six.
    ColumnCount { row: usize, found: usize },
    /// The `opcode` field of data row `row` is not a decimal integer
    /// in 16-bit signed range.
    BadOpcode { row: usize },
    /// The `bytes` field of data row `row` is not a decimal integer
    /// in 32-bit signed range.
    BadByteCount { row: usize },
}

/// The field texts of one row.
pub open spec fn spec_fields_view(row: Seq<String>) -> Seq<Seq<char>> {
    row.map_values(|f: String| f@)
}

/// The field texts of every row.
pub open spec fn spec_rows_view(rows: Seq<Vec<String>>) -> Seq<Seq<Seq<char>>> {
    rows.map_values(|r: Vec<String>| spec_fields_view(r@))
}

/// Whether a data row is well formed: six columns, with the `opcode`
/// and `bytes` fields decimal integers in their types' ranges.
pub open spec fn spec_row_valid(row: Seq<Seq<char>>) -> bool {
    &&& row.len() == 6
    &&& (spec_parse_int(row[0]) matches Some(v) && -0x8000 <= v && v <= 0x7fff)
    &&& (spec_parse_int(row[3]) matches Some(v) && -0x8000_0000 <= v && v <= 0x7fff_ffff)
}

/// The record a well-formed data row denotes.
pub open spec fn spec_opcode_of_row(row: Seq<Seq<char>>) -> OpcodeV {
    OpcodeV {
        opcode: spec_parse_int(row[0]).unwrap(),
        mnemonic: row[1],
        addressing_mode: row[2],
        bytes: spec_parse_int(row[3]).unwrap(),
        cycles: row[4],
        flags: row[5],
    }
}

/// The error reported for an ill-formed data row, the column count
/// checked before the numeric fields.
pub open spec fn spec_row_error(row: Seq<Seq<char>>, idx: int) -> MetadataLoadError {
    if row.len() != 6 {
        MetadataLoadError::ColumnCount { row: idx as usize, found: row.len() as usize }
    } else if !(spec_parse_int(row[0]) matches Some(v) && -0x8000 <= v && v <= 0x7fff) {
        MetadataLoadError::BadOpcode { row: idx as usize }
    } else {
        MetadataLoadError::BadByteCount { row: idx as usize }
    }
}

/// Whether every data row before `n` is well formed.
pub open spec fn spec_rows_valid_upto(rows: Seq<Seq<Seq<char>>>, n: int) -> bool {
    forall|i: int| 0 <= i < n ==> spec_row_valid(rows[i])
}

/// Whether the records' mnemonics are pairwise distinct.
pub open spec fn spec_unique_mnemonics(s: Seq<OpcodeV>) -> bool {
    forall|i: int, j: int| 0 <= i < j < s.len() ==> s[i].mnemonic != s[j].mnemonic
}

/// The mapping from mnemonic to record that a sequence of records
/// denotes, later records winning.
pub open spec fn spec_entries_map(s: Seq<OpcodeV>) -> Map<Seq<char>, OpcodeV>
    decreases s.len(),
{
    if s.len() == 0 {
        Map::empty()
    } else {
        spec_entries_map(s.drop_last()).insert(s.last().mnemonic, s.last())
    }
}

/// The table a sequence of well-formed data rows loads to, later rows
/// winning on a repeated mnemonic.
pub open spec fn spec_table_of(rows: Seq<Seq<Seq<char>>>) -> Map<Seq<char>, OpcodeV>
    decreases rows.len(),
{
    if rows.len() == 0 {
        Map::empty()
    } else {
        spec_table_of(rows.drop_last()).insert(
            rows.last()[1],
            spec_opcode_of_row(rows.last()),
        )
    }
}

proof fn lemma_entries_map_no_key(s: Seq<OpcodeV>, k: Seq<char>)
    requires
        forall|i: int| 0 <= i < s.len() ==> s[i].mnemonic != k,
    ensures
        !spec_entries_map(s).contains_key(k),
    decreases s.len(),
{
    if s.len() > 0 {
        assert(forall|i: int|
            0 <= i < s.drop_last().len() ==> #[trigger] s.drop_last()[i].mnemonic != k);
        lemma_entries_map_no_key(s.drop_last(), k);
    }
}

proof fn lemma_entries_map_get(s: Seq<OpcodeV>, j: int)
    requires
        spec_unique_mnemonics(s),
        0 <= j < s.len(),
    ensures
        spec_entries_map(s).contains_key(s[j].mnemonic),
        spec_entries_map(s)[s[j].mnemonic] == s[j],
    decreases s.len(),
{
    if j < s.len() - 1 {
        assert(spec_unique_mnemonics(s.drop_last()));
        assert(s.drop_last()[j] == s[j]);
        lemma_entries_map_get(s.drop_last(), j);
        assert(s.last().mnemonic != s[j].mnemonic);
    }
}

proof fn lemma_entries_map_update(s: Seq<OpcodeV>, j: int, e: OpcodeV)
    requires
        spec_unique_mnemonics(s),
        0 <= j < s.len(),
        s[j].mnemonic == e.mnemonic,
    ensures
        spec_entries_map(s.update(j, e)) == spec_entries_map(s).insert(e.mnemonic, e),
    decreases s.len(),
{
    let su = s.update(j, e);
    if j == s.len() - 1 {
        assert(su.drop_last() =~= s.drop_last());
        assert(su.last() == e);
        assert(spec_entries_map(su) =~= spec_entries_map(s).insert(e.mnemonic, e));
    } else {
        assert(spec_unique_mnemonics(s.drop_last()));
        assert(s.drop_last()[j] == s[j]);
        lemma_entries_map_update(s.drop_last(), j, e);
        assert(su.drop_last() =~= s.drop_last().update(j, e));
        assert(su.last() == s.last());
        assert(s.last().mnemonic != e.mnemonic);
        assert(spec_entries_map(su) =~= spec_entries_map(s).insert(e.mnemonic, e));
    }
}

/// Whether two pieces of text are equal, character by character.
fn str_eq(a: &str, b: &str) -> (r: bool)
    ensures
        r == (a@ == b@),
{
    let n = a.unicode_len();
    if n != b.unicode_len() {
        return false;
    }
    let mut i: usize = 0;
    while i < n
        invariant
            i <= n,
            n == a@.len(),
            n == b@.len(),
            forall|j: int| 0 <= j < i ==> a@[j] == b@[j],
        decreases n - i,
    {
        if a.get_char(i) != b.get_char(i) {
            return false;
        }
        i = i + 1;
    }
    proof {
        assert(a@ =~= b@);
    }
    true
}

/// The in-memory instruction metadata table: a mapping from mnemonic
/// to its record, read-only once loaded.
#[derive(Debug)]
pub struct OpcodeTable {
    entries: Vec<Opcode>,
}

impl View for OpcodeTable {
    type V = Map<Seq<char>, OpcodeV>;

    closed spec fn view(&self) -> Map<Seq<char>, OpcodeV> {
        spec_entries_map(self.entry_views())
    }
}

impl OpcodeTable {
    /// The values of the stored records, in storage order.
    closed spec fn entry_views(&self) -> Seq<OpcodeV> {
        self.entries@.map_values(|o: Opcode| o@)
    }

    /// Invariant: the stored records' mnemonics are pairwise distinct,
    /// so the table really is a mapping.
    pub closed spec fn wf(&self) -> bool {
        spec_unique_mnemonics(self.entry_views())
    }

    /// An empty table.
    pub fn new() -> (r: OpcodeTable)
        ensures
            r.wf(),
            r@ == Map::<Seq<char>, OpcodeV>::empty(),
    {
        OpcodeTable { entries: Vec::new() }
    }

    /// Inserts a record under its mnemonic, replacing an existing
    /// record with the same mnemonic.
    pub fn insert(&mut self, item: Opcode)
        requires
            old(self).wf(),
        ensures
            final(self).wf(),
            final(self)@ == old(self)@.insert(item@.mnemonic, item@),
    {
        let ghost s0 = self.entry_views();
        let ghost key = item@.mnemonic;
        let n = self.entries.len();
        let mut i: usize = 0;
        while i < n
            invariant
                i <= n,
                n == self.entries@.len(),
                self == old(self),
                forall|j: int| 0 <= j < i ==> s0[j].mnemonic != key,
                s0 == self.entry_views(),
                key == item@.mnemonic,
                spec_unique_mnemonics(s0),
            decreases n - i,
        {
            if str_eq(self.entries[i].mnemonic.as_str(), item.mnemonic.as_str()) {
                proof {
                    assert(s0[i as int] == self.entries@[i as int]@);
                }
                self.entries.set(i, item);
                proof {
                    let s1 = self.entry_views();
                    assert(s1 =~= s0.update(i as int, item@));
                    lemma_entries_map_update(s0, i as int, item@);
                    assert forall|a: int, b: int|
                        0 <= a < b < s1.len() implies s1[a].mnemonic != s1[b].mnemonic by {
                        assert(s0[a].mnemonic != s0[b].mnemonic);
                    }
                    assert(spec_unique_mnemonics(s1));
                }
                return;
            }
            proof {
                assert(s0[i as int] == self.entries@[i as int]@);
            }
            i = i + 1;
        }
        self.entries.push(item);
        proof {
            let s1 = self.entry_views();
            assert(s1.drop_last() =~= s0);
            assert(s1.last() == item@);
            assert forall|a: int, b: int|
                0 <= a < b < s1.len() implies s1[a].mnemonic != s1[b].mnemonic by {
                if b < s1.len() - 1 {
                    assert(s0[a].mnemonic != s0[b].mnemonic);
                } else {
                    assert(s0[a].mnemonic != key);
                }
            }
            assert(spec_unique_mnemonics(s1));
        }
    }

    /// Looks a mnemonic up: the record stored under it, if any.
    pub fn get(&self, mnemonic: &str) -> (r: Option<&Opcode>)
        requires
            self.wf(),
        ensures
            (match r {
                Some(o) => self@.contains_key(mnemonic@) && o@ == self@[mnemonic@],
                None => !self@.contains_key(mnemonic@),
            }),
    {
        let ghost s = self.entry_views();
        let n = self.entries.len();
        let mut i: usize = 0;
        while i < n
            invariant
                i <= n,
                n == self.entries@.len(),
                self.wf(),
                s == self.entry_views(),
                forall|j: int| 0 <= j < i ==> s[j].mnemonic != mnemonic@,
            decreases n - i,
        {
            if str_eq(self.entries[i].mnemonic.as_str(), mnemonic) {
                proof {
                    assert(s[i as int] == self.entries@[i as int]@);
                    lemma_entries_map_get(s, i as int);
                }
                return Some(&self.entries[i]);
            }
            proof {
                assert(s[i as int] == self.entries@[i as int]@);
            }
            i = i + 1;
        }
        proof {
            lemma_entries_map_no_key(s, mnemonic@);
        }
        None
    }
}

/// Parses data row `idx`, validating its shape and numeric fields.
pub fn parse_row(row: &Vec<String>, idx: usize) -> (r: Result<Opcode, MetadataLoadError>)
    ensures
        r is Ok <==> spec_row_valid(spec_fields_view(row@)),
        (match r {
            Ok(o) => o@ == spec_opcode_of_row(spec_fields_view(row@)),
            Err(e) => e == spec_row_error(spec_fields_view(row@), idx as int),
        }),
{
    if row.len() != 6 {
        return Err(MetadataLoadError::ColumnCount { row: idx, found: row.len() });
    }
    let opcode = match parse_i16(row[0].as_str()) {
        Some(v) => v,
        None => {
            return Err(MetadataLoadError::BadOpcode { row: idx });
        },
    };
    let bytes = match parse_i32(row[3].as_str()) {
        Some(v) => v,
        None => {
            return Err(MetadataLoadError::BadByteCount { row: idx });
        },
    };
    Ok(
        Opcode {
            opcode,
            mnemonic: row[1].clone(),
            addressing_mode: row[2].clone(),
            bytes,
            cycles: row[4].clone(),
            flags: row[5].clone(),
        },
    )
}

/// Builds the metadata table from the parsed data rows: every row must
/// be well formed, and a later row replaces an earlier one with the
/// same mnemonic. On the first ill-formed row its error is returned.
pub fn build_table(rows: &Vec<Vec<String>>) -> (r: Result<OpcodeTable, MetadataLoadError>)
    ensures
        r is Ok <==> spec_rows_valid_upto(spec_rows_view(rows@), rows@.len() as int),
        (match r {
            Ok(t) => t.wf() && t@ == spec_table_of(spec_rows_view(rows@)),
            Err(e) => exists|i: int|
                {
                    &&& 0 <= i < spec_rows_view(rows@).len()
                    &&& !(#[trigger] spec_row_valid(spec_rows_view(rows@)[i]))
                    &&& spec_rows_valid_upto(spec_rows_view(rows@), i)
                    &&& e == spec_row_error(spec_rows_view(rows@)[i], i)
                },
        }),
{
    let ghost rv = spec_rows_view(rows@);
    let mut table = OpcodeTable::new();
    let n = rows.len();
    let mut i: usize = 0;
    while i < n
        invariant
            i <= n,
            n == rows@.len(),
            rv == spec_rows_view(rows@),
            table.wf(),
            spec_rows_valid_upto(rv, i as int),
            table@ == spec_table_of(rv.take(i as int)),
        decreases n - i,
    {
        match parse_row(&rows[i], i) {
            Ok(o) => {
                proof {
                    assert(rv[i as int] == spec_fields_view(rows@[i as int]@));
                }
                table.insert(o);
                proof {
                    assert(rv.take(i as int + 1).drop_last() =~= rv.take(i as int));
                    assert(rv.take(i as int + 1).last() == rv[i as int]);
                }
            },
            Err(e) => {
                proof {
                    let bad = i as int;
                    assert({
                        &&& 0 <= bad < rv.len()
                        &&& !spec_row_valid(rv[bad])
                        &&& spec_rows_valid_upto(rv, bad)
                        &&& e == spec_row_error(rv[bad], bad)
                    });
                }
                return Err(e);
            },
        }
        i = i + 1;
    }
    proof {
        assert(rv.take(n as int) =~= rv);
    }
    Ok(table)
}

/// The parse result the tabular reader yields for a byte buffer: the
/// data rows after the header row, each as its field texts, or the
/// text of the reader's first error. Parsing in-memory bytes is a
/// function of the bytes alone.
pub uninterp spec fn csv_parse_of(data: Seq<u8>) -> Result<Seq<Seq<Seq<char>>>, Seq<char>>;

/// Relies on csv::Reader::from_reader over an in-memory byte slice,
/// with its default configuration: the first row is a header that
/// `records` does not yield, and records of unequal lengths are a
/// record-level error. Each csv::StringRecord is converted to its
/// field strings; on the first erroneous record the error's text is
/// returned instead.
#[verifier::external_body]
fn csv_records(data: &[u8]) -> (r: Result<Vec<Vec<String>>, String>)
    ensures
        r is Ok <==> csv_parse_of(data@) is Ok,
        (match r {
            Ok(rows) => csv_parse_of(data@) == Ok::<_, Seq<char>>(spec_rows_view(rows@)),
            Err(m) => csv_parse_of(data@) == Err::<Seq<Seq<Seq<char>>>, _>(m@),
        }),
{
    let mut reader = csv::Reader::from_reader(data);
    let mut rows: Vec<Vec<String>> = Vec::new();
    for record in reader.records() {
        match record {
            Ok(rec) => rows.push(rec.iter().map(|f| f.to_string()).collect()),
            Err(e) => {
                return Err(e.to_string());
            },
        }
    }
    Ok(rows)
}

/// Loads the instruction metadata table from the bytes of the tabular
/// source. Succeeds exactly when the source parses and every data row
/// is well formed; the table then maps each mnemonic to its last
/// well-formed record.
pub fn load_op_codes(data: &[u8]) -> (r: Result<OpcodeTable, MetadataLoadError>)
    ensures
        r is Ok <==> (csv_parse_of(data@) matches Ok(rows) && spec_rows_valid_upto(
            rows,
            rows.len() as int,
        )),
        (match r {
            Ok(t) => {
                &&& t.wf()
                &&& csv_parse_of(data@) matches Ok(rows) && t@ == spec_table_of(rows)
            },
            Err(e) => (match csv_parse_of(data@) {
                Ok(rows) => exists|i: int|
                    {
                        &&& 0 <= i < rows.len()
                        &&& !(#[trigger] spec_row_valid(rows[i]))
                        &&& spec_rows_valid_upto(rows, i)
                        &&& e == spec_row_error(rows[i], i)
                    },
                Err(m) => e matches MetadataLoadError::Syntax { message } && message@ == m,
            }),
        }),
{
    match csv_records(data) {
        Ok(rows) => build_table(&rows),
        Err(message) => Err(MetadataLoadError::Syntax { message }),
    }
}

} // verus!
