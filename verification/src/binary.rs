//! The aggregate: a fully parsed binary and its address-resolution queries.

use vstd::prelude::*;
use vstd::slice::{slice_index_get, slice_subrange};
use vstd::string::StrSliceExecFns;

use crate::errors::DecodeError;
use crate::header::{decodes, spec_header_error, spec_parse, ElfHeader};
use crate::section::{
    find_named, first_containing, models_of, scan_for_addr, scan_for_name, Section, SectionModel,
};
use crate::section_table;
use crate::symbol::{Symbol, SymbolModel};
use crate::symbol_table;
use crate::symbol_table::sym_models_of;

verus! {

/// The container format a binary was recognized as. `BinTypeAuto` stands
/// for "not yet determined"; the variant set is meant to grow.
#[derive(Clone, Copy, Debug, PartialEq, Eq, Structural)]
pub enum BinaryType {
    /// Format not yet determined.
    BinTypeAuto,
    /// An ELF object.
    BinTypeElf,
    /// A PE object.
    BinTypePe,
}

/// The architecture a binary targets. Unrecognized machine codes map to
/// `ArchNone` rather than failing construction: classification is lenient,
/// only structural corruption is fatal.
#[derive(Clone, Copy, Debug, PartialEq, Eq, Structural)]
pub enum BinaryArch {
    /// No recognized architecture.
    ArchNone,
    /// The x86 family.
    ArchX86,
}

/// A fully parsed binary: the header-level facts, the section table, the
/// symbol table, and the raw buffer the sections' byte ranges point into.
/// Constructed all-or-nothing by `from_bytes` and immutable afterwards.
#[derive(Debug)]
pub struct Binary {
    /// Where the bytes came from: opaque metadata, never parsed.
    pub filename: String,
    /// The recognized container format.
    pub kind: BinaryType,
    /// Human-readable label of the container format.
    pub type_str: String,
    /// The recognized target architecture.
    pub arch: BinaryArch,
    /// Human-readable label of the target architecture.
    pub arch_str: String,
    /// Address width in bits.
    pub bits: u32,
    /// Entry-point virtual address.
    pub entry: u64,
    /// The sections, in on-disk order.
    pub sections: Vec<Section>,
    /// The symbols, in on-disk order.
    pub symbols: Vec<Symbol>,
    /// The raw buffer the binary was parsed from.
    pub data: Vec<u8>,
}

/// The mathematical value of a `Binary`.
pub struct BinaryModel {
    /// Where the bytes came from.
    pub filename: Seq<char>,
    /// The recognized container format.
    pub kind: BinaryType,
    /// Label of the container format.
    pub type_str: Seq<char>,
    /// The recognized target architecture.
    pub arch: BinaryArch,
    /// Label of the target architecture.
    pub arch_str: Seq<char>,
    /// Address width in bits.
    pub bits: u32,
    /// Entry-point virtual address.
    pub entry: u64,
    /// The section records, in on-disk order.
    pub sections: Seq<SectionModel>,
    /// The symbol records, in on-disk order.
    pub symbols: Seq<SymbolModel>,
    /// The raw buffer.
    pub data: Seq<u8>,
}

impl View for Binary {
    type V = BinaryModel;

    open spec fn view(&self) -> BinaryModel {
        BinaryModel {
            filename: self.filename@,
            kind: self.kind,
            type_str: self.type_str@,
            arch: self.arch,
            arch_str: self.arch_str@,
            bits: self.bits,
            entry: self.entry,
            sections: models_of(self.sections@),
            symbols: sym_models_of(self.symbols@),
            data: self.data@,
        }
    }
}

/// The label of a container format.
pub open spec fn spec_type_label(t: BinaryType) -> Seq<char> {
    match t {
        BinaryType::BinTypeAuto => "auto"@,
        BinaryType::BinTypeElf => "ELF"@,
        BinaryType::BinTypePe => "PE"@,
    }
}

/// The label of a container format.
pub fn type_label(t: BinaryType) -> (r: String)
    ensures
        r@ == spec_type_label(t),
{
    match t {
        BinaryType::BinTypeAuto => "auto".to_owned(),
        BinaryType::BinTypeElf => "ELF".to_owned(),
        BinaryType::BinTypePe => "PE".to_owned(),
    }
}

/// The architecture a machine code declares. The x86 family covers the
/// 32-bit and 64-bit machine codes; everything else is unrecognized, which
/// is not an error.
pub open spec fn spec_arch_of(machine: u16) -> BinaryArch {
    if machine == 0x3e || machine == 3 {
        BinaryArch::ArchX86
    } else {
        BinaryArch::ArchNone
    }
}

/// The architecture a machine code declares.
pub fn arch_of(machine: u16) -> (r: BinaryArch)
    ensures
        r == spec_arch_of(machine),
{
    if machine == 0x3e || machine == 3 {
        BinaryArch::ArchX86
    } else {
        BinaryArch::ArchNone
    }
}

/// The label of an architecture.
pub open spec fn spec_arch_label(a: BinaryArch) -> Seq<char> {
    match a {
        BinaryArch::ArchNone => "unknown"@,
        BinaryArch::ArchX86 => "x86"@,
    }
}

/// The label of an architecture.
pub fn arch_label(a: BinaryArch) -> (r: String)
    ensures
        r@ == spec_arch_label(a),
{
    match a {
        BinaryArch::ArchNone => "unknown".to_owned(),
        BinaryArch::ArchX86 => "x86".to_owned(),
    }
}

/// What parsing a whole binary from `b` yields: the header decode, the
/// section table and the symbol table composed in that order, the first
/// failure cutting construction short, so that no partial binary exists.
pub open spec fn spec_from_bytes(fname: Seq<char>, b: Seq<u8>) -> Result<
    BinaryModel,
    DecodeError,
> {
    if !decodes(b) {
        Err(spec_header_error(b))
    } else {
        let h = spec_parse(b);
        match section_table::spec_build(b, h) {
            Err(e) => Err(e),
            Ok(ms) => match symbol_table::spec_build_symbols(b, ms, h.spec_order()) {
                Err(e) => Err(e),
                Ok(syms) => Ok(
                    BinaryModel {
                        filename: fname,
                        kind: BinaryType::BinTypeElf,
                        type_str: spec_type_label(BinaryType::BinTypeElf),
                        arch: spec_arch_of(h.e_machine),
                        arch_str: spec_arch_label(spec_arch_of(h.e_machine)),
                        bits: 64,
                        entry: h.e_entry,
                        sections: ms,
                        symbols: syms,
                        data: b,
                    },
                ),
            },
        }
    }
}

impl Binary {
    /// Every section's byte range lies inside the owning buffer; queries
    /// that hand out section bytes rest on it. `from_bytes` establishes it
    /// and the value never changes afterwards.
    pub open spec fn wf(self) -> bool {
        forall|k: int|
            0 <= k < self@.sections.len() ==> (#[trigger] self@.sections[k]).offset
                + self@.sections[k].size <= self@.data.len()
    }

    /// Parses a whole binary: header, then section table, then symbol
    /// table, short-circuiting on the first failure so that no partially
    /// parsed binary is ever returned. The filename is carried as opaque
    /// metadata. On success the binary owns the buffer, and every
    /// section's byte range lies inside it.
    pub fn from_bytes(filename: String, data: Vec<u8>) -> (r: Result<Binary, DecodeError>)
        ensures
            match r {
                Ok(bin) => spec_from_bytes(filename@, data@) == Ok::<BinaryModel, DecodeError>(
                    bin@,
                ) && bin.wf(),
                Err(e) => spec_from_bytes(filename@, data@) == Err::<BinaryModel, DecodeError>(e),
            },
    {
        let header = match ElfHeader::parse_elf_header(data.as_slice()) {
            Ok(h) => h,
            Err(e) => {
                return Err(e);
            },
        };
        let sections = match section_table::build(data.as_slice(), &header) {
            Ok(v) => v,
            Err(e) => {
                return Err(e);
            },
        };
        let ord = header.order();
        let symbols = match symbol_table::build(data.as_slice(), sections.as_slice(), ord) {
            Ok(v) => v,
            Err(e) => {
                return Err(e);
            },
        };
        let arch = arch_of(header.e_machine);
        let bin = Binary {
            filename,
            kind: BinaryType::BinTypeElf,
            type_str: type_label(BinaryType::BinTypeElf),
            arch,
            arch_str: arch_label(arch),
            bits: 64,
            entry: header.e_entry,
            sections,
            symbols,
            data,
        };
        proof {
            section_table::lemma_spec_build_in_bounds(bin.data@, spec_parse(bin.data@));
        }
        Ok(bin)
    }

    /// The first section carrying `name`, in declared order, or `None`
    /// when no section does. Every section is checked: a mismatch never
    /// cuts the scan short.
    pub fn find_section_by_name(&self, name: &str) -> (r: Option<&Section>)
        ensures
            r is Some <==> find_named(self@.sections, name@, 0) is Some,
            r matches Some(s) ==> find_named(self@.sections, name@, 0) matches Some(i) && *s
                == self.sections@[i] && s@ == self@.sections[i],
    {
        match scan_for_name(self.sections.as_slice(), name) {
            Some(i) => Some(slice_index_get(self.sections.as_slice(), i)),
            None => None,
        }
    }

    /// The first section whose address range holds `addr`, in declared
    /// order, or `None` when no section's range does. Under overlapping
    /// (malformed) input the first match wins, a documented tie-break.
    pub fn section_containing(&self, addr: u64) -> (r: Option<&Section>)
        ensures
            r is Some <==> first_containing(self@.sections, addr, 0) is Some,
            r matches Some(s) ==> first_containing(self@.sections, addr, 0) matches Some(i) && *s
                == self.sections@[i] && s@ == self@.sections[i],
    {
        match scan_for_addr(self.sections.as_slice(), addr) {
            Some(i) => Some(slice_index_get(self.sections.as_slice(), i)),
            None => None,
        }
    }

    /// The section named ".text", by the same full scan as
    /// `find_section_by_name`.
    pub fn get_text_section(&self) -> (r: Option<&Section>)
        ensures
            r is Some <==> find_named(self@.sections, ".text"@, 0) is Some,
            r matches Some(s) ==> find_named(self@.sections, ".text"@, 0) matches Some(i) && *s
                == self.sections@[i] && s@ == self@.sections[i],
    {
        self.find_section_by_name(".text")
    }

    /// The backing bytes of the section at index `i`: the file range
    /// `[offset, offset + size)` of the owning buffer, resolved on demand.
    pub fn section_bytes(&self, i: usize) -> (r: &[u8])
        requires
            self.wf(),
            i < self.sections@.len(),
        ensures
            r@ == self@.data.subrange(
                self@.sections[i as int].offset as int,
                self@.sections[i as int].offset + self@.sections[i as int].size,
            ),
    {
        let sec = slice_index_get(self.sections.as_slice(), i);
        let data = self.data.as_slice();
        // Binding the length tells the verifier the range ends fit in usize.
        let n = data.len();
        proof {
            assert(models_of(self.sections@)[i as int] == self.sections@[i as int]@);
            assert(self@.sections[i as int].offset + self@.sections[i as int].size
                <= self@.data.len());
        }
        let lo = sec.offset;
        let hi = sec.offset + sec.size;
        slice_subrange(data, lo as usize, hi as usize)
    }
}

} // verus!
