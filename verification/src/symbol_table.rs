//! The symbol table: the ordered sequence of `Symbol` records read from the
//! section conventionally named ".symtab", with names resolved through the
//! section named ".strtab".

use vstd::prelude::*;
use vstd::slice::{slice_index_get, slice_subrange};

use crate::errors::DecodeError;
use crate::names::{name_chars, read_name, valid_name};
use crate::section::{find_named, models_of, scan_for_name, Section, SectionModel};
use crate::symbol::{Symbol, SymbolModel, SymbolType};
use crate::words::{read_u32, read_u64, word32, word64, ByteOrder};

verus! {

/// Size in bytes of one symbol-table entry of a 64-bit ELF file.
pub const ELF64_SYM_SIZE: usize = 24;

/// The name offset (into the symbol string table) stored in the entry at
/// index `j` of the symbol table that starts at file offset `so`.
pub open spec fn st_name_off(b: Seq<u8>, so: int, ord: ByteOrder, j: int) -> int {
    word32(b, so + 24 * j, ord)
}

/// The info byte (binding and kind) stored in entry `j`.
pub open spec fn st_info(b: Seq<u8>, so: int, j: int) -> u8 {
    b[so + 24 * j + 4]
}

/// The address stored in entry `j`.
pub open spec fn st_value(b: Seq<u8>, so: int, ord: ByteOrder, j: int) -> int {
    word64(b, so + 24 * j + 8, ord)
}

/// The symbol kind declared by an entry's info byte: the low four bits
/// name a function, or something this model does not tell apart.
pub open spec fn spec_kind_of_info(info: u8) -> SymbolType {
    if info & 0xf == 2 {
        SymbolType::SymTypeFunc
    } else {
        SymbolType::SymTypeUkn
    }
}

/// Classifies a symbol from its info byte.
pub fn kind_of_info(info: u8) -> (k: SymbolType)
    ensures
        k == spec_kind_of_info(info),
{
    if info & 0xf == 2 {
        SymbolType::SymTypeFunc
    } else {
        SymbolType::SymTypeUkn
    }
}

/// The symbol record declared by entry `j`, or the error it is rejected
/// with: a name reference that does not resolve inside the string table
/// `strtab` is a bad name reference. An entry whose name offset points at
/// a NUL byte keeps its place with an empty name.
pub open spec fn sym_model(b: Seq<u8>, so: int, strtab: Seq<u8>, ord: ByteOrder, j: int) -> Result<
    SymbolModel,
    DecodeError,
> {
    if !valid_name(strtab, st_name_off(b, so, ord, j)) {
        Err(DecodeError::BadStringTableIndex)
    } else {
        Ok(
            SymbolModel {
                kind: spec_kind_of_info(st_info(b, so, j)),
                name: name_chars(strtab, st_name_off(b, so, ord, j)),
                addr: st_value(b, so, ord, j) as u64,
            },
        )
    }
}

/// The symbol records declared by entries `j, j + 1, ...` up to `count`,
/// in on-disk order, or the error of the first entry that is rejected.
pub open spec fn syms_models(
    b: Seq<u8>,
    so: int,
    strtab: Seq<u8>,
    ord: ByteOrder,
    j: int,
    count: int,
) -> Result<Seq<SymbolModel>, DecodeError>
    decreases count - j,
{
    if j >= count {
        Ok(Seq::empty())
    } else {
        match sym_model(b, so, strtab, ord, j) {
            Err(e) => Err(e),
            Ok(m) => match syms_models(b, so, strtab, ord, j + 1, count) {
                Err(e) => Err(e),
                Ok(rest) => Ok(seq![m] + rest),
            },
        }
    }
}

/// What building the symbol table from `b` over the sections `ss` yields.
/// A binary without a ".symtab" section has no symbols, which is not an
/// error; one with a ".symtab" but no ".strtab" cannot resolve any name. A
/// symbol or string section whose byte range leaves the buffer is out of
/// bounds. The entry count is the symbol section's size in whole entries;
/// trailing bytes of a ragged size are ignored.
pub open spec fn spec_build_symbols(b: Seq<u8>, ss: Seq<SectionModel>, ord: ByteOrder) -> Result<
    Seq<SymbolModel>,
    DecodeError,
> {
    match find_named(ss, ".symtab"@, 0) {
        None => Ok(Seq::empty()),
        Some(k) => match find_named(ss, ".strtab"@, 0) {
            None => Err(DecodeError::BadStringTableIndex),
            Some(t) => {
                let so = ss[k].offset as int;
                let ssz = ss[k].size as int;
                let to = ss[t].offset as int;
                let tsz = ss[t].size as int;
                if so + ssz > b.len() {
                    Err(DecodeError::OutOfBounds)
                } else if to + tsz > b.len() {
                    Err(DecodeError::OutOfBounds)
                } else {
                    syms_models(b, so, b.subrange(to, to + tsz), ord, 0, ssz / 24)
                }
            },
        },
    }
}

/// The models of the symbols in `v`, in order.
pub open spec fn sym_models_of(v: Seq<Symbol>) -> Seq<SymbolModel> {
    v.map_values(|s: Symbol| s@)
}

/// True when the executable result `r` carries exactly the mathematical
/// result `m`: the same error, or symbols whose models are `m`'s records.
pub open spec fn sym_result_models(
    r: Result<Vec<Symbol>, DecodeError>,
    m: Result<Seq<SymbolModel>, DecodeError>,
) -> bool {
    match (r, m) {
        (Ok(v), Ok(ms)) => sym_models_of(v@) == ms,
        (Err(e1), Err(e2)) => e1 == e2,
        _ => false,
    }
}

/// True while the loop below has consumed entries `0 .. j` into `done`.
spec fn loop_partial(
    b: Seq<u8>,
    so: int,
    strtab: Seq<u8>,
    ord: ByteOrder,
    done: Seq<SymbolModel>,
    j: int,
    count: int,
) -> bool {
    match syms_models(b, so, strtab, ord, j, count) {
        Ok(rest) => syms_models(b, so, strtab, ord, 0, count) == Ok::<
            Seq<SymbolModel>,
            DecodeError,
        >(done + rest),
        Err(e) => syms_models(b, so, strtab, ord, 0, count) == Err::<
            Seq<SymbolModel>,
            DecodeError,
        >(e),
    }
}

/// Builds the symbol table of the binary whose sections are `sections`,
/// reading entries from `buf` with byte order `ord`. A stripped binary
/// (no ".symtab" section) yields the empty table rather than an error;
/// entries with empty names are kept, so entry order is preserved.
pub fn build(buf: &[u8], sections: &[Section], ord: ByteOrder) -> (r: Result<
    Vec<Symbol>,
    DecodeError,
>)
    ensures
        sym_result_models(r, spec_build_symbols(buf@, models_of(sections@), ord)),
{
    let k = match scan_for_name(sections, ".symtab") {
        None => {
            let v: Vec<Symbol> = Vec::new();
            proof {
                assert(sym_models_of(v@) =~= Seq::<SymbolModel>::empty());
            }
            return Ok(v);
        },
        Some(k) => k,
    };
    let t = match scan_for_name(sections, ".strtab") {
        None => {
            return Err(DecodeError::BadStringTableIndex);
        },
        Some(t) => t,
    };
    let len = buf.len();
    let symsec = slice_index_get(sections, k);
    let so = symsec.offset;
    let ssz = symsec.size;
    proof {
        assert(models_of(sections@)[k as int] == sections@[k as int]@);
        assert(models_of(sections@)[t as int] == sections@[t as int]@);
    }
    if so > len as u64 || ssz > len as u64 - so {
        return Err(DecodeError::OutOfBounds);
    }
    let strsec = slice_index_get(sections, t);
    let to = strsec.offset;
    let tsz = strsec.size;
    if to > len as u64 || tsz > len as u64 - to {
        return Err(DecodeError::OutOfBounds);
    }
    let strtab = slice_subrange(buf, to as usize, (to + tsz) as usize);
    let ghost st: Seq<u8> = strtab@;
    let count = ssz / 24;
    proof {
        assert(24 * ((ssz as int) / 24) <= ssz as int) by (nonlinear_arith)
            requires
                ssz >= 0,
        ;
    }
    proof {
        assert(spec_build_symbols(buf@, models_of(sections@), ord) == syms_models(
            buf@,
            so as int,
            st,
            ord,
            0,
            count as int,
        ));
    }
    let mut v: Vec<Symbol> = Vec::new();
    let mut j: u64 = 0;
    let mut eoff: u64 = so;
    while j < count
        invariant
            spec_build_symbols(buf@, models_of(sections@), ord) == syms_models(
                buf@,
                so as int,
                st,
                ord,
                0,
                count as int,
            ),
            j <= count,
            count == ssz as int / 24,
            24 * (count as int) <= ssz,
            so + ssz <= len,
            len == buf@.len(),
            eoff == so + 24 * j,
            st == strtab@,
            loop_partial(buf@, so as int, st, ord, sym_models_of(v@), j as int, count as int),
        decreases count - j,
    {
        let e = eoff as usize;
        let nameoff = read_u32(buf, e, ord);
        let info = buf[e + 4];
        let addr = read_u64(buf, e + 8, ord);
        let name = match read_name(strtab, nameoff as usize) {
            Ok(nm) => nm,
            Err(err) => {
                proof {
                    assert(sym_model(buf@, so as int, st, ord, j as int) == Err::<
                        SymbolModel,
                        DecodeError,
                    >(DecodeError::BadStringTableIndex));
                    assert(syms_models(buf@, so as int, st, ord, j as int, count as int) == Err::<
                        Seq<SymbolModel>,
                        DecodeError,
                    >(DecodeError::BadStringTableIndex));
                }
                return Err(err);
            },
        };
        let kind = kind_of_info(info);
        let sym = Symbol { kind, name, addr };
        proof {
            assert(sym_model(buf@, so as int, st, ord, j as int) == Ok::<SymbolModel, DecodeError>(
                sym@,
            ));
            assert(sym_models_of(v@.push(sym)) =~= sym_models_of(v@) + seq![sym@]);
            match syms_models(buf@, so as int, st, ord, j + 1, count as int) {
                Ok(rest) => {
                    assert(syms_models(buf@, so as int, st, ord, j as int, count as int) == Ok::<
                        Seq<SymbolModel>,
                        DecodeError,
                    >(seq![sym@] + rest));
                    assert((sym_models_of(v@) + (seq![sym@] + rest)) =~= (sym_models_of(v@)
                        + seq![sym@]) + rest);
                },
                Err(_) => {},
            }
        }
        v.push(sym);
        j = j + 1;
        eoff = eoff + 24;
    }
    proof {
        assert(syms_models(buf@, so as int, st, ord, j as int, count as int) == Ok::<
            Seq<SymbolModel>,
            DecodeError,
        >(Seq::empty()));
        assert(sym_models_of(v@) + Seq::<SymbolModel>::empty() =~= sym_models_of(v@));
    }
    Ok(v)
}

} // verus!
