//! The section table: the ordered sequence of `Section` records read from
//! the section-header table the file header points at.

use vstd::prelude::*;
use vstd::arithmetic::mul::lemma_mul_inequality;
use vstd::slice::slice_subrange;

use crate::errors::DecodeError;
use crate::header::{ElfHeader, HeaderModel};
use crate::names::{name_chars, read_name, valid_name};
use crate::section::{kind_of_flags, models_of, spec_kind_of_flags, Section, SectionModel};
use crate::words::{read_u32, read_u64, word32, word64};

verus! {

/// Size in bytes of one section-header entry of a 64-bit ELF file.
pub const ELF64_SHDR_SIZE: usize = 64;

/// File offset of the section-header entry at index `i`.
pub open spec fn sh_entry_off(h: HeaderModel, i: int) -> int {
    h.e_shoff + i * h.e_shentsize
}

/// The name offset (into the section-name string table) stored in entry `i`.
pub open spec fn sh_name_off(b: Seq<u8>, h: HeaderModel, i: int) -> int {
    word32(b, sh_entry_off(h, i), h.spec_order())
}

/// The flag bits stored in entry `i`.
pub open spec fn sh_flags(b: Seq<u8>, h: HeaderModel, i: int) -> int {
    word64(b, sh_entry_off(h, i) + 8, h.spec_order())
}

/// The starting virtual address stored in entry `i`.
pub open spec fn sh_addr(b: Seq<u8>, h: HeaderModel, i: int) -> int {
    word64(b, sh_entry_off(h, i) + 16, h.spec_order())
}

/// The file offset of the section's bytes stored in entry `i`.
pub open spec fn sh_offset(b: Seq<u8>, h: HeaderModel, i: int) -> int {
    word64(b, sh_entry_off(h, i) + 24, h.spec_order())
}

/// The size in bytes of the section stored in entry `i`.
pub open spec fn sh_size(b: Seq<u8>, h: HeaderModel, i: int) -> int {
    word64(b, sh_entry_off(h, i) + 32, h.spec_order())
}

/// The section record declared by entry `i`, or the error it is rejected
/// with: a name reference that does not resolve inside the string table
/// `strtab` is a bad name reference, and a byte range that leaves the
/// buffer is out of bounds.
pub open spec fn entry_model(b: Seq<u8>, h: HeaderModel, strtab: Seq<u8>, i: int) -> Result<
    SectionModel,
    DecodeError,
> {
    if !valid_name(strtab, sh_name_off(b, h, i)) {
        Err(DecodeError::BadStringTableIndex)
    } else if sh_offset(b, h, i) + sh_size(b, h, i) > b.len() {
        Err(DecodeError::OutOfBounds)
    } else {
        Ok(
            SectionModel {
                name: name_chars(strtab, sh_name_off(b, h, i)),
                kind: spec_kind_of_flags(sh_flags(b, h, i) as u64),
                vma: sh_addr(b, h, i) as u64,
                size: sh_size(b, h, i) as u64,
                offset: sh_offset(b, h, i) as u64,
            },
        )
    }
}

/// The section records declared by entries `i, i + 1, ...` up to the
/// header's section count, in on-disk order, or the error of the first
/// entry that is rejected.
pub open spec fn table_models(b: Seq<u8>, h: HeaderModel, strtab: Seq<u8>, i: int) -> Result<
    Seq<SectionModel>,
    DecodeError,
>
    decreases h.e_shnum - i,
{
    if i >= h.e_shnum {
        Ok(Seq::empty())
    } else {
        match entry_model(b, h, strtab, i) {
            Err(e) => Err(e),
            Ok(m) => match table_models(b, h, strtab, i + 1) {
                Err(e) => Err(e),
                Ok(rest) => Ok(seq![m] + rest),
            },
        }
    }
}

/// What building the section table from `b` under header `h` yields: the
/// models of all sections in on-disk order, or the first error. An empty
/// declared table builds to the empty sequence whatever the other header
/// fields hold; a declared entry size below the fixed entry layout, or a
/// table that leaves the buffer, is out of bounds; a string-table index
/// with no entry behind it is a bad name reference.
pub open spec fn spec_build(b: Seq<u8>, h: HeaderModel) -> Result<Seq<SectionModel>, DecodeError> {
    let n = h.e_shnum as int;
    let esz = h.e_shentsize as int;
    let off = h.e_shoff as int;
    if n == 0 {
        Ok(Seq::empty())
    } else if esz < ELF64_SHDR_SIZE {
        Err(DecodeError::OutOfBounds)
    } else if off + n * esz > b.len() {
        Err(DecodeError::OutOfBounds)
    } else if h.e_shstrndx as int >= n {
        Err(DecodeError::BadStringTableIndex)
    } else {
        let stoff = sh_offset(b, h, h.e_shstrndx as int);
        let stsz = sh_size(b, h, h.e_shstrndx as int);
        if stoff + stsz > b.len() {
            Err(DecodeError::OutOfBounds)
        } else {
            table_models(b, h, b.subrange(stoff, stoff + stsz), 0)
        }
    }
}

/// Every section record of a successfully built table keeps its byte range
/// inside the buffer it was read from.
pub proof fn lemma_table_models_in_bounds(b: Seq<u8>, h: HeaderModel, strtab: Seq<u8>, i: int)
    ensures
        table_models(b, h, strtab, i) matches Ok(ms) ==> forall|k: int|
            0 <= k < ms.len() ==> (#[trigger] ms[k]).offset + ms[k].size <= b.len(),
    decreases h.e_shnum - i,
{
    if i < h.e_shnum {
        lemma_table_models_in_bounds(b, h, strtab, i + 1);
    }
}

/// Every section of a successfully built table keeps its byte range inside
/// the buffer.
pub proof fn lemma_spec_build_in_bounds(b: Seq<u8>, h: HeaderModel)
    ensures
        spec_build(b, h) matches Ok(ms) ==> forall|k: int|
            0 <= k < ms.len() ==> (#[trigger] ms[k]).offset + ms[k].size <= b.len(),
{
    if h.e_shnum as int != 0 {
        let stoff = sh_offset(b, h, h.e_shstrndx as int);
        let stsz = sh_size(b, h, h.e_shstrndx as int);
        lemma_table_models_in_bounds(b, h, b.subrange(stoff, stoff + stsz), 0);
    }
}

/// True when the executable result `r` carries exactly the mathematical
/// result `m`: the same error, or sections whose models are `m`'s records.
pub open spec fn result_models(
    r: Result<Vec<Section>, DecodeError>,
    m: Result<Seq<SectionModel>, DecodeError>,
) -> bool {
    match (r, m) {
        (Ok(v), Ok(ms)) => models_of(v@) == ms,
        (Err(e1), Err(e2)) => e1 == e2,
        _ => false,
    }
}

/// True while the loop below has consumed entries `0 .. i` into `done`:
/// whatever the remaining entries yield combines with `done` to the result
/// of the whole table.
spec fn loop_partial(
    b: Seq<u8>,
    h: HeaderModel,
    strtab: Seq<u8>,
    done: Seq<SectionModel>,
    i: int,
) -> bool {
    match table_models(b, h, strtab, i) {
        Ok(rest) => table_models(b, h, strtab, 0) == Ok::<Seq<SectionModel>, DecodeError>(
            done + rest,
        ),
        Err(e) => table_models(b, h, strtab, 0) == Err::<Seq<SectionModel>, DecodeError>(e),
    }
}

/// Builds the ordered section table that the header declares, reading each
/// section-header entry from `buf` and resolving each name through the
/// section-name string table. No entry is silently dropped, and no read
/// leaves `buf`: a table or section range past the buffer end fails with
/// `OutOfBounds`, an unresolvable name with `BadStringTableIndex`, the
/// first offending entry deciding.
pub fn build(buf: &[u8], header: &ElfHeader) -> (r: Result<Vec<Section>, DecodeError>)
    ensures
        result_models(r, spec_build(buf@, header@)),
{
    let len = buf.len();
    let n = header.e_shnum as usize;
    if n == 0 {
        let v: Vec<Section> = Vec::new();
        proof {
            assert(models_of(v@) =~= Seq::<SectionModel>::empty());
        }
        return Ok(v);
    }
    let esz = header.e_shentsize as usize;
    if esz < ELF64_SHDR_SIZE {
        return Err(DecodeError::OutOfBounds);
    }
    let off = header.e_shoff;
    proof {
        assert((n as int) * (esz as int) <= 0xFFFF * 0xFFFF) by (nonlinear_arith)
            requires
                n <= 0xFFFF,
                esz <= 0xFFFF,
        ;
    }
    let need = (n as u64) * (esz as u64);
    if off > len as u64 || need > len as u64 - off {
        return Err(DecodeError::OutOfBounds);
    }
    let ord = header.order();
    let sidx = header.e_shstrndx as usize;
    if sidx >= n {
        return Err(DecodeError::BadStringTableIndex);
    }
    proof {
        lemma_mul_inequality(sidx + 1, n as int, esz as int);
        assert((sidx + 1) * (esz as int) == sidx * (esz as int) + esz) by (nonlinear_arith);
    }
    let seoff = (off + (sidx as u64) * (esz as u64)) as usize;
    let stoff = read_u64(buf, seoff + 24, ord);
    let stsz = read_u64(buf, seoff + 32, ord);
    if stoff > len as u64 || stsz > len as u64 - stoff {
        return Err(DecodeError::OutOfBounds);
    }
    let strtab = slice_subrange(buf, stoff as usize, (stoff + stsz) as usize);
    let ghost st: Seq<u8> = strtab@;
    proof {
        assert(spec_build(buf@, header@) == table_models(buf@, header@, st, 0));
    }
    let mut v: Vec<Section> = Vec::new();
    let mut i: usize = 0;
    let mut eoff: u64 = off;
    while i < n
        invariant
            i <= n,
            n == header.e_shnum as int,
            esz == header.e_shentsize as int,
            ELF64_SHDR_SIZE <= esz,
            off == header.e_shoff,
            len == buf@.len(),
            off + n * esz <= len,
            eoff == off + i * esz,
            ord == header@.spec_order(),
            st == strtab@,
            spec_build(buf@, header@) == table_models(buf@, header@, st, 0),
            loop_partial(buf@, header@, st, models_of(v@), i as int),
        decreases n - i,
    {
        proof {
            lemma_mul_inequality(i + 1, n as int, esz as int);
            assert((i + 1) * (esz as int) == i * (esz as int) + esz) by (nonlinear_arith);
        }
        let e = eoff as usize;
        let nameoff = read_u32(buf, e, ord);
        let flags = read_u64(buf, e + 8, ord);
        let addr = read_u64(buf, e + 16, ord);
        let soff = read_u64(buf, e + 24, ord);
        let ssize = read_u64(buf, e + 32, ord);
        let name = match read_name(strtab, nameoff as usize) {
            Ok(nm) => nm,
            Err(err) => {
                proof {
                    assert(entry_model(buf@, header@, st, i as int) == Err::<
                        SectionModel,
                        DecodeError,
                    >(DecodeError::BadStringTableIndex));
                }
                return Err(err);
            },
        };
        if soff > len as u64 || ssize > len as u64 - soff {
            proof {
                assert(entry_model(buf@, header@, st, i as int) == Err::<
                    SectionModel,
                    DecodeError,
                >(DecodeError::OutOfBounds));
            }
            return Err(DecodeError::OutOfBounds);
        }
        let kind = kind_of_flags(flags);
        let sec = Section { name, kind, vma: addr, size: ssize, offset: soff };
        proof {
            assert(entry_model(buf@, header@, st, i as int) == Ok::<SectionModel, DecodeError>(
                sec@,
            ));
            assert(models_of(v@.push(sec)) =~= models_of(v@) + seq![sec@]);
            match table_models(buf@, header@, st, i + 1) {
                Ok(rest) => {
                    assert(table_models(buf@, header@, st, i as int) == Ok::<
                        Seq<SectionModel>,
                        DecodeError,
                    >(seq![sec@] + rest));
                    assert((models_of(v@) + (seq![sec@] + rest)) =~= (models_of(v@) + seq![sec@])
                        + rest);
                },
                Err(_) => {},
            }
        }
        v.push(sec);
        i = i + 1;
        eoff = eoff + esz as u64;
    }
    proof {
        assert(table_models(buf@, header@, st, i as int) == Ok::<Seq<SectionModel>, DecodeError>(
            Seq::empty(),
        ));
        assert(models_of(v@) + Seq::<SectionModel>::empty() =~= models_of(v@));
    }
    Ok(v)
}

} // verus!
