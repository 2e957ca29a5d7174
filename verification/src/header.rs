//! The fixed-size file header of a 64-bit ELF object and its decoder.

use vstd::prelude::*;

use crate::errors::DecodeError;
use crate::words::{read_u16, read_u32, read_u64, word16, word32, word64, ByteOrder};

verus! {

/// Size in bytes of a 64-bit ELF file header.
pub const ELF64_HEADER_SIZE: usize = 64;

/// The decoded file header. Each field holds the exact on-disk value,
/// corrected for the byte order the identification bytes declare.
#[derive(Clone, Copy, Debug)]
pub struct ElfHeader {
    /// Identification bytes: magic, class, data encoding, version, padding.
    pub e_ident: [u8; 16],
    /// Object-file type (relocatable, executable, shared, core).
    pub e_type: u16,
    /// Target machine code.
    pub e_machine: u16,
    /// Object-file format version.
    pub e_version: u32,
    /// Entry-point virtual address.
    pub e_entry: u64,
    /// File offset of the program-header table.
    pub e_phoff: u64,
    /// File offset of the section-header table.
    pub e_shoff: u64,
    /// Processor-specific flag bits.
    pub e_flags: u32,
    /// Size in bytes of this header.
    pub e_ehsize: u16,
    /// Size in bytes of one program-header entry.
    pub e_phentsize: u16,
    /// Number of program-header entries.
    pub e_phnum: u16,
    /// Size in bytes of one section-header entry.
    pub e_shentsize: u16,
    /// Number of section-header entries.
    pub e_shnum: u16,
    /// Index of the section-name string-table section.
    pub e_shstrndx: u16,
}

/// The mathematical value of an `ElfHeader`: the same fields with the
/// identification bytes as a byte sequence.
pub struct HeaderModel {
    /// Identification bytes.
    pub e_ident: Seq<u8>,
    /// Object-file type.
    pub e_type: u16,
    /// Target machine code.
    pub e_machine: u16,
    /// Object-file format version.
    pub e_version: u32,
    /// Entry-point virtual address.
    pub e_entry: u64,
    /// File offset of the program-header table.
    pub e_phoff: u64,
    /// File offset of the section-header table.
    pub e_shoff: u64,
    /// Processor-specific flag bits.
    pub e_flags: u32,
    /// Size in bytes of this header.
    pub e_ehsize: u16,
    /// Size in bytes of one program-header entry.
    pub e_phentsize: u16,
    /// Number of program-header entries.
    pub e_phnum: u16,
    /// Size in bytes of one section-header entry.
    pub e_shentsize: u16,
    /// Number of section-header entries.
    pub e_shnum: u16,
    /// Index of the section-name string-table section.
    pub e_shstrndx: u16,
}

impl View for ElfHeader {
    type V = HeaderModel;

    open spec fn view(&self) -> HeaderModel {
        HeaderModel {
            e_ident: self.e_ident@,
            e_type: self.e_type,
            e_machine: self.e_machine,
            e_version: self.e_version,
            e_entry: self.e_entry,
            e_phoff: self.e_phoff,
            e_shoff: self.e_shoff,
            e_flags: self.e_flags,
            e_ehsize: self.e_ehsize,
            e_phentsize: self.e_phentsize,
            e_phnum: self.e_phnum,
            e_shentsize: self.e_shentsize,
            e_shnum: self.e_shnum,
            e_shstrndx: self.e_shstrndx,
        }
    }
}

/// True when the leading identification bytes carry the ELF signature.
pub open spec fn magic_ok(b: Seq<u8>) -> bool {
    &&& b[0] == 0x7f
    &&& b[1] == 0x45
    &&& b[2] == 0x4c
    &&& b[3] == 0x46
}

/// True when the declared address-width class is the one the decoder
/// handles (class 2, 64-bit).
pub open spec fn class_ok(b: Seq<u8>) -> bool {
    b[4] == 2
}

/// True when the declared data encoding is a recognized byte order
/// (1 little-endian, 2 big-endian).
pub open spec fn encoding_ok(b: Seq<u8>) -> bool {
    b[5] == 1 || b[5] == 2
}

/// True when the declared identification version is the one the decoder
/// handles.
pub open spec fn version_ok(b: Seq<u8>) -> bool {
    b[6] == 1
}

/// The byte order the identification bytes declare (little-endian unless
/// the data-encoding byte says big-endian).
pub open spec fn header_order(b: Seq<u8>) -> ByteOrder {
    if b[5] == 2 {
        ByteOrder::Big
    } else {
        ByteOrder::Little
    }
}

/// True exactly when `parse_elf_header` accepts the buffer.
pub open spec fn decodes(b: Seq<u8>) -> bool {
    &&& b.len() >= ELF64_HEADER_SIZE
    &&& magic_ok(b)
    &&& class_ok(b)
    &&& encoding_ok(b)
    &&& version_ok(b)
}

/// The error a rejected buffer is reported with, checked in this order:
/// the required size first, then the signature, then the address-width
/// class, then the data encoding and identification version.
pub open spec fn spec_header_error(b: Seq<u8>) -> DecodeError {
    if b.len() < ELF64_HEADER_SIZE {
        DecodeError::TooShort
    } else if !magic_ok(b) {
        DecodeError::BadMagic
    } else if !class_ok(b) {
        DecodeError::UnsupportedClass
    } else {
        DecodeError::UnsupportedVersion
    }
}

/// The header value stored in `b`, every multi-byte field read with the
/// byte order `b`'s identification bytes declare.
pub open spec fn spec_parse(b: Seq<u8>) -> HeaderModel {
    let ord = header_order(b);
    HeaderModel {
        e_ident: b.subrange(0, 16),
        e_type: word16(b, 16, ord) as u16,
        e_machine: word16(b, 18, ord) as u16,
        e_version: word32(b, 20, ord) as u32,
        e_entry: word64(b, 24, ord) as u64,
        e_phoff: word64(b, 32, ord) as u64,
        e_shoff: word64(b, 40, ord) as u64,
        e_flags: word32(b, 48, ord) as u32,
        e_ehsize: word16(b, 52, ord) as u16,
        e_phentsize: word16(b, 54, ord) as u16,
        e_phnum: word16(b, 56, ord) as u16,
        e_shentsize: word16(b, 58, ord) as u16,
        e_shnum: word16(b, 60, ord) as u16,
        e_shstrndx: word16(b, 62, ord) as u16,
    }
}

impl HeaderModel {
    /// The byte order this header's identification bytes declare; the
    /// multi-byte fields of every table the header points at use it too.
    pub open spec fn spec_order(self) -> ByteOrder {
        if self.e_ident[5] == 2 {
            ByteOrder::Big
        } else {
            ByteOrder::Little
        }
    }
}

impl ElfHeader {
    /// The byte order this header's identification bytes declare.
    pub fn order(&self) -> (o: ByteOrder)
        ensures
            o == self@.spec_order(),
    {
        if self.e_ident[5] == 2 {
            ByteOrder::Big
        } else {
            ByteOrder::Little
        }
    }

    /// Decodes the fixed-size file header from the front of `buf`.
    ///
    /// A buffer below the required size is rejected with `TooShort`; a
    /// wrong signature with `BadMagic`; an address-width class other than
    /// 64-bit with `UnsupportedClass`; an unrecognized data encoding or
    /// identification version with `UnsupportedVersion`. On success every
    /// field holds the on-disk value, byte-order corrected. Pure: the
    /// result depends on the bytes alone.
    pub fn parse_elf_header(buf: &[u8]) -> (r: Result<ElfHeader, DecodeError>)
        ensures
            r is Ok <==> decodes(buf@),
            r matches Ok(h) ==> h@ == spec_parse(buf@),
            !decodes(buf@) ==> r == Err::<ElfHeader, DecodeError>(spec_header_error(buf@)),
            buf@.len() < ELF64_HEADER_SIZE ==> r == Err::<ElfHeader, DecodeError>(
                DecodeError::TooShort,
            ),
            buf@.len() >= ELF64_HEADER_SIZE && !magic_ok(buf@) ==> r == Err::<
                ElfHeader,
                DecodeError,
            >(DecodeError::BadMagic),
    {
        if buf.len() < ELF64_HEADER_SIZE {
            return Err(DecodeError::TooShort);
        }
        if !(buf[0] == 0x7f && buf[1] == 0x45 && buf[2] == 0x4c && buf[3] == 0x46) {
            return Err(DecodeError::BadMagic);
        }
        if buf[4] != 2 {
            return Err(DecodeError::UnsupportedClass);
        }
        if !(buf[5] == 1 || buf[5] == 2) || buf[6] != 1 {
            return Err(DecodeError::UnsupportedVersion);
        }
        let ord = if buf[5] == 2 {
            ByteOrder::Big
        } else {
            ByteOrder::Little
        };
        let mut e_ident = [0u8; 16];
        let mut i: usize = 0;
        while i < 16
            invariant
                i <= 16,
                buf@.len() >= ELF64_HEADER_SIZE,
                forall|j: int| 0 <= j < i ==> e_ident@[j] == buf@[j],
            decreases 16 - i,
        {
            e_ident[i] = buf[i];
            i = i + 1;
        }
        assert(e_ident@ =~= buf@.subrange(0, 16));
        let h = ElfHeader {
            e_ident,
            e_type: read_u16(buf, 16, ord),
            e_machine: read_u16(buf, 18, ord),
            e_version: read_u32(buf, 20, ord),
            e_entry: read_u64(buf, 24, ord),
            e_phoff: read_u64(buf, 32, ord),
            e_shoff: read_u64(buf, 40, ord),
            e_flags: read_u32(buf, 48, ord),
            e_ehsize: read_u16(buf, 52, ord),
            e_phentsize: read_u16(buf, 54, ord),
            e_phnum: read_u16(buf, 56, ord),
            e_shentsize: read_u16(buf, 58, ord),
            e_shnum: read_u16(buf, 60, ord),
            e_shstrndx: read_u16(buf, 62, ord),
        };
        assert(h@ == spec_parse(buf@));
        Ok(h)
    }
}

} // verus!
