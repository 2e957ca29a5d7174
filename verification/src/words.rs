//! Multi-byte words read from a byte buffer with an explicit byte order.
//!
//! The container format stores every multi-byte field with a declared byte
//! order, so each reader takes the order as a parameter. The spec functions
//! state the value of a word directly as a weighted sum of its bytes.

use vstd::prelude::*;

verus! {

/// The byte order a multi-byte field is stored with.
#[derive(Clone, Copy, Debug, PartialEq, Eq, Structural)]
pub enum ByteOrder {
    /// Least significant byte first.
    Little,
    /// Most significant byte first.
    Big,
}

/// The value of the 16-bit word stored at `off` in `b` with byte order `o`.
pub open spec fn word16(b: Seq<u8>, off: int, o: ByteOrder) -> int {
    match o {
        ByteOrder::Little => b[off] + 0x100 * b[off + 1],
        ByteOrder::Big => b[off + 1] + 0x100 * b[off],
    }
}

/// The value of the 32-bit word stored at `off` in `b` with byte order `o`.
pub open spec fn word32(b: Seq<u8>, off: int, o: ByteOrder) -> int {
    match o {
        ByteOrder::Little => b[off] + 0x100 * b[off + 1] + 0x1_0000 * b[off + 2] + 0x100_0000 * b[
            off + 3
        ],
        ByteOrder::Big => b[off + 3] + 0x100 * b[off + 2] + 0x1_0000 * b[off + 1] + 0x100_0000 * b[
            off
        ],
    }
}

/// The value of the 64-bit word stored at `off` in `b` with byte order `o`.
pub open spec fn word64(b: Seq<u8>, off: int, o: ByteOrder) -> int {
    match o {
        ByteOrder::Little => b[off] + 0x100 * b[off + 1] + 0x1_0000 * b[off + 2] + 0x100_0000 * b[
            off + 3
        ] + 0x1_0000_0000 * b[off + 4] + 0x100_0000_0000 * b[off + 5] + 0x1_0000_0000_0000 * b[off
            + 6] + 0x100_0000_0000_0000 * b[off + 7],
        ByteOrder::Big => b[off + 7] + 0x100 * b[off + 6] + 0x1_0000 * b[off + 5] + 0x100_0000 * b[
            off + 4
        ] + 0x1_0000_0000 * b[off + 3] + 0x100_0000_0000 * b[off + 2] + 0x1_0000_0000_0000 * b[off
            + 1] + 0x100_0000_0000_0000 * b[off],
    }
}

/// Reads the 16-bit word at `off` with byte order `o`.
pub fn read_u16(buf: &[u8], off: usize, o: ByteOrder) -> (r: u16)
    requires
        off + 2 <= buf@.len(),
    ensures
        r == word16(buf@, off as int, o),
{
    // Binding the length tells the verifier the index sums fit in usize.
    let n = buf.len();
    assert(off + 2 <= n);
    let (lo, hi) = match o {
        ByteOrder::Little => (buf[off], buf[off + 1]),
        ByteOrder::Big => (buf[off + 1], buf[off]),
    };
    lo as u16 + 0x100 * hi as u16
}

/// Reads the 32-bit word at `off` with byte order `o`.
pub fn read_u32(buf: &[u8], off: usize, o: ByteOrder) -> (r: u32)
    requires
        off + 4 <= buf@.len(),
    ensures
        r == word32(buf@, off as int, o),
{
    // Binding the length tells the verifier the index sums fit in usize.
    let n = buf.len();
    assert(off + 4 <= n);
    let (b0, b1, b2, b3) = match o {
        ByteOrder::Little => (buf[off], buf[off + 1], buf[off + 2], buf[off + 3]),
        ByteOrder::Big => (buf[off + 3], buf[off + 2], buf[off + 1], buf[off]),
    };
    b0 as u32 + 0x100 * b1 as u32 + 0x1_0000 * b2 as u32 + 0x100_0000 * b3 as u32
}

/// Reads the 64-bit word at `off` with byte order `o`.
pub fn read_u64(buf: &[u8], off: usize, o: ByteOrder) -> (r: u64)
    requires
        off + 8 <= buf@.len(),
    ensures
        r == word64(buf@, off as int, o),
{
    // Binding the length tells the verifier the index sums fit in usize.
    let n = buf.len();
    assert(off + 8 <= n);
    let (b0, b1, b2, b3, b4, b5, b6, b7) = match o {
        ByteOrder::Little => (
            buf[off],
            buf[off + 1],
            buf[off + 2],
            buf[off + 3],
            buf[off + 4],
            buf[off + 5],
            buf[off + 6],
            buf[off + 7],
        ),
        ByteOrder::Big => (
            buf[off + 7],
            buf[off + 6],
            buf[off + 5],
            buf[off + 4],
            buf[off + 3],
            buf[off + 2],
            buf[off + 1],
            buf[off],
        ),
    };
    b0 as u64 + 0x100 * b1 as u64 + 0x1_0000 * b2 as u64 + 0x100_0000 * b3 as u64 + 0x1_0000_0000
        * b4 as u64 + 0x100_0000_0000 * b5 as u64 + 0x1_0000_0000_0000 * b6 as u64
        + 0x100_0000_0000_0000 * b7 as u64
}

} // verus!
