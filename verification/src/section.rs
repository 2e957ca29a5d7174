//! One region of the file mapped (or not) into the execution address space.

use vstd::prelude::*;
use vstd::slice::slice_index_get;

use crate::names::str_eq;

verus! {

/// How a section's contents are used, derived from its allocation and
/// execution flags.
#[derive(Clone, Copy, Debug, PartialEq, Eq, Structural)]
pub enum SectionType {
    /// Neither code nor allocated data.
    SecTypeNone,
    /// Allocated and executable.
    SecTypeCode,
    /// Allocated and not executable.
    SecTypeData,
}

/// One section of a binary. The backing bytes are modelled as the file
/// range `[offset, offset + size)` into the owning `Binary`'s buffer, so a
/// section never carries (or outlives) a pointer of its own.
#[derive(Debug)]
pub struct Section {
    /// The section's name, resolved through the section-name string table.
    pub name: String,
    /// How the section's contents are used.
    pub kind: SectionType,
    /// Starting virtual address.
    pub vma: u64,
    /// Size in bytes.
    pub size: u64,
    /// File offset of the section's backing bytes.
    pub offset: u64,
}

/// The mathematical value of a `Section`: the same fields with the name as
/// a character sequence.
pub struct SectionModel {
    /// The section's name.
    pub name: Seq<char>,
    /// How the section's contents are used.
    pub kind: SectionType,
    /// Starting virtual address.
    pub vma: u64,
    /// Size in bytes.
    pub size: u64,
    /// File offset of the section's backing bytes.
    pub offset: u64,
}

impl View for Section {
    type V = SectionModel;

    open spec fn view(&self) -> SectionModel {
        SectionModel {
            name: self.name@,
            kind: self.kind,
            vma: self.vma,
            size: self.size,
            offset: self.offset,
        }
    }
}

impl SectionModel {
    /// True when `addr` lies in the half-open range
    /// `[vma, vma + size)` of this section.
    pub open spec fn spec_contains(self, addr: u64) -> bool {
        self.vma <= addr && addr - self.vma < self.size
    }
}

impl Section {
    /// Membership of `addr` in the section's half-open virtual-address
    /// range. The comparison against `vma` comes first, so the subtraction
    /// can never wrap below zero.
    pub fn contains(section: &Self, addr: u64) -> (r: bool)
        ensures
            r == section@.spec_contains(addr),
    {
        (addr >= section.vma) && (addr - section.vma < section.size)
    }
}

/// A section's own start address always lies in its range, as long as the
/// section is not empty.
pub proof fn lemma_contains_start(s: SectionModel)
    requires
        s.size > 0,
    ensures
        s.spec_contains(s.vma),
{
}

/// The address one past a section's range never lies in it: the range is
/// half-open. (Stated for end addresses that fit in an address word.)
pub proof fn lemma_contains_end_excluded(s: SectionModel)
    requires
        s.vma + s.size <= u64::MAX,
    ensures
        !s.spec_contains((s.vma + s.size) as u64),
{
}

/// The index of the first section at or after `i` whose name is `nm`, or
/// `None` when no section from `i` on carries that name. The scan covers
/// the whole remaining table: a mismatch never cuts it short.
pub open spec fn find_named(ss: Seq<SectionModel>, nm: Seq<char>, i: int) -> Option<int>
    decreases ss.len() - i,
{
    if i < 0 || i >= ss.len() {
        None
    } else if ss[i].name == nm {
        Some(i)
    } else {
        find_named(ss, nm, i + 1)
    }
}

/// The models of the sections in `v`, in order.
pub open spec fn models_of(v: Seq<Section>) -> Seq<SectionModel> {
    v.map_values(|s: Section| s@)
}

/// A `find_named` answer of `None` means exactly that no section from `i`
/// on carries the name; an answer of `Some(k)` points at the first carrier.
pub proof fn lemma_find_named(ss: Seq<SectionModel>, nm: Seq<char>, i: int)
    requires
        0 <= i <= ss.len(),
    ensures
        find_named(ss, nm, i) is None <==> forall|j: int| i <= j < ss.len() ==> ss[j].name != nm,
        find_named(ss, nm, i) matches Some(k) ==> i <= k < ss.len() && ss[k].name == nm && forall|
            j: int,
        | i <= j < k ==> ss[j].name != nm,
    decreases ss.len() - i,
{
    if i < ss.len() && ss[i].name != nm {
        lemma_find_named(ss, nm, i + 1);
    }
}

/// Finds the first section in `sections` named `nm`, scanning the whole
/// slice in order.
pub fn scan_for_name(sections: &[Section], nm: &str) -> (r: Option<usize>)
    ensures
        match r {
            Some(i) => i < sections@.len() && find_named(models_of(sections@), nm@, 0) == Some(
                i as int,
            ),
            None => find_named(models_of(sections@), nm@, 0) is None,
        },
{
    let n = sections.len();
    let mut i: usize = 0;
    while i < n
        invariant
            i <= n,
            n == sections@.len(),
            find_named(models_of(sections@), nm@, 0) == find_named(
                models_of(sections@),
                nm@,
                i as int,
            ),
        decreases n - i,
    {
        let sec = slice_index_get(sections, i);
        if str_eq(sec.name.as_str(), nm) {
            proof {
                assert(models_of(sections@)[i as int] == sections@[i as int]@);
            }
            return Some(i);
        }
        proof {
            assert(models_of(sections@)[i as int] == sections@[i as int]@);
            assert(find_named(models_of(sections@), nm@, i as int) == find_named(
                models_of(sections@),
                nm@,
                i + 1,
            ));
        }
        i = i + 1;
    }
    None
}

/// The index of the first section at or after `i` whose address range
/// contains `addr`, or `None` when no section from `i` on does. Under
/// malformed, overlapping input the first section in declared order wins:
/// a documented tie-break, not an error.
pub open spec fn first_containing(ss: Seq<SectionModel>, addr: u64, i: int) -> Option<int>
    decreases ss.len() - i,
{
    if i < 0 || i >= ss.len() {
        None
    } else if ss[i].spec_contains(addr) {
        Some(i)
    } else {
        first_containing(ss, addr, i + 1)
    }
}

/// A `first_containing` answer of `None` means exactly that `addr` lies in
/// no section from `i` on; an answer of `Some(k)` points at the first
/// section whose range holds it.
pub proof fn lemma_first_containing(ss: Seq<SectionModel>, addr: u64, i: int)
    requires
        0 <= i <= ss.len(),
    ensures
        first_containing(ss, addr, i) is None <==> forall|j: int| i <= j < ss.len()
            ==> !(#[trigger] ss[j]).spec_contains(addr),
        first_containing(ss, addr, i) matches Some(k) ==> i <= k < ss.len()
            && ss[k].spec_contains(addr) && forall|j: int| i <= j < k ==> !(#[trigger] ss[j]).spec_contains(
            addr,
        ),
    decreases ss.len() - i,
{
    if i < ss.len() && !ss[i].spec_contains(addr) {
        lemma_first_containing(ss, addr, i + 1);
    }
}

/// True when no address lies in the ranges of two distinct sections.
pub open spec fn ranges_disjoint(ss: Seq<SectionModel>) -> bool {
    forall|i: int, j: int, a: u64|
        0 <= i < j < ss.len() ==> !((#[trigger] ss[i].spec_contains(a)) && (#[trigger] ss[j].spec_contains(
            a,
        )))
}

/// Over non-overlapping sections, a section holding `addr` is the one the
/// scan in declared order finds: the owning section is unique.
pub proof fn lemma_containing_unique(ss: Seq<SectionModel>, addr: u64, k: int)
    requires
        ranges_disjoint(ss),
        0 <= k < ss.len(),
        ss[k].spec_contains(addr),
    ensures
        first_containing(ss, addr, 0) == Some(k),
{
    lemma_first_containing(ss, addr, 0);
    match first_containing(ss, addr, 0) {
        None => {
            assert(!ss[k].spec_contains(addr));
        },
        Some(m) => {
            if m < k {
                assert(!(ss[m].spec_contains(addr) && ss[k].spec_contains(addr)));
            } else if m > k {
                assert(!ss[k].spec_contains(addr));
            }
        },
    }
}

/// Finds the first section in `sections` whose address range contains
/// `addr`, scanning the whole slice in order.
pub fn scan_for_addr(sections: &[Section], addr: u64) -> (r: Option<usize>)
    ensures
        match r {
            Some(i) => i < sections@.len() && first_containing(models_of(sections@), addr, 0)
                == Some(i as int),
            None => first_containing(models_of(sections@), addr, 0) is None,
        },
{
    let n = sections.len();
    let mut i: usize = 0;
    while i < n
        invariant
            i <= n,
            n == sections@.len(),
            first_containing(models_of(sections@), addr, 0) == first_containing(
                models_of(sections@),
                addr,
                i as int,
            ),
        decreases n - i,
    {
        let sec = slice_index_get(sections, i);
        if Section::contains(sec, addr) {
            proof {
                assert(models_of(sections@)[i as int] == sections@[i as int]@);
            }
            return Some(i);
        }
        proof {
            assert(models_of(sections@)[i as int] == sections@[i as int]@);
            assert(first_containing(models_of(sections@), addr, i as int) == first_containing(
                models_of(sections@),
                addr,
                i + 1,
            ));
        }
        i = i + 1;
    }
    None
}

/// The section kind declared by the allocation (bit 1) and execution
/// (bit 2) flags: executable and allocated is code, allocated alone is
/// data, anything else is neither.
pub open spec fn spec_kind_of_flags(flags: u64) -> SectionType {
    if flags & 0x4 != 0 && flags & 0x2 != 0 {
        SectionType::SecTypeCode
    } else if flags & 0x2 != 0 {
        SectionType::SecTypeData
    } else {
        SectionType::SecTypeNone
    }
}

/// Classifies a section from its flag bits.
pub fn kind_of_flags(flags: u64) -> (k: SectionType)
    ensures
        k == spec_kind_of_flags(flags),
{
    if flags & 0x4 != 0 && flags & 0x2 != 0 {
        SectionType::SecTypeCode
    } else if flags & 0x2 != 0 {
        SectionType::SecTypeData
    } else {
        SectionType::SecTypeNone
    }
}

} // verus!
