//! NUL-terminated names read out of a string-table region, and string
//! comparison helpers for the name-based lookups.

use vstd::prelude::*;
use vstd::string::StrSliceExecFns;

use crate::errors::DecodeError;

verus! {

/// The index of the first NUL byte of `t` at or after `j`, or `t.len()`
/// when there is none (or `j` lies outside `t`).
pub open spec fn name_end(t: Seq<u8>, j: int) -> int
    decreases t.len() - j,
{
    if j < 0 || j >= t.len() {
        t.len() as int
    } else if t[j] == 0 {
        j
    } else {
        name_end(t, j + 1)
    }
}

/// True when `j` starts a NUL-terminated name inside `t`: the scan from `j`
/// meets a NUL byte before running off the end of the table.
pub open spec fn valid_name(t: Seq<u8>, j: int) -> bool {
    0 <= j <= t.len() && name_end(t, j) < t.len()
}

/// The characters of the name starting at `j` in `t`: the bytes up to but
/// not including the terminating NUL, each read as one character.
pub open spec fn name_chars(t: Seq<u8>, j: int) -> Seq<char> {
    t.subrange(j, name_end(t, j)).map_values(|b: u8| b as char)
}

/// Relies on std's `String::push`: appends exactly the given character.
#[verifier::external_body]
fn push_char(s: &mut String, c: char)
    ensures
        final(s)@ == old(s)@.push(c),
{
    s.push(c)
}

/// Reads the NUL-terminated name starting at `start` in the string table
/// `strtab`. A name whose start lies outside the table, or that meets no
/// NUL byte before the table ends, is a bad name reference.
pub fn read_name(strtab: &[u8], start: usize) -> (r: Result<String, DecodeError>)
    ensures
        match r {
            Ok(s) => valid_name(strtab@, start as int) && s@ == name_chars(strtab@, start as int),
            Err(e) => !valid_name(strtab@, start as int) && e == DecodeError::BadStringTableIndex,
        },
{
    let n = strtab.len();
    if start >= n {
        proof {
            if start as int <= strtab@.len() {
                assert(name_end(strtab@, start as int) == strtab@.len());
            }
        }
        return Err(DecodeError::BadStringTableIndex);
    }
    let mut k = start;
    let mut s = String::new();
    while k < n
        invariant
            start <= k <= n,
            n == strtab@.len(),
            forall|m: int| start <= m < k ==> strtab@[m] != 0,
            name_end(strtab@, start as int) == name_end(strtab@, k as int),
            s@ == strtab@.subrange(start as int, k as int).map_values(|b: u8| b as char),
        decreases n - k,
    {
        let b = strtab[k];
        if b == 0 {
            proof {
                assert(name_end(strtab@, k as int) == k);
            }
            return Ok(s);
        }
        push_char(&mut s, b as char);
        proof {
            assert(name_end(strtab@, k as int) == name_end(strtab@, k + 1));
            assert(s@ =~= strtab@.subrange(start as int, k + 1).map_values(|b: u8| b as char));
        }
        k = k + 1;
    }
    proof {
        assert(name_end(strtab@, k as int) == strtab@.len());
    }
    Err(DecodeError::BadStringTableIndex)
}

/// Character-for-character string equality, stated over the views.
pub fn str_eq(a: &str, b: &str) -> (r: bool)
    ensures
        r == (a@ == b@),
{
    let la = a.unicode_len();
    let lb = b.unicode_len();
    if la != lb {
        return false;
    }
    let mut i: usize = 0;
    while i < la
        invariant
            i <= la,
            la == a@.len(),
            la == b@.len(),
            forall|j: int| 0 <= j < i ==> a@[j] == b@[j],
        decreases la - i,
    {
        if a.get_char(i) != b.get_char(i) {
            return false;
        }
        i = i + 1;
    }
    proof {
        assert(a@ =~= b@);
    }
    true
}

} // verus!
