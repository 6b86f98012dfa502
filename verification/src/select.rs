//! Peripheral selection: the first discovered peripheral whose advertised
//! local name contains the substring `Temperature` (case-sensitive) is the
//! sensor. Peripherals lacking a local name are skipped.

use vstd::prelude::*;

verus! {

/// `n` occurs in `h` as a contiguous substring starting at position `i`.
pub open spec fn spec_occurs_at(h: Seq<char>, n: Seq<char>, i: int) -> bool {
    &&& 0 <= i
    &&& i + n.len() <= h.len()
    &&& h.subrange(i, i + n.len()) == n
}

/// `h` contains `n` as a contiguous substring.
pub open spec fn spec_contains(h: Seq<char>, n: Seq<char>) -> bool {
    exists|i: int| spec_occurs_at(h, n, i)
}

/// Whether `needle` occurs in `haystack` exactly at character position `i`.
pub fn matches_at(haystack: &str, needle: &str, i: usize) -> (r: bool)
    requires
        i + needle@.len() <= haystack@.len(),
    ensures
        r == spec_occurs_at(haystack@, needle@, i as int),
{
    let h_len = haystack.unicode_len();
    let n_len = needle.unicode_len();
    let mut j: usize = 0;
    while j < n_len
        invariant
            j <= n_len,
            n_len == needle@.len(),
            h_len == haystack@.len(),
            i + n_len <= h_len,
            forall|t: int| 0 <= t < j ==> haystack@[i + t] == needle@[t],
        decreases n_len - j,
    {
        if haystack.get_char(i + j) != needle.get_char(j) {
            proof {
                let h = haystack@;
                let n = needle@;
                if spec_occurs_at(h, n, i as int) {
                    assert(h.subrange(i as int, i + n.len())[j as int] == n[j as int]);
                }
            }
            return false;
        }
        j += 1;
    }
    proof {
        assert(haystack@.subrange(i as int, i + needle@.len()) =~= needle@);
    }
    true
}

/// Whether `haystack` contains `needle` as a contiguous substring.
pub fn contains_str(haystack: &str, needle: &str) -> (r: bool)
    ensures
        r == spec_contains(haystack@, needle@),
{
    let h_len = haystack.unicode_len();
    let n_len = needle.unicode_len();
    if n_len == 0 {
        proof {
            assert(spec_occurs_at(haystack@, needle@, 0)) by {
                assert(haystack@.subrange(0, 0) =~= needle@);
            }
        }
        return true;
    }
    if n_len > h_len {
        return false;
    }
    let mut i: usize = 0;
    while i <= h_len - n_len
        invariant
            h_len == haystack@.len(),
            n_len == needle@.len(),
            0 < n_len <= h_len,
            i <= h_len - n_len + 1,
            forall|k: int| 0 <= k < i ==> !spec_occurs_at(haystack@, needle@, k),
        decreases h_len - n_len + 1 - i,
    {
        if matches_at(haystack, needle, i) {
            return true;
        }
        i += 1;
    }
    proof {
        assert forall|k: int| !spec_occurs_at(haystack@, needle@, k) by {
            if k + needle@.len() <= haystack@.len() {
                assert(k < h_len - n_len + 1);
            }
        }
    }
    false
}

/// An advertised local name marks the sensor when it contains `Temperature`.
pub open spec fn spec_name_matches(name: Option<String>) -> bool {
    match name {
        Some(s) => spec_contains(s@, "Temperature"@),
        None => false,
    }
}

/// Index of the first discovered peripheral whose advertised local name
/// contains `Temperature`; peripherals without a name are skipped. `None`
/// when no peripheral matches.
pub fn select_peripheral(names: &Vec<Option<String>>) -> (r: Option<usize>)
    ensures
        match r {
            Some(i) => i < names@.len() && spec_name_matches(names@[i as int]) && (forall|j: int|
                0 <= j < i ==> !spec_name_matches(names@[j])),
            None => forall|j: int| 0 <= j < names@.len() ==> !spec_name_matches(names@[j]),
        },
{
    let mut i: usize = 0;
    while i < names.len()
        invariant
            i <= names@.len(),
            forall|j: int| 0 <= j < i ==> !spec_name_matches(names@[j]),
        decreases names@.len() - i,
    {
        match &names[i] {
            Some(s) => {
                if contains_str(s.as_str(), "Temperature") {
                    return Some(i);
                }
            },
            None => {},
        }
        i += 1;
    }
    None
}

} // verus!
