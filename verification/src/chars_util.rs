use vstd::prelude::*;

verus! {

/// ASCII lowercase folding for one character; every other character is
/// left as it is.  Catalog names and document spellings are ASCII, so this
/// folding is what "case-insensitive" means throughout the crate.
pub open spec fn lower_char(c: char) -> char {
    match c {
        'A' => 'a',
        'B' => 'b',
        'C' => 'c',
        'D' => 'd',
        'E' => 'e',
        'F' => 'f',
        'G' => 'g',
        'H' => 'h',
        'I' => 'i',
        'J' => 'j',
        'K' => 'k',
        'L' => 'l',
        'M' => 'm',
        'N' => 'n',
        'O' => 'o',
        'P' => 'p',
        'Q' => 'q',
        'R' => 'r',
        'S' => 's',
        'T' => 't',
        'U' => 'u',
        'V' => 'v',
        'W' => 'w',
        'X' => 'x',
        'Y' => 'y',
        'Z' => 'z',
        _ => c,
    }
}

/// ASCII lowercase folding of a whole character sequence.
pub open spec fn lower_seq(s: Seq<char>) -> Seq<char> {
    Seq::new(s.len(), |i: int| lower_char(s[i]))
}

/// Executable counterpart of `lower_char`.
pub fn to_lower_char(c: char) -> (r: char)
    ensures
        r == lower_char(c),
{
    match c {
        'A' => 'a',
        'B' => 'b',
        'C' => 'c',
        'D' => 'd',
        'E' => 'e',
        'F' => 'f',
        'G' => 'g',
        'H' => 'h',
        'I' => 'i',
        'J' => 'j',
        'K' => 'k',
        'L' => 'l',
        'M' => 'm',
        'N' => 'n',
        'O' => 'o',
        'P' => 'p',
        'Q' => 'q',
        'R' => 'r',
        'S' => 's',
        'T' => 't',
        'U' => 'u',
        'V' => 'v',
        'W' => 'w',
        'X' => 'x',
        'Y' => 'y',
        'Z' => 'z',
        _ => c,
    }
}

/// Character-for-character equality of two string slices.
pub fn str_eq(a: &str, b: &str) -> (r: bool)
    ensures
        r == (a@ == b@),
{
    let alen = a.unicode_len();
    let blen = b.unicode_len();
    if alen != blen {
        return false;
    }
    let mut i: usize = 0;
    while i < alen
        invariant
            alen == a@.len(),
            alen == b@.len(),
            0 <= i <= alen,
            forall|j: int| 0 <= j < i ==> a@[j] == b@[j],
        decreases alen - i,
    {
        if a.get_char(i) != b.get_char(i) {
            return false;
        }
        i += 1;
    }
    proof {
        assert(a@ =~= b@);
    }
    true
}

/// The needle `n` matches the haystack `h` at offset `off`, ignoring ASCII case.
pub open spec fn matches_at(h: Seq<char>, n: Seq<char>, off: int) -> bool {
    forall|j: int| 0 <= j < n.len() ==> lower_char(h[off + j]) == lower_char(n[j])
}

/// `n` occurs somewhere in `h`, ignoring ASCII case.
pub open spec fn contains_ci(h: Seq<char>, n: Seq<char>) -> bool {
    exists|off: int| 0 <= off && off + n.len() <= h.len() && matches_at(h, n, off)
}

fn matches_at_exec(h: &str, n: &str, off: usize, hlen: usize, nlen: usize) -> (r: bool)
    requires
        hlen == h@.len(),
        nlen == n@.len(),
        off + nlen <= hlen,
    ensures
        r == matches_at(h@, n@, off as int),
{
    let mut j: usize = 0;
    while j < nlen
        invariant
            hlen == h@.len(),
            nlen == n@.len(),
            off + nlen <= hlen,
            0 <= j <= nlen,
            forall|t: int| 0 <= t < j ==> lower_char(h@[off + t]) == lower_char(n@[t]),
        decreases nlen - j,
    {
        let hc = h.get_char(off + j);
        let nc = n.get_char(j);
        if to_lower_char(hc) != to_lower_char(nc) {
            return false;
        }
        j += 1;
    }
    true
}

/// Case-insensitive substring test on string slices.
pub fn str_contains_ci(h: &str, n: &str) -> (r: bool)
    ensures
        r == contains_ci(h@, n@),
{
    let hlen = h.unicode_len();
    let nlen = n.unicode_len();
    if nlen > hlen {
        return false;
    }
    let mut off: usize = 0;
    while off <= hlen - nlen
        invariant
            hlen == h@.len(),
            nlen == n@.len(),
            nlen <= hlen,
            0 <= off <= hlen - nlen + 1,
            forall|o: int| 0 <= o < off ==> !matches_at(h@, n@, o),
        decreases hlen - nlen - off + 1,
    {
        if matches_at_exec(h, n, off, hlen, nlen) {
            return true;
        }
        off += 1;
    }
    false
}

} // verus!
