use vstd::prelude::*;

use crate::Platform;
use crate::chars_util::{contains_ci, lower_seq, str_contains_ci};
use crate::kind::{
    active_on, all_kinds, all_kinds_vec, is_active, kind_description, kind_description_spec,
    kind_name, kind_name_spec, lemma_all_kinds_complete, lemma_catalog_metadata_nonempty,
    lemma_kind_names_ci_injective, ConfigColumnKind,
};

verus! {

/// One immutable catalog record: a kind with its human-readable metadata.
#[derive(Clone, Debug, PartialEq)]
pub struct CatalogEntry {
    pub kind: ConfigColumnKind,
    pub name: String,
    pub description: String,
}

/// Mathematical shape of a catalog entry.
pub ghost struct CatalogEntryV {
    pub kind: ConfigColumnKind,
    pub name: Seq<char>,
    pub description: Seq<char>,
}

impl View for CatalogEntry {
    type V = CatalogEntryV;

    open spec fn view(&self) -> CatalogEntryV {
        CatalogEntryV { kind: self.kind, name: self.name@, description: self.description@ }
    }
}

/// The kinds of the active catalog of `p` among the first `n` declared
/// kinds, in declaration order.
pub open spec fn catalog_kinds_upto(p: Platform, n: int) -> Seq<ConfigColumnKind>
    decreases n,
{
    if n <= 0 {
        Seq::empty()
    } else if active_on(p, all_kinds()[n - 1]) {
        catalog_kinds_upto(p, n - 1).push(all_kinds()[n - 1])
    } else {
        catalog_kinds_upto(p, n - 1)
    }
}

/// The kinds of the active catalog of `p`, in declaration order.
pub open spec fn catalog_kinds(p: Platform) -> Seq<ConfigColumnKind> {
    catalog_kinds_upto(p, all_kinds().len() as int)
}

/// Builds the active catalog of a platform: one entry per active kind, in
/// declaration order, each carrying the kind's name and description.  The
/// table is meant to be built once at startup and then shared read-only.
pub fn catalog_entries(p: Platform) -> (r: Vec<CatalogEntry>)
    ensures
        r@.len() == catalog_kinds(p).len(),
        forall|i: int|
            0 <= i < r@.len() ==> {
                &&& r@[i].kind == catalog_kinds(p)[i]
                &&& r@[i].name@ == kind_name_spec(catalog_kinds(p)[i])
                &&& r@[i].description@ == kind_description_spec(catalog_kinds(p)[i])
            },
{
    let kinds = all_kinds_vec();
    let mut r: Vec<CatalogEntry> = Vec::new();
    let mut i: usize = 0;
    while i < kinds.len()
        invariant
            kinds@ == all_kinds(),
            0 <= i <= kinds.len(),
            r@.len() == catalog_kinds_upto(p, i as int).len(),
            forall|j: int|
                0 <= j < r@.len() ==> {
                    &&& r@[j].kind == catalog_kinds_upto(p, i as int)[j]
                    &&& r@[j].name@ == kind_name_spec(catalog_kinds_upto(p, i as int)[j])
                    &&& r@[j].description@ == kind_description_spec(
                        catalog_kinds_upto(p, i as int)[j],
                    )
                },
        decreases kinds.len() - i,
    {
        let k = kinds[i];
        if is_active(p, &k) {
            r.push(
                CatalogEntry {
                    kind: k,
                    name: kind_name(&k).to_owned(),
                    description: kind_description(&k).to_owned(),
                },
            );
        }
        i += 1;
    }
    r
}

/// Looks a kind up in the active catalog of `p`: its name and description
/// if the platform supports it, and nothing otherwise.
pub fn lookup_by_kind(p: Platform, kind: &ConfigColumnKind) -> (r: Option<CatalogEntry>)
    ensures
        match r {
            Some(e) => {
                &&& active_on(p, *kind)
                &&& e.kind == *kind
                &&& e.name@ == kind_name_spec(*kind)
                &&& e.description@ == kind_description_spec(*kind)
            },
            None => !active_on(p, *kind),
        },
{
    if is_active(p, kind) {
        Some(
            CatalogEntry {
                kind: *kind,
                name: kind_name(kind).to_owned(),
                description: kind_description(kind).to_owned(),
            },
        )
    } else {
        None
    }
}

/// The first kind, from declaration position `i` on, that is active on `p`
/// and whose name contains `pat` as a case-insensitive substring.
pub open spec fn find_kind_from(p: Platform, pat: Seq<char>, i: int) -> Option<ConfigColumnKind>
    decreases all_kinds().len() - i,
{
    if i < 0 || i >= all_kinds().len() {
        None
    } else if active_on(p, all_kinds()[i]) && contains_ci(kind_name_spec(all_kinds()[i]), pat) {
        Some(all_kinds()[i])
    } else {
        find_kind_from(p, pat, i + 1)
    }
}

/// The first active kind, in declaration order, whose name contains `pat`
/// as a case-insensitive substring.
pub open spec fn find_kind_spec(p: Platform, pat: Seq<char>) -> Option<ConfigColumnKind> {
    find_kind_from(p, pat, 0)
}

/// Case-insensitive substring search over the active catalog's names, in
/// declaration order, so that ties are broken reproducibly.
pub fn find_column_kind(p: Platform, pat: &str) -> (r: Option<ConfigColumnKind>)
    ensures
        r == find_kind_spec(p, pat@),
{
    let kinds = all_kinds_vec();
    let mut i: usize = 0;
    while i < kinds.len()
        invariant
            kinds@ == all_kinds(),
            0 <= i <= kinds.len(),
            find_kind_spec(p, pat@) == find_kind_from(p, pat@, i as int),
        decreases kinds.len() - i,
    {
        let k = kinds[i];
        if is_active(p, &k) && str_contains_ci(kind_name(&k), pat) {
            return Some(k);
        }
        i += 1;
    }
    None
}

/// What a search result means: a hit is an active kind whose name contains
/// the pattern, preceded in declaration order by no other such kind; a miss
/// means no active kind's name contains the pattern.
pub proof fn lemma_find_characterization(p: Platform, pat: Seq<char>)
    ensures
        match find_kind_spec(p, pat) {
            Some(k) => {
                &&& active_on(p, k)
                &&& contains_ci(kind_name_spec(k), pat)
                &&& exists|i: int|
                    0 <= i < all_kinds().len() && all_kinds()[i] == k && (forall|j: int|
                        0 <= j < i ==> !(active_on(p, all_kinds()[j]) && contains_ci(
                            kind_name_spec(all_kinds()[j]),
                            pat,
                        )))
            },
            None => forall|k: ConfigColumnKind|
                active_on(p, k) ==> !contains_ci(kind_name_spec(k), pat),
        },
{
    lemma_find_from_characterization(p, pat, 0);
    if find_kind_spec(p, pat) is None {
        assert forall|k: ConfigColumnKind| active_on(p, k) implies !contains_ci(
            kind_name_spec(k),
            pat,
        ) by {
            lemma_all_kinds_complete(k);
            let j = choose|j: int| 0 <= j < all_kinds().len() && all_kinds()[j] == k;
            assert(!(active_on(p, all_kinds()[j]) && contains_ci(
                kind_name_spec(all_kinds()[j]),
                pat,
            )));
        }
    }
}

proof fn lemma_find_from_characterization(p: Platform, pat: Seq<char>, i: int)
    requires
        0 <= i <= all_kinds().len(),
    ensures
        match find_kind_from(p, pat, i) {
            Some(k) => {
                &&& active_on(p, k)
                &&& contains_ci(kind_name_spec(k), pat)
                &&& exists|m: int|
                    i <= m < all_kinds().len() && all_kinds()[m] == k && (forall|j: int|
                        i <= j < m ==> !(active_on(p, all_kinds()[j]) && contains_ci(
                            kind_name_spec(all_kinds()[j]),
                            pat,
                        )))
            },
            None => forall|j: int|
                i <= j < all_kinds().len() ==> !(active_on(p, all_kinds()[j]) && contains_ci(
                    kind_name_spec(all_kinds()[j]),
                    pat,
                )),
        },
    decreases all_kinds().len() - i,
{
    if i < all_kinds().len() {
        if active_on(p, all_kinds()[i]) && contains_ci(kind_name_spec(all_kinds()[i]), pat) {
        } else {
            lemma_find_from_characterization(p, pat, i + 1);
            if find_kind_from(p, pat, i + 1) is Some {
                let k = find_kind_from(p, pat, i + 1)->Some_0;
                let m = choose|m: int|
                    i + 1 <= m < all_kinds().len() && all_kinds()[m] == k && (forall|j: int|
                        i + 1 <= j < m ==> !(active_on(p, all_kinds()[j]) && contains_ci(
                            kind_name_spec(all_kinds()[j]),
                            pat,
                        )));
                assert(i <= m < all_kinds().len() && all_kinds()[m] == k && (forall|j: int|
                    i <= j < m ==> !(active_on(p, all_kinds()[j]) && contains_ci(
                        kind_name_spec(all_kinds()[j]),
                        pat,
                    ))));
            }
        }
    }
}

/// The search is case-insensitive: two patterns that agree after ASCII
/// lowercase folding find the same kind.
pub proof fn lemma_find_case_insensitive(p: Platform, pat1: Seq<char>, pat2: Seq<char>)
    requires
        lower_seq(pat1) == lower_seq(pat2),
    ensures
        find_kind_spec(p, pat1) == find_kind_spec(p, pat2),
{
    lemma_find_from_case_insensitive(p, pat1, pat2, 0);
}

proof fn lemma_contains_ci_lower(h: Seq<char>, pat1: Seq<char>, pat2: Seq<char>)
    requires
        lower_seq(pat1) == lower_seq(pat2),
    ensures
        contains_ci(h, pat1) == contains_ci(h, pat2),
{
    assert(pat1.len() == pat2.len()) by {
        assert(lower_seq(pat1).len() == pat1.len());
        assert(lower_seq(pat2).len() == pat2.len());
        assert(lower_seq(pat1).len() == lower_seq(pat2).len());
    }
    assert forall|j: int| 0 <= j < pat1.len() implies crate::chars_util::lower_char(pat1[j])
        == crate::chars_util::lower_char(pat2[j]) by {
        assert(lower_seq(pat1)[j] == crate::chars_util::lower_char(pat1[j]));
        assert(lower_seq(pat2)[j] == crate::chars_util::lower_char(pat2[j]));
        assert(lower_seq(pat1)[j] == lower_seq(pat2)[j]);
    }
    assert forall|off: int|
        crate::chars_util::matches_at(h, pat1, off) == crate::chars_util::matches_at(
            h,
            pat2,
            off,
        ) by {
        if crate::chars_util::matches_at(h, pat1, off) {
            assert forall|j: int| 0 <= j < pat2.len() implies crate::chars_util::lower_char(
                h[off + j],
            ) == crate::chars_util::lower_char(pat2[j]) by {
                assert(crate::chars_util::lower_char(h[off + j])
                    == crate::chars_util::lower_char(pat1[j]));
            }
        }
        if crate::chars_util::matches_at(h, pat2, off) {
            assert forall|j: int| 0 <= j < pat1.len() implies crate::chars_util::lower_char(
                h[off + j],
            ) == crate::chars_util::lower_char(pat1[j]) by {
                assert(crate::chars_util::lower_char(h[off + j])
                    == crate::chars_util::lower_char(pat2[j]));
            }
        }
    }
    if contains_ci(h, pat1) {
        let off = choose|off: int|
            0 <= off && off + pat1.len() <= h.len() && crate::chars_util::matches_at(h, pat1, off);
        assert(crate::chars_util::matches_at(h, pat2, off));
    }
    if contains_ci(h, pat2) {
        let off = choose|off: int|
            0 <= off && off + pat2.len() <= h.len() && crate::chars_util::matches_at(h, pat2, off);
        assert(crate::chars_util::matches_at(h, pat1, off));
    }
}

proof fn lemma_find_from_case_insensitive(p: Platform, pat1: Seq<char>, pat2: Seq<char>, i: int)
    requires
        lower_seq(pat1) == lower_seq(pat2),
    ensures
        find_kind_from(p, pat1, i) == find_kind_from(p, pat2, i),
    decreases all_kinds().len() - i,
{
    if 0 <= i < all_kinds().len() {
        lemma_contains_ci_lower(kind_name_spec(all_kinds()[i]), pat1, pat2);
        lemma_find_from_case_insensitive(p, pat1, pat2, i + 1);
    }
}

/// No two kinds of one platform's active catalog share a name, even
/// ignoring ASCII case.
pub proof fn lemma_catalog_names_unique(p: Platform, k1: ConfigColumnKind, k2: ConfigColumnKind)
    requires
        active_on(p, k1),
        active_on(p, k2),
        k1 != k2,
    ensures
        lower_seq(kind_name_spec(k1)) != lower_seq(kind_name_spec(k2)),
{
    if lower_seq(kind_name_spec(k1)) == lower_seq(kind_name_spec(k2)) {
        lemma_kind_names_ci_injective(k1, k2);
    }
}

/// Every kind of a platform's active catalog carries a non-empty name and
/// a non-empty description.
pub proof fn lemma_catalog_entries_nonempty(p: Platform, k: ConfigColumnKind)
    requires
        active_on(p, k),
    ensures
        kind_name_spec(k).len() > 0,
        kind_description_spec(k).len() > 0,
{
    lemma_catalog_metadata_nonempty(k);
}

} // verus!
