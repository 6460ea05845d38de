//! Expense categories for federal contract cost tracking.
use vstd::prelude::*;
use crate::text::{chars_of, eq_str, to_lowercase, unicode_lower, all_ascii, ascii_lower};

verus! {

/// The valid categories, in order.
pub open spec fn category_list() -> Seq<Seq<char>> {
    seq!["supplies"@, "fuel"@, "labor"@, "equipment"@, "travel"@, "office"@, "other"@]
}

/// Valid expense categories.
pub fn valid_categories() -> (r: Vec<&'static str>)
    ensures
        r@.map_values(|c: &str| c@) == category_list(),
{
    let mut v: Vec<&'static str> = Vec::new();
    v.push("supplies");
    v.push("fuel");
    v.push("labor");
    v.push("equipment");
    v.push("travel");
    v.push("office");
    v.push("other");
    assert(v@.map_values(|c: &str| c@) =~= category_list());
    v
}

/// Whether a lowercase name is a valid category.
pub fn is_valid_category(lower: &str) -> (r: bool)
    ensures
        r == category_list().contains(lower@),
{
    let cats = valid_categories();
    let ghost cv = cats@.map_values(|c: &str| c@);
    let key = chars_of(lower);
    let mut i: usize = 0;
    while i < cats.len()
        invariant
            i <= cats.len(),
            cv == cats@.map_values(|c: &str| c@),
            cv == category_list(),
            key@ == lower@,
            forall|j: int| 0 <= j < i ==> cv[j] != lower@,
        decreases cats.len() - i,
    {
        if eq_str(&key, cats[i]) {
            assert(cv[i as int] == lower@);
            return true;
        }
        i = i + 1;
    }
    assert(!category_list().contains(lower@)) by {
        if category_list().contains(lower@) {
            let j = choose|j: int| 0 <= j < category_list().len() && category_list()[j] == lower@;
            assert(cv[j] == lower@);
        }
    }
    false
}

/// The category stored for a lowercased name: the name when valid, else
/// `other`.
pub open spec fn normalized(lower: Seq<char>) -> Seq<char> {
    if category_list().contains(lower) {
        lower
    } else {
        "other"@
    }
}

/// The category stored for a name given in any case: its lowercase form
/// when valid, else `other`.
pub fn normalize_category(raw: &str) -> (r: String)
    ensures
        r@ == normalized(unicode_lower(raw@)),
        all_ascii(raw@) ==> r@ == normalized(ascii_lower(raw@)),
{
    let lower = to_lowercase(raw);
    if is_valid_category(lower.as_str()) {
        lower
    } else {
        "other".to_owned()
    }
}

/// Every stored category is a valid one.
pub proof fn lemma_normalized_valid(lower: Seq<char>)
    ensures
        category_list().contains(normalized(lower)),
{
    if !category_list().contains(lower) {
        assert(category_list()[6] == "other"@);
    }
}

} // verus!
