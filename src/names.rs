use convert_case::{Case, Casing};
use vstd::prelude::*;

verus! {

/// The snake-case form of a text, as the case-conversion library computes it.
pub uninterp spec fn snake_case_of(s: Seq<char>) -> Seq<char>;

/// The upper-camel-case form of a text, as the case-conversion library computes it.
pub uninterp spec fn upper_camel_case_of(s: Seq<char>) -> Seq<char>;

/// The words that may not name a generated object or enum (compared case-sensitively).
pub open spec fn reserved_word(s: Seq<char>) -> bool {
    s == "type"@ || s == "struct"@ || s == "enum"@ || s == "use"@ || s == "crate"@
        || s == "mod"@ || s == "fn"@ || s == "impl"@ || s == "trait"@
}

/// Character-by-character equality of two texts.
pub fn str_eq(a: &str, b: &str) -> (r: bool)
    ensures
        r == (a@ == b@),
{
    let n = a.unicode_len();
    let m = b.unicode_len();
    if n != m {
        return false;
    }
    let mut i: usize = 0;
    while i < n
        invariant
            n == a@.len(),
            m == b@.len(),
            n == m,
            i <= n,
            forall|k: int| 0 <= k < i ==> a@[k] == b@[k],
        decreases n - i,
    {
        if a.get_char(i) != b.get_char(i) {
            return false;
        }
        i = i + 1;
    }
    assert(a@ =~= b@);
    true
}

/// Whether `name` is one of the reserved words, so that it cannot name a generated
/// object or enum.
pub fn is_reserved(name: &str) -> (r: bool)
    ensures
        r == reserved_word(name@),
{
    str_eq(name, "type") || str_eq(name, "struct") || str_eq(name, "enum") || str_eq(name, "use")
        || str_eq(name, "crate") || str_eq(name, "mod") || str_eq(name, "fn") || str_eq(
        name,
        "impl",
    ) || str_eq(name, "trait")
}

/// Relies on convert_case's `Casing::to_case` with `Case::Snake`: the result depends on
/// the text alone.
#[verifier::external_body]
pub(crate) fn to_snake(name: &str) -> (r: String)
    ensures
        r@ == snake_case_of(name@),
{
    name.to_case(Case::Snake)
}

/// Relies on convert_case's `Casing::to_case` with `Case::UpperCamel`: the result depends
/// on the text alone.
#[verifier::external_body]
pub(crate) fn to_camel(name: &str) -> (r: String)
    ensures
        r@ == upper_camel_case_of(name@),
{
    name.to_case(Case::UpperCamel)
}

} // verus!
