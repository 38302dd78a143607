use crate::names::{to_camel, upper_camel_case_of};
use vstd::prelude::*;

verus! {

/// Strict lexicographic order of texts, character by character by code point: the order
/// of `String`'s `Ord`.
pub open spec fn key_less(a: Seq<char>, b: Seq<char>) -> bool
    decreases a.len(),
{
    if a.len() == 0 {
        b.len() > 0
    } else if b.len() == 0 {
        false
    } else if a[0] != b[0] {
        (a[0] as u32) < (b[0] as u32)
    } else {
        key_less(a.drop_first(), b.drop_first())
    }
}

/// `key_less` is transitive.
pub proof fn lemma_key_less_transitive(a: Seq<char>, b: Seq<char>, c: Seq<char>)
    requires
        key_less(a, b),
        key_less(b, c),
    ensures
        key_less(a, c),
    decreases a.len(),
{
    if a.len() > 0 && b.len() > 0 && c.len() > 0 && a[0] == b[0] && b[0] == c[0] {
        lemma_key_less_transitive(a.drop_first(), b.drop_first(), c.drop_first());
    }
}

/// Whether `a` comes strictly before `b` in the order of keys.
pub fn key_lt(a: &str, b: &str) -> (r: bool)
    ensures
        r == key_less(a@, b@),
{
    let n = a.unicode_len();
    let m = b.unicode_len();
    let mut i: usize = 0;
    assert(a@.subrange(0, n as int) =~= a@);
    assert(b@.subrange(0, m as int) =~= b@);
    while i < n && i < m
        invariant
            n == a@.len(),
            m == b@.len(),
            i <= n,
            i <= m,
            key_less(a@, b@) == key_less(a@.subrange(i as int, n as int), b@.subrange(i as int, m as int)),
        decreases n - i,
    {
        let x = a.get_char(i);
        let y = b.get_char(i);
        let ghost sa = a@.subrange(i as int, n as int);
        let ghost sb = b@.subrange(i as int, m as int);
        assert(sa[0] == x && sb[0] == y);
        if x != y {
            return (x as u32) < (y as u32);
        }
        assert(sa.drop_first() =~= a@.subrange(i + 1, n as int));
        assert(sb.drop_first() =~= b@.subrange(i + 1, m as int));
        i = i + 1;
    }
    assert(a@.subrange(i as int, n as int).len() == n - i);
    i == n && i < m
}

/// A closed enumeration of the model: its name and the serialized value of each variant
/// key, in increasing order of keys.
#[derive(Debug, Clone)]
pub struct EnumDef {
    pub name: String,
    pub mappings: Vec<(String, String)>,
}

impl EnumDef {
    /// The mapping is non-empty and its keys are unique and in increasing order.
    pub open spec fn wf(&self) -> bool {
        &&& self.mappings.len() > 0
        &&& forall|i: int, j: int|
            0 <= i < j < self.mappings.len() ==> key_less(
                #[trigger] self.mappings[i].0@,
                #[trigger] self.mappings[j].0@,
            )
    }
}

impl EnumDef {
    /// Whether the mapping is non-empty with its keys in strictly increasing order.
    pub fn is_wf(&self) -> (r: bool)
        ensures
            r == self.wf(),
    {
        let len = self.mappings.len();
        if len == 0 {
            return false;
        }
        let mut k: usize = 1;
        while k < len
            invariant
                len == self.mappings.len(),
                1 <= k <= len,
                forall|i: int, j: int|
                    0 <= i < j < k ==> key_less(
                        #[trigger] self.mappings[i].0@,
                        #[trigger] self.mappings[j].0@,
                    ),
            decreases len - k,
        {
            if !key_lt(self.mappings[k - 1].0.as_str(), self.mappings[k].0.as_str()) {
                assert(!key_less(self.mappings[k - 1].0@, self.mappings[k as int].0@));
                return false;
            }
            assert forall|i: int, j: int|
                0 <= i < j < k + 1 implies key_less(
                #[trigger] self.mappings[i].0@,
                #[trigger] self.mappings[j].0@,
            ) by {
                if j == k && i < k - 1 {
                    lemma_key_less_transitive(
                        self.mappings[i].0@,
                        self.mappings[k - 1].0@,
                        self.mappings[j].0@,
                    );
                }
            }
            k = k + 1;
        }
        true
    }
}

/// One unit variant of a generated enum.
#[derive(Debug, Clone)]
pub struct Variant {
    /// The variant's identifier.
    pub ident: String,
    /// The text it serializes and stringifies to.
    pub value: String,
}

/// A generated enum: its variants in the order of their keys; the first is the default.
#[derive(Debug, Clone)]
pub struct EnumDesc {
    pub name: String,
    pub variants: Vec<Variant>,
}

/// `e` has, in order, one variant per identifier in `idents`, with the value of the
/// mapping entry at the same place.
pub open spec fn variants_from(e: EnumDesc, idents: Seq<Seq<char>>, mappings: Seq<(String, String)>) -> bool {
    &&& e.variants.len() == mappings.len()
    &&& idents.len() == mappings.len()
    &&& forall|i: int|
        0 <= i < mappings.len() ==> {
            &&& (#[trigger] e.variants[i]).ident@ == idents[i]
            &&& e.variants[i].value@ == mappings[i].1@
        }
}

/// The identifiers that the keys of a mapping give: their upper-camel-case forms.
pub open spec fn camel_idents(mappings: Seq<(String, String)>) -> Seq<Seq<char>> {
    Seq::new(mappings.len(), |i: int| upper_camel_case_of(mappings[i].0@))
}

impl EnumDesc {
    /// The variant used when no other value is given: the first.
    pub fn default_variant(&self) -> (r: &Variant)
        requires
            self.variants.len() > 0,
        ensures
            *r == self.variants[0],
    {
        &self.variants[0]
    }

    /// The text that the variant at `index` stringifies to.
    pub fn stringify(&self, index: usize) -> (r: String)
        requires
            index < self.variants.len(),
        ensures
            r@ == self.variants[index as int].value@,
    {
        self.variants[index].value.clone()
    }
}

/// Builds the enum `name` from the identifiers of its variants and its mapping: the
/// variant at each place takes the identifier and the value found there.
pub fn enum_from_idents(name: &str, idents: Vec<String>, mappings: &Vec<(String, String)>) -> (r:
    EnumDesc)
    requires
        idents.len() == mappings.len(),
    ensures
        r.name@ == name@,
        variants_from(r, idents@.map_values(|s: String| s@), mappings@),
{
    let mut variants: Vec<Variant> = Vec::new();
    let mut i: usize = 0;
    while i < mappings.len()
        invariant
            idents.len() == mappings.len(),
            i <= mappings.len(),
            variants.len() == i,
            forall|k: int|
                0 <= k < i ==> {
                    &&& (#[trigger] variants[k]).ident@ == idents[k]@
                    &&& variants[k].value@ == mappings[k].1@
                },
        decreases mappings.len() - i,
    {
        let v = Variant { ident: idents[i].clone(), value: mappings[i].1.clone() };
        variants.push(v);
        i = i + 1;
    }
    EnumDesc { name: name.to_owned(), variants }
}

/// Generates the enum `name`: one variant per mapping entry, in key order, named by the
/// upper-camel-case form of its key and stringifying to the entry's value. The first
/// variant is the default.
pub fn generate_enum(mappings: &Vec<(String, String)>, name: &str) -> (r: EnumDesc)
    ensures
        r.name@ == name@,
        variants_from(r, camel_idents(mappings@), mappings@),
{
    let mut idents: Vec<String> = Vec::new();
    let mut i: usize = 0;
    while i < mappings.len()
        invariant
            i <= mappings.len(),
            idents.len() == i,
            forall|k: int| 0 <= k < i ==> (#[trigger] idents[k])@ == upper_camel_case_of(mappings[k].0@),
        decreases mappings.len() - i,
    {
        let id = to_camel(mappings[i].0.as_str());
        idents.push(id);
        i = i + 1;
    }
    let r = enum_from_idents(name, idents, mappings);
    assert(idents@.map_values(|s: String| s@) =~= camel_idents(mappings@));
    r
}

/// Every variant of a generated enum stringifies to the value of its own mapping entry,
/// and the default variant is named after the smallest key.
pub proof fn lemma_enum_default_and_values(def: EnumDef, e: EnumDesc)
    requires
        def.wf(),
        variants_from(e, camel_idents(def.mappings@), def.mappings@),
    ensures
        e.variants.len() == def.mappings.len(),
        forall|i: int| 0 <= i < e.variants.len() ==> (#[trigger] e.variants[i]).value@ == def.mappings[i].1@,
        forall|j: int| 0 < j < def.mappings.len() ==> key_less(def.mappings[0].0@, #[trigger] def.mappings[j].0@),
        e.variants[0].ident@ == upper_camel_case_of(def.mappings[0].0@),
{
    assert(e.variants[0].ident@ == camel_idents(def.mappings@)[0]);
    assert forall|j: int| 0 < j < def.mappings.len() implies key_less(def.mappings[0].0@, #[trigger] def.mappings[j].0@) by {
        assert(key_less(def.mappings[0].0@, def.mappings[j].0@));
    }
}

} // verus!
