//! The schema model and naming resolver: the normalized description of one
//! record definition — name, ordered fields, nested flags — and the
//! deterministic, collision-free mapping from the base record name to the
//! names of every generated type of its family.

use vstd::prelude::*;
use vstd::string::StringExecFns;

verus! {

/// The generated types of one family: the owning container, the two views,
/// the two proxies, the two handles, and the two iterators.
#[derive(Clone, Copy, PartialEq, Eq, Structural, Debug)]
pub enum GeneratedKind {
    Owning,
    Slice,
    SliceMut,
    Ref,
    RefMut,
    Ptr,
    PtrMut,
    Iter,
    IterMut,
}

/// The fixed suffix appended to the base record name for each generated
/// type.
pub open spec fn suffix(k: GeneratedKind) -> Seq<char> {
    match k {
        GeneratedKind::Owning => "Vec"@,
        GeneratedKind::Slice => "Slice"@,
        GeneratedKind::SliceMut => "SliceMut"@,
        GeneratedKind::Ref => "Ref"@,
        GeneratedKind::RefMut => "RefMut"@,
        GeneratedKind::Ptr => "Ptr"@,
        GeneratedKind::PtrMut => "PtrMut"@,
        GeneratedKind::Iter => "Iter"@,
        GeneratedKind::IterMut => "IterMut"@,
    }
}

/// The suffix for one generated kind, as a string slice.
pub fn suffix_str(k: GeneratedKind) -> (r: &'static str)
    ensures
        r@ == suffix(k),
{
    match k {
        GeneratedKind::Owning => "Vec",
        GeneratedKind::Slice => "Slice",
        GeneratedKind::SliceMut => "SliceMut",
        GeneratedKind::Ref => "Ref",
        GeneratedKind::RefMut => "RefMut",
        GeneratedKind::Ptr => "Ptr",
        GeneratedKind::PtrMut => "PtrMut",
        GeneratedKind::Iter => "Iter",
        GeneratedKind::IterMut => "IterMut",
    }
}

/// The name of one generated type: the base record name with the kind's
/// suffix appended.
pub fn resolve_name(base: &str, k: GeneratedKind) -> (r: String)
    ensures
        r@ == base@ + suffix(k),
{
    let mut s = base.to_owned();
    s.append(suffix_str(k));
    s
}

/// Each suffix's length and first character: together they identify the
/// kind, which is what makes the naming scheme collision-free.
pub proof fn lemma_suffix_facts(k: GeneratedKind)
    ensures
        suffix(k).len() == (match k {
            GeneratedKind::Owning => 3int,
            GeneratedKind::Slice => 5int,
            GeneratedKind::SliceMut => 8int,
            GeneratedKind::Ref => 3int,
            GeneratedKind::RefMut => 6int,
            GeneratedKind::Ptr => 3int,
            GeneratedKind::PtrMut => 6int,
            GeneratedKind::Iter => 4int,
            GeneratedKind::IterMut => 7int,
        }),
        suffix(k)[0] == (match k {
            GeneratedKind::Owning => 'V',
            GeneratedKind::Slice => 'S',
            GeneratedKind::SliceMut => 'S',
            GeneratedKind::Ref => 'R',
            GeneratedKind::RefMut => 'R',
            GeneratedKind::Ptr => 'P',
            GeneratedKind::PtrMut => 'P',
            GeneratedKind::Iter => 'I',
            GeneratedKind::IterMut => 'I',
        }),
{
    reveal_strlit("Vec");
    reveal_strlit("Slice");
    reveal_strlit("SliceMut");
    reveal_strlit("Ref");
    reveal_strlit("RefMut");
    reveal_strlit("Ptr");
    reveal_strlit("PtrMut");
    reveal_strlit("Iter");
    reveal_strlit("IterMut");
    match k {
        GeneratedKind::Owning => {
            assert("Vec"@.len() == 3 && "Vec"@[0] == 'V');
        },
        GeneratedKind::Slice => {
            assert("Slice"@.len() == 5 && "Slice"@[0] == 'S');
        },
        GeneratedKind::SliceMut => {
            assert("SliceMut"@.len() == 8 && "SliceMut"@[0] == 'S');
        },
        GeneratedKind::Ref => {
            assert("Ref"@.len() == 3 && "Ref"@[0] == 'R');
        },
        GeneratedKind::RefMut => {
            assert("RefMut"@.len() == 6 && "RefMut"@[0] == 'R');
        },
        GeneratedKind::Ptr => {
            assert("Ptr"@.len() == 3 && "Ptr"@[0] == 'P');
        },
        GeneratedKind::PtrMut => {
            assert("PtrMut"@.len() == 6 && "PtrMut"@[0] == 'P');
        },
        GeneratedKind::Iter => {
            assert("Iter"@.len() == 4 && "Iter"@[0] == 'I');
        },
        GeneratedKind::IterMut => {
            assert("IterMut"@.len() == 7 && "IterMut"@[0] == 'I');
        },
    }
}

/// No two generated kinds share a suffix.
pub proof fn lemma_suffixes_distinct(k1: GeneratedKind, k2: GeneratedKind)
    requires
        k1 != k2,
    ensures
        suffix(k1) != suffix(k2),
{
    lemma_suffix_facts(k1);
    lemma_suffix_facts(k2);
    if suffix(k1) == suffix(k2) {
        assert(suffix(k1).len() == suffix(k2).len());
        assert(suffix(k1)[0] == suffix(k2)[0]);
        assert(false);
    }
}

/// The naming scheme is injective across the generated kinds: for any base
/// name, two different kinds resolve to two different type names.
pub proof fn lemma_names_injective(base: Seq<char>, k1: GeneratedKind, k2: GeneratedKind)
    requires
        k1 != k2,
    ensures
        base + suffix(k1) != base + suffix(k2),
{
    lemma_suffixes_distinct(k1, k2);
    if base + suffix(k1) == base + suffix(k2) {
        assert((base + suffix(k1)).len() == base.len() + suffix(k1).len());
        assert((base + suffix(k2)).len() == base.len() + suffix(k2).len());
        assert(suffix(k1).len() == suffix(k2).len());
        assert forall|i: int| 0 <= i < suffix(k1).len() implies suffix(k1)[i] == suffix(
            k2,
        )[i] by {
            assert((base + suffix(k1))[base.len() + i] == suffix(k1)[i]);
            assert((base + suffix(k2))[base.len() + i] == suffix(k2)[i]);
        }
        assert(suffix(k1) =~= suffix(k2));
    }
}

/// One annotation to attach verbatim to one generated type's declaration:
/// configuration keyed by the generated-variant identifier, carried through
/// opaquely and never interpreted.
pub struct VariantAttr {
    pub kind: GeneratedKind,
    pub attr: String,
}

/// One field of a record definition: its name and whether its type is
/// itself a record stored through a nested family.
pub struct FieldDef {
    pub name: String,
    pub nested: bool,
}

/// The normalized description of one record definition: its name and its
/// ordered field list. Field order is significant and fixed across all
/// generated variants.
pub struct RecordSchema {
    pub name: String,
    pub fields: Vec<FieldDef>,
    pub attrs: Vec<VariantAttr>,
}

impl RecordSchema {
    /// The schema invariant: field names are unique.
    pub open spec fn wf(&self) -> bool {
        forall|i: int, j: int|
            0 <= i < j < self.fields@.len() ==> self.fields@[i].name@ != self.fields@[j].name@
    }

    /// Builds a schema, rejecting a field list in which two fields share a
    /// name.
    pub fn new(name: String, fields: Vec<FieldDef>) -> (r: Option<RecordSchema>)
        ensures
            r is Some <==> (forall|i: int, j: int|
                0 <= i < j < fields@.len() ==> fields@[i].name@ != fields@[j].name@),
            r matches Some(s) ==> s.wf() && s.name == name && s.fields@ == fields@ && s.attrs@
                =~= Seq::<VariantAttr>::empty(),
    {
        let n = fields.len();
        let mut i: usize = 0;
        while i < n
            invariant
                i <= n,
                n == fields@.len(),
                forall|a: int, b: int| 0 <= a < b < i ==> fields@[a].name@ != fields@[b].name@,
            decreases n - i,
        {
            let mut j: usize = 0;
            while j < i
                invariant
                    j <= i < n,
                    n == fields@.len(),
                    forall|b: int| 0 <= b < j ==> fields@[b].name@ != fields@[i as int].name@,
                decreases i - j,
            {
                if fields[j].name == fields[i].name {
                    return None;
                }
                j = j + 1;
            }
            i = i + 1;
        }
        Some(RecordSchema { name, fields, attrs: Vec::new() })
    }

    /// Records one more annotation to attach to one generated type,
    /// uninterpreted.
    pub fn push_attr(&mut self, a: VariantAttr)
        ensures
            final(self).name == old(self).name,
            final(self).fields == old(self).fields,
            final(self).wf() == old(self).wf(),
            final(self).attrs@ == old(self).attrs@.push(a),
    {
        self.attrs.push(a);
    }

    /// Resolves the names of all nine generated types of this schema's
    /// family, in a fixed order of kinds.
    pub fn family_names(&self) -> (r: Vec<String>)
        ensures
            r@.len() == 9,
            r@[0]@ == self.name@ + suffix(GeneratedKind::Owning),
            r@[1]@ == self.name@ + suffix(GeneratedKind::Slice),
            r@[2]@ == self.name@ + suffix(GeneratedKind::SliceMut),
            r@[3]@ == self.name@ + suffix(GeneratedKind::Ref),
            r@[4]@ == self.name@ + suffix(GeneratedKind::RefMut),
            r@[5]@ == self.name@ + suffix(GeneratedKind::Ptr),
            r@[6]@ == self.name@ + suffix(GeneratedKind::PtrMut),
            r@[7]@ == self.name@ + suffix(GeneratedKind::Iter),
            r@[8]@ == self.name@ + suffix(GeneratedKind::IterMut),
    {
        let mut r: Vec<String> = Vec::new();
        r.push(resolve_name(self.name.as_str(), GeneratedKind::Owning));
        r.push(resolve_name(self.name.as_str(), GeneratedKind::Slice));
        r.push(resolve_name(self.name.as_str(), GeneratedKind::SliceMut));
        r.push(resolve_name(self.name.as_str(), GeneratedKind::Ref));
        r.push(resolve_name(self.name.as_str(), GeneratedKind::RefMut));
        r.push(resolve_name(self.name.as_str(), GeneratedKind::Ptr));
        r.push(resolve_name(self.name.as_str(), GeneratedKind::PtrMut));
        r.push(resolve_name(self.name.as_str(), GeneratedKind::Iter));
        r.push(resolve_name(self.name.as_str(), GeneratedKind::IterMut));
        r
    }
}

} // verus!
