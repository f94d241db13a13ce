//! The boundary stores that node configuration resolves names through:
//! field names to field ids, and labels of a field to their ordinals.
use vstd::prelude::*;
use std::collections::HashMap;
use crate::plan::FieldId;
use crate::table::NameTable;

verus! {

broadcast use vstd::std_specs::hash::group_hash_axioms;

/// Field-name resolution.
#[derive(Debug)]
pub struct Catalog {
    fields: NameTable<FieldId>,
}

impl Catalog {
    /// The field ids, by name.
    pub closed spec fn view(self) -> Map<Seq<char>, FieldId> {
        self.fields.view()
    }

    /// A catalog that knows no field.
    pub fn new() -> (c: Self)
        ensures
            c.view() == Map::<Seq<char>, FieldId>::empty(),
    {
        Catalog { fields: NameTable::new() }
    }

    /// The catalog with `name` naming `field`.
    pub fn with(self, name: &str, field: FieldId) -> (c: Self)
        ensures
            c.view() == self.view().insert(name@, field),
    {
        let mut c = self;
        c.fields.insert(name, field);
        c
    }

    /// The field a name resolves to.
    pub fn field(&self, name: &str) -> (r: Option<FieldId>)
        ensures
            r == (if self.view().contains_key(name@) {
                Some(self.view()[name@])
            } else {
                None
            }),
    {
        match self.fields.get(name) {
            Some(f) => Some(*f),
            None => None,
        }
    }
}

/// The ordinal of `label` in `field` in a codebook's view.
pub open spec fn ordinal_in(v: Map<u32, Map<Seq<char>, u32>>, field: FieldId, label: Seq<char>) -> Option<u32> {
    if v.contains_key(field.0) && v[field.0].contains_key(label) {
        Some(v[field.0][label])
    } else {
        None
    }
}

/// The label codebook: for each field, the ordinal of each label.
#[derive(Debug)]
pub struct CamLabels {
    by_field: HashMap<u32, NameTable<u32>>,
}

impl CamLabels {
    /// The ordinal of each label, by field.
    pub closed spec fn view(self) -> Map<u32, Map<Seq<char>, u32>> {
        self.by_field@.map_values(|t: NameTable<u32>| t.view())
    }

    /// The ordinal of `label` in `field`, if the codebook has one.
    pub open spec fn ordinal_of(self, field: FieldId, label: Seq<char>) -> Option<u32> {
        ordinal_in(self.view(), field, label)
    }

    /// A codebook without labels.
    pub fn new() -> (c: Self)
        ensures
            c.view() == Map::<u32, Map<Seq<char>, u32>>::empty(),
    {
        let c = CamLabels { by_field: HashMap::new() };
        assert(c.view() =~= Map::<u32, Map<Seq<char>, u32>>::empty());
        c
    }

    /// Gives `label` of `field` the ordinal `ordinal`.
    pub fn define(&mut self, field: FieldId, label: &str, ordinal: u32)
        ensures
            forall|f: FieldId, l: Seq<char>|
                #[trigger] ordinal_in(final(self).view(), f, l) == if f == field && l == label@ {
                    Some(ordinal)
                } else {
                    ordinal_in(old(self).view(), f, l)
                },
    {
        let ghost old_v = self.view();
        let mut t = match self.by_field.remove(&field.0) {
            Some(t) => t,
            None => NameTable::new(),
        };
        let ghost before = t.view();
        assert(old_v.contains_key(field.0) ==> before == old_v[field.0]);
        assert(!old_v.contains_key(field.0) ==> before == Map::<Seq<char>, u32>::empty());
        t.insert(label, ordinal);
        self.by_field.insert(field.0, t);
        assert(self.view() =~= old_v.insert(field.0, before.insert(label@, ordinal)));
    }

    /// The ordinal of `label` in `field`.
    pub fn ordinal(&self, field: FieldId, label: &str) -> (r: Option<u32>)
        ensures
            r == self.ordinal_of(field, label@),
    {
        match self.by_field.get(&field.0) {
            Some(t) => match t.get(label) {
                Some(o) => Some(*o),
                None => None,
            },
            None => None,
        }
    }
}

} // verus!
