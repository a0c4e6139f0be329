//! A message's header fields: a map from header name to value.
//!
//! Names are compared exactly (a map keyed by `String`); each name occurs at
//! most once.  Entries keep the order in which their names were first
//! inserted, so every walk over the map is deterministic.
use vstd::prelude::*;

use crate::text::same_text;

verus! {

/// A header field as plain text: (name, value).
pub type FieldView = (Seq<char>, Seq<char>);

/// No name occurs twice.
pub open spec fn names_distinct(e: Seq<FieldView>) -> bool {
    forall|i: int, j: int| 0 <= i < j < e.len() ==> e[i].0 != e[j].0
}

/// The first index at or after `i` whose entry is named `name`.
pub open spec fn name_index_from(e: Seq<FieldView>, name: Seq<char>, i: int) -> Option<int>
    decreases e.len() - i,
{
    if i < 0 || i >= e.len() {
        None
    } else if e[i].0 == name {
        Some(i)
    } else {
        name_index_from(e, name, i + 1)
    }
}

/// The index of the entry named `name`.
pub open spec fn name_index(e: Seq<FieldView>, name: Seq<char>) -> Option<int> {
    name_index_from(e, name, 0)
}

/// The value stored under `name`.
pub open spec fn lookup(e: Seq<FieldView>, name: Seq<char>) -> Option<Seq<char>> {
    match name_index(e, name) {
        Some(i) => Some(e[i].1),
        None => None,
    }
}

/// The entries after storing `value` under `name`: an existing entry keeps
/// its place and takes the new value; a new name goes last.
pub open spec fn insert_field(e: Seq<FieldView>, name: Seq<char>, value: Seq<char>) -> Seq<
    FieldView,
> {
    match name_index(e, name) {
        Some(i) => e.update(i, (name, value)),
        None => e.push((name, value)),
    }
}

/// The entries that inserting the pairs one after the other gives (what
/// collecting pairs into a map does: a later pair overrides an earlier one
/// with the same name).
pub open spec fn collect_fields(pairs: Seq<FieldView>) -> Seq<FieldView>
    decreases pairs.len(),
{
    if pairs.len() == 0 {
        seq![]
    } else {
        insert_field(collect_fields(pairs.drop_last()), pairs.last().0, pairs.last().1)
    }
}

/// What `name_index_from` reports.
pub proof fn lemma_name_index_from(e: Seq<FieldView>, name: Seq<char>, i: int)
    requires
        0 <= i,
    ensures
        name_index_from(e, name, i) matches Some(k) ==> i <= k < e.len() && e[k].0 == name && (
        forall|j: int| i <= j < k ==> e[j].0 != name),
        name_index_from(e, name, i) is None ==> forall|j: int| i <= j < e.len() ==> e[j].0 != name,
    decreases e.len() - i,
{
    if i < e.len() && e[i].0 != name {
        lemma_name_index_from(e, name, i + 1);
    }
}

/// In a map whose names are distinct, the entry at `k` is the one found
/// under its name.
pub proof fn lemma_name_index_unique(e: Seq<FieldView>, k: int)
    requires
        names_distinct(e),
        0 <= k < e.len(),
    ensures
        name_index(e, e[k].0) == Some(k),
{
    lemma_name_index_from(e, e[k].0, 0);
}

/// Storing a value keeps the names distinct, and reading a name back gives
/// the value last stored under it; other names are unaffected.
pub proof fn lemma_insert_field(e: Seq<FieldView>, name: Seq<char>, value: Seq<char>)
    requires
        names_distinct(e),
    ensures
        names_distinct(insert_field(e, name, value)),
        lookup(insert_field(e, name, value), name) == Some(value),
        forall|other: Seq<char>|
            other != name ==> lookup(insert_field(e, name, value), other) == #[trigger] lookup(
                e,
                other,
            ),
{
    let f = insert_field(e, name, value);
    lemma_name_index_from(e, name, 0);
    assert(names_distinct(f));
    lemma_name_index_from(f, name, 0);
    assert forall|other: Seq<char>| other != name implies lookup(f, other) == #[trigger] lookup(
        e,
        other,
    ) by {
        lemma_name_index_from(e, other, 0);
        lemma_name_index_from(f, other, 0);
        if name_index(e, other) is Some {
            let k = name_index(e, other)->0;
            assert(f[k].0 == other);
            lemma_name_index_unique(f, k);
        } else if name_index(f, other) is Some {
            let k = name_index(f, other)->0;
            assert(k < e.len());
            assert(e[k].0 == other);
        }
    }
    match name_index(e, name) {
        Some(i) => {
            lemma_name_index_unique(f, i);
        },
        None => {
            lemma_name_index_unique(f, e.len() as int);
        },
    }
}

/// Header fields, keyed by exact name.
#[derive(Debug)]
pub struct HeaderMap {
    fields: Vec<(String, String)>,
}

impl View for HeaderMap {
    type V = Seq<FieldView>;

    closed spec fn view(&self) -> Seq<FieldView> {
        self.fields@.map_values(|f: (String, String)| (f.0@, f.1@))
    }
}

impl Clone for HeaderMap {
    /// A map with the same fields in the same order.
    fn clone(&self) -> (r: Self)
        ensures
            r@ == self@,
    {
        proof {
            use_type_invariant(self);
        }
        let mut fields: Vec<(String, String)> = Vec::new();
        let mut i: usize = 0;
        while i < self.fields.len()
            invariant
                i <= self.fields@.len(),
                fields@.len() == i,
                fields@.map_values(|f: (String, String)| (f.0@, f.1@)) =~= self@.take(i as int),
            decreases self.fields@.len() - i,
        {
            let ghost prev = fields@;
            let name = self.fields[i].0.clone();
            let value = self.fields[i].1.clone();
            fields.push((name, value));
            assert(fields@ == prev.push(fields@[i as int]));
            assert(self@.take(i + 1) =~= self@.take(i as int).push(self@[i as int]));
            assert(fields@.map_values(|f: (String, String)| (f.0@, f.1@)) =~= prev.map_values(
                |f: (String, String)| (f.0@, f.1@),
            ).push(self@[i as int]));
            i = i + 1;
        }
        assert(self@.take(self.fields@.len() as int) =~= self@);
        HeaderMap { fields }
    }
}

impl HeaderMap {
    #[verifier::type_invariant]
    closed spec fn inv(self) -> bool {
        names_distinct(self@)
    }

    /// An empty map.
    pub fn new() -> (m: HeaderMap)
        ensures
            m@ == Seq::<FieldView>::empty(),
    {
        let m = HeaderMap { fields: Vec::new() };
        assert(m@ =~= Seq::<FieldView>::empty());
        m
    }

    /// The number of fields.
    pub fn len(&self) -> (n: usize)
        ensures
            n == self@.len(),
            names_distinct(self@),
    {
        proof {
            use_type_invariant(self);
        }
        self.fields.len()
    }

    /// The name of the field at position `i`.
    pub fn name_at(&self, i: usize) -> (s: &String)
        requires
            i < self@.len(),
        ensures
            s@ == self@[i as int].0,
    {
        &self.fields[i].0
    }

    /// The value of the field at position `i`.
    pub fn value_at(&self, i: usize) -> (s: &String)
        requires
            i < self@.len(),
        ensures
            s@ == self@[i as int].1,
    {
        &self.fields[i].1
    }

    /// The position of the field named `name`.
    fn position_of(&self, name: &str) -> (r: Option<usize>)
        ensures
            r matches Some(i) ==> name_index(self@, name@) == Some(i as int),
            r is None ==> name_index(self@, name@) is None,
    {
        let mut i: usize = 0;
        while i < self.fields.len()
            invariant
                i <= self@.len(),
                self@.len() == self.fields@.len(),
                name_index_from(self@, name@, 0) == name_index_from(self@, name@, i as int),
            decreases self@.len() - i,
        {
            if same_text(self.fields[i].0.as_str(), name) {
                return Some(i);
            }
            i = i + 1;
        }
        None
    }

    /// The value stored under `name` (`HashMap::get`).
    pub fn get(&self, name: &str) -> (r: Option<&String>)
        ensures
            r matches Some(v) ==> lookup(self@, name@) == Some(v@),
            r is None ==> lookup(self@, name@) is None,
    {
        proof {
            lemma_name_index_from(self@, name@, 0);
        }
        match self.position_of(name) {
            Some(i) => Some(&self.fields[i].1),
            None => None,
        }
    }

    /// Stores `value` under `name` and returns the value it replaces
    /// (`HashMap::insert`).
    pub fn insert(&mut self, name: String, value: String) -> (r: Option<String>)
        ensures
            final(self)@ == insert_field(old(self)@, name@, value@),
            r matches Some(v) ==> lookup(old(self)@, name@) == Some(v@),
            r is None ==> lookup(old(self)@, name@) is None,
    {
        proof {
            use_type_invariant(&*self);
            lemma_insert_field(self@, name@, value@);
            lemma_name_index_from(self@, name@, 0);
        }
        let ghost old_view = self@;
        match self.position_of(name.as_str()) {
            Some(i) => {
                let ghost nv = (name@, value@);
                let previous = self.fields[i].1.clone();
                let mut fields: Vec<(String, String)> = Vec::new();
                std::mem::swap(&mut fields, &mut self.fields);
                fields.set(i, (name, value));
                assert(fields@.map_values(|f: (String, String)| (f.0@, f.1@)) =~= old_view.update(
                    i as int,
                    nv,
                ));
                self.fields = fields;
                Some(previous)
            },
            None => {
                let ghost nv = (name@, value@);
                let mut fields: Vec<(String, String)> = Vec::new();
                std::mem::swap(&mut fields, &mut self.fields);
                fields.push((name, value));
                assert(fields@.map_values(|f: (String, String)| (f.0@, f.1@)) =~= old_view.push(
                    nv,
                ));
                self.fields = fields;
                None
            },
        }
    }

    /// A map of the given pairs, inserted in order (a later pair overrides
    /// an earlier one with the same name).
    pub fn from_pairs(pairs: Vec<(String, String)>) -> (m: HeaderMap)
        ensures
            m@ == collect_fields(pairs@.map_values(|p: (String, String)| (p.0@, p.1@))),
    {
        let ghost pv = pairs@.map_values(|p: (String, String)| (p.0@, p.1@));
        let mut m = HeaderMap::new();
        let mut i: usize = 0;
        assert(pv.take(0) =~= Seq::<FieldView>::empty());
        while i < pairs.len()
            invariant
                i <= pairs@.len(),
                pv == pairs@.map_values(|p: (String, String)| (p.0@, p.1@)),
                m@ == collect_fields(pv.take(i as int)),
            decreases pairs@.len() - i,
        {
            let name = pairs[i].0.clone();
            let value = pairs[i].1.clone();
            m.insert(name, value);
            assert(pv.take(i + 1).drop_last() =~= pv.take(i as int));
            i = i + 1;
        }
        assert(pv.take(pairs@.len() as int) =~= pv);
        m
    }
}

} // verus!
