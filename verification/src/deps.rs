//! Dependencies and name-keyed sets of them.

use crate::dep_tools::Version;
use vstd::prelude::*;

verus! {

/// A reference to an external source: which tool fetches it, from where, and
/// at which revision.
#[derive(Debug, PartialEq, Eq)]
pub struct Dependency {
    pub tool_name: String,
    pub source: String,
    pub version: Version,
}

/// What a `Dependency` holds, as plain sequences.
pub struct DependencyView {
    pub tool_name: Seq<char>,
    pub source: Seq<char>,
    pub version: Seq<char>,
}

impl View for Dependency {
    type V = DependencyView;

    open spec fn view(&self) -> DependencyView {
        DependencyView { tool_name: self.tool_name@, source: self.source@, version: self.version@ }
    }
}

impl Clone for Dependency {
    fn clone(&self) -> (r: Self)
        ensures
            r@ == self@,
    {
        Dependency {
            tool_name: self.tool_name.clone(),
            source: self.source.clone(),
            version: self.version.clone(),
        }
    }
}

impl Dependency {
    /// Whether two dependencies name the same tool, source and version.
    pub fn same_as(&self, other: &Dependency) -> (r: bool)
        ensures
            r == (self@ == other@),
    {
        self.tool_name == other.tool_name && self.source == other.source && self.version.same_as(
            &other.version,
        )
    }
}

/// One named dependency, as plain sequences.
pub type EntryView = (Seq<char>, DependencyView);

/// The names of `entries`, in order.
pub open spec fn names(entries: Seq<EntryView>) -> Seq<Seq<char>> {
    Seq::new(entries.len(), |i: int| entries[i].0)
}

/// No name occurs twice in `entries`.
pub open spec fn distinct_names(entries: Seq<EntryView>) -> bool {
    forall|i: int, j: int|
        0 <= i < entries.len() && 0 <= j < entries.len() && i != j ==> (#[trigger] entries[i]).0
            != (#[trigger] entries[j]).0
}

/// Whether some entry of `entries` has the name `name`.
pub open spec fn has_name(entries: Seq<EntryView>, name: Seq<char>) -> bool {
    exists|i: int| 0 <= i < entries.len() && (#[trigger] entries[i]).0 == name
}

/// The index of the first entry with the name `name`, or the length of
/// `entries` if there is none.
pub open spec fn index_of(entries: Seq<EntryView>, name: Seq<char>) -> int
    decreases entries.len(),
{
    if entries.len() == 0 {
        0
    } else if entries[0].0 == name {
        0
    } else {
        1 + index_of(entries.drop_first(), name)
    }
}

/// `entries` as a map from name to dependency; of several entries with one
/// name the first counts.
pub open spec fn as_map(entries: Seq<EntryView>) -> Map<Seq<char>, DependencyView> {
    Map::new(
        |name: Seq<char>| has_name(entries, name),
        |name: Seq<char>| entries[index_of(entries, name)].1,
    )
}

/// `entries` without the first entry named `name`.
pub open spec fn without(entries: Seq<EntryView>, name: Seq<char>) -> Seq<EntryView> {
    if has_name(entries, name) {
        entries.remove(index_of(entries, name))
    } else {
        entries
    }
}

/// `index_of` gives the index of the first entry with the name, and the
/// length where no entry has it.
pub proof fn lemma_index_of(entries: Seq<EntryView>, name: Seq<char>)
    ensures
        0 <= index_of(entries, name) <= entries.len(),
        forall|j: int| 0 <= j < index_of(entries, name) ==> (#[trigger] entries[j]).0 != name,
        index_of(entries, name) < entries.len() ==> entries[index_of(entries, name)].0 == name,
        has_name(entries, name) <==> index_of(entries, name) < entries.len(),
    decreases entries.len(),
{
    if entries.len() == 0 {
    } else if entries[0].0 == name {
    } else {
        let rest = entries.drop_first();
        lemma_index_of(rest, name);
        let k = index_of(rest, name);
        assert forall|j: int| 0 <= j < k + 1 implies (#[trigger] entries[j]).0 != name by {
            if j > 0 {
                assert(entries[j] == rest[j - 1]);
            }
        }
        if k < rest.len() {
            assert(entries[k + 1] == rest[k]);
        }
        if has_name(entries, name) {
            let i = choose|i: int| 0 <= i < entries.len() && (#[trigger] entries[i]).0 == name;
            assert(rest[i - 1] == entries[i]);
        }
    }
}

/// In a sequence without repeated names, the entry at `i` is the one that its
/// name is mapped to.
pub proof fn lemma_as_map_at(entries: Seq<EntryView>, i: int)
    requires
        distinct_names(entries),
        0 <= i < entries.len(),
    ensures
        as_map(entries).contains_key(entries[i].0),
        as_map(entries)[entries[i].0] == entries[i].1,
        index_of(entries, entries[i].0) == i,
{
    lemma_index_of(entries, entries[i].0);
}

/// A set of dependencies keyed by local name, in insertion order.
#[derive(Debug, PartialEq, Eq)]
pub struct Deps {
    entries: Vec<(String, Dependency)>,
}

impl View for Deps {
    type V = Seq<EntryView>;

    closed spec fn view(&self) -> Seq<EntryView> {
        Seq::new(self.entries.len() as nat, |i: int| (self.entries[i].0@, self.entries[i].1@))
    }
}

impl Clone for Deps {
    fn clone(&self) -> (r: Self)
        ensures
            r@ == self@,
    {
        let mut entries: Vec<(String, Dependency)> = Vec::new();
        let mut i: usize = 0;
        while i < self.entries.len()
            invariant
                i <= self.entries.len(),
                entries.len() == i,
                forall|j: int|
                    0 <= j < i ==> (#[trigger] entries[j]).0@ == self.entries[j].0@ && entries[j].1@
                        == self.entries[j].1@,
            decreases self.entries.len() - i,
        {
            entries.push((self.entries[i].0.clone(), self.entries[i].1.clone()));
            i += 1;
        }
        let r = Deps { entries };
        assert(r@ =~= self@);
        r
    }
}

impl Deps {
    /// No name is held twice. Every value that the methods of this type
    /// make is well-formed.
    pub open spec fn wf(self) -> bool {
        distinct_names(self@)
    }

    /// The dependencies as a map from name to dependency.
    pub open spec fn map(self) -> Map<Seq<char>, DependencyView> {
        as_map(self@)
    }

    /// The empty set.
    pub fn new() -> (r: Deps)
        ensures
            r@ == Seq::<EntryView>::empty(),
            r.wf(),
    {
        Deps { entries: Vec::new() }
    }

    /// The number of dependencies.
    pub fn len(&self) -> (r: usize)
        ensures
            r == self@.len(),
    {
        self.entries.len()
    }

    /// The name of the entry at `i`.
    pub fn name_at(&self, i: usize) -> (r: &String)
        requires
            i < self@.len(),
        ensures
            r@ == self@[i as int].0,
    {
        &self.entries[i].0
    }

    /// The dependency of the entry at `i`.
    pub fn dep_at(&self, i: usize) -> (r: &Dependency)
        requires
            i < self@.len(),
        ensures
            r@ == self@[i as int].1,
    {
        &self.entries[i].1
    }

    /// Where `name` is held, if it is.
    pub fn position(&self, name: &String) -> (r: Option<usize>)
        ensures
            r is Some <==> has_name(self@, name@),
            r matches Some(i) ==> i == index_of(self@, name@) && i < self@.len(),
    {
        let mut i: usize = 0;
        while i < self.entries.len()
            invariant
                i <= self.entries.len(),
                forall|j: int| 0 <= j < i ==> (#[trigger] self@[j]).0 != name@,
            decreases self.entries.len() - i,
        {
            if self.entries[i].0 == *name {
                proof {
                    assert(self@[i as int].0 == name@);
                    lemma_index_of(self@, name@);
                }
                return Some(i);
            }
            i += 1;
        }
        proof {
            lemma_index_of(self@, name@);
        }
        None
    }

    /// Whether `name` is held.
    pub fn contains_key(&self, name: &String) -> (r: bool)
        ensures
            r == self.map().contains_key(name@),
    {
        self.position(name).is_some()
    }

    /// The dependency held under `name`.
    pub fn get(&self, name: &String) -> (r: Option<&Dependency>)
        ensures
            r is Some <==> self.map().contains_key(name@),
            r matches Some(d) ==> d@ == self.map()[name@],
    {
        match self.position(name) {
            Some(i) => Some(&self.entries[i].1),
            None => None,
        }
    }

    /// Adds `dep` under `name` at the end, if `name` is not held yet; says
    /// whether it was added.
    pub fn insert_new(&mut self, name: String, dep: Dependency) -> (r: bool)
        ensures
            old(self).wf() ==> final(self).wf(),
            r == !has_name(old(self)@, name@),
            r ==> final(self)@ == old(self)@.push((name@, dep@)),
            !r ==> final(self)@ == old(self)@,
    {
        if self.position(&name).is_some() {
            return false;
        }
        let ghost before = self@;
        self.entries.push((name, dep));
        assert(self@ == before.push((name@, dep@)));
        true
    }

    /// Takes out the entry held under `name`, if there is one; the others
    /// keep their order.
    pub fn remove(&mut self, name: &String) -> (r: Option<Dependency>)
        ensures
            old(self).wf() ==> final(self).wf(),
            final(self)@ == without(old(self)@, name@),
            r is Some <==> has_name(old(self)@, name@),
            r matches Some(d) ==> d@ == as_map(old(self)@)[name@],
    {
        proof {
            if self.wf() {
                lemma_without(self@, name@);
            }
        }
        match self.position(name) {
            Some(i) => {
                let ghost before = self@;
                let e = self.entries.remove(i);
                assert(self@ == before.remove(i as int));
                Some(e.1)
            },
            None => None,
        }
    }
}

/// Taking out a name from a sequence that holds none twice: the name is
/// gone, every other name stays, and still none occurs twice.
pub proof fn lemma_without(entries: Seq<EntryView>, name: Seq<char>)
    requires
        distinct_names(entries),
    ensures
        distinct_names(without(entries, name)),
        !has_name(without(entries, name), name),
        forall|other: Seq<char>|
            other != name ==> (has_name(without(entries, name), other) <==> has_name(
                entries,
                other,
            )),
        forall|other: Seq<char>|
            other != name && has_name(entries, other) ==> as_map(without(entries, name))[other]
                == as_map(entries)[other],
{
    lemma_index_of(entries, name);
    let k = index_of(entries, name);
    let rest = without(entries, name);
    if has_name(entries, name) {
        assert forall|i: int| 0 <= i < rest.len() implies #[trigger] rest[i] == entries[if i
            < k {
            i
        } else {
            i + 1
        }] by {}
        assert(distinct_names(rest));
        if has_name(rest, name) {
            let i = choose|i: int| 0 <= i < rest.len() && (#[trigger] rest[i]).0 == name;
            assert(entries[k].0 == name);
            assert(entries[if i < k {
                i
            } else {
                i + 1
            }].0 == name);
        }
        assert forall|other: Seq<char>| other != name implies (has_name(rest, other) <==> has_name(
            entries,
            other,
        )) by {
            if has_name(rest, other) {
                let i = choose|i: int| 0 <= i < rest.len() && (#[trigger] rest[i]).0 == other;
                assert(entries[if i < k {
                    i
                } else {
                    i + 1
                }].0 == other);
            }
            if has_name(entries, other) {
                let i = choose|i: int| 0 <= i < entries.len() && (#[trigger] entries[i]).0 == other;
                assert(rest[if i < k {
                    i
                } else {
                    i - 1
                }].0 == other);
            }
        }
        assert forall|other: Seq<char>| other != name && has_name(entries, other) implies as_map(
            rest,
        )[other] == as_map(entries)[other] by {
            let i = choose|i: int| 0 <= i < entries.len() && (#[trigger] entries[i]).0 == other;
            let j = if i < k {
                i
            } else {
                i - 1
            };
            assert(rest[j] == entries[i]);
            lemma_as_map_at(entries, i);
            lemma_as_map_at(rest, j);
        }
    }
}

} // verus!
