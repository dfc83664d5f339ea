use vstd::prelude::*;
use crate::order::{lex_lt, strictly_sorted, views, name_lt, lemma_lex_irreflexive, lemma_lex_transitive, lemma_lex_total};

verus! {

/// A named shader source. The entry named `vs` is the shared vertex stage;
/// every other entry is a fragment stage.
pub struct ShaderEntry {
    pub name: String,
    pub source: String,
}

/// Why a registry could not be built.
#[derive(Debug, Clone, Copy, PartialEq, Eq)]
pub enum LoadError {
    /// No entry is named `vs`.
    MissingVertexStage,
}

/// The name of the vertex-stage entry.
pub open spec fn vertex_name() -> Seq<char> {
    seq!['v', 's']
}

/// Some entry is the vertex stage.
pub open spec fn has_vertex_stage(entries: Seq<ShaderEntry>) -> bool {
    exists|k: int| 0 <= k < entries.len() && #[trigger] entries[k].name@ == vertex_name()
}

/// `s` names a fragment entry among the first `upto` entries.
pub open spec fn is_fragment_name(entries: Seq<ShaderEntry>, upto: int, s: Seq<char>) -> bool {
    &&& s != vertex_name()
    &&& exists|k: int| 0 <= k < upto && #[trigger] entries[k].name@ == s
}

/// Entry `k` is the last one named `s` among the first `upto` entries.
pub open spec fn last_named(entries: Seq<ShaderEntry>, k: int, s: Seq<char>, upto: int) -> bool {
    &&& 0 <= k < upto <= entries.len()
    &&& entries[k].name@ == s
    &&& forall|m: int| k < m < upto ==> #[trigger] entries[m].name@ != s
}

/// Entry `k` is the first vertex-stage entry.
pub open spec fn first_vertex(entries: Seq<ShaderEntry>, k: int) -> bool {
    &&& 0 <= k < entries.len()
    &&& entries[k].name@ == vertex_name()
    &&& forall|m: int| 0 <= m < k ==> #[trigger] entries[m].name@ != vertex_name()
}

/// Whether `s` is the vertex-stage name.
pub fn is_vertex_name(s: &str) -> (r: bool)
    ensures
        r == (s@ == vertex_name()),
{
    if s.unicode_len() != 2 {
        return false;
    }
    let r = s.get_char(0) == 'v' && s.get_char(1) == 's';
    proof {
        if r {
            assert(s@ =~= vertex_name());
        }
    }
    r
}

/// Whether two names are equal.
pub fn same_name(a: &str, b: &str) -> (r: bool)
    ensures
        r == (a@ == b@),
{
    let r = !name_lt(a, b) && !name_lt(b, a);
    proof {
        if a@ == b@ {
            lemma_lex_irreflexive(a@);
        } else {
            lemma_lex_total(a@, b@);
        }
    }
    r
}

proof fn lemma_sorted_distinct(s: Seq<Seq<char>>, i: int, j: int)
    requires
        strictly_sorted(s),
        0 <= i < s.len(),
        0 <= j < s.len(),
        i != j,
    ensures
        s[i] != s[j],
{
    if i < j {
        assert(lex_lt(s[i], s[j]));
        lemma_lex_irreflexive(s[i]);
    } else {
        assert(lex_lt(s[j], s[i]));
        lemma_lex_irreflexive(s[j]);
    }
}

proof fn lemma_insert_sorted(s: Seq<Seq<char>>, p: int, x: Seq<char>)
    requires
        strictly_sorted(s),
        0 <= p <= s.len(),
        forall|q: int| 0 <= q < p ==> lex_lt(#[trigger] s[q], x),
        p < s.len() ==> lex_lt(x, s[p]),
    ensures
        strictly_sorted(s.insert(p, x)),
{
    let t = s.insert(p, x);
    assert forall|i: int, j: int| 0 <= i < j < t.len() implies lex_lt(#[trigger] t[i], #[trigger] t[j]) by {
        if j == p {
            assert(t[i] == s[i]);
        } else if i == p {
            assert(t[j] == s[j - 1]);
            if j - 1 > p {
                assert(lex_lt(s[p], s[j - 1]));
                lemma_lex_transitive(x, s[p], s[j - 1]);
            }
        } else {
            let si = if i < p { i } else { i - 1 };
            let sj = if j < p { j } else { j - 1 };
            assert(t[i] == s[si]);
            assert(t[j] == s[sj]);
            assert(lex_lt(s[si], s[sj]));
        }
    }
}

/// The fragment shaders by name, in ascending order, with one of them
/// selected, and the entry that holds the vertex stage.
pub struct Registry {
    names: Vec<String>,
    slots: Vec<usize>,
    vertex: usize,
    active: usize,
}

impl Registry {
    /// The fragment names, ascending.
    pub closed spec fn names_view(&self) -> Seq<Seq<char>> {
        views(self.names@)
    }

    /// For each fragment name, the index of the entry that holds its source.
    pub closed spec fn slots_view(&self) -> Seq<usize> {
        self.slots@
    }

    /// The index of the entry that holds the vertex stage.
    pub closed spec fn vertex_view(&self) -> usize {
        self.vertex
    }

    /// The position of the selected name in `names_view`.
    pub closed spec fn active_index_view(&self) -> int {
        self.active as int
    }

    /// The selected name; empty when there is no fragment shader.
    pub open spec fn active_view(&self) -> Seq<char> {
        if self.names_view().len() == 0 {
            Seq::empty()
        } else {
            self.names_view()[self.active_index_view()]
        }
    }

    /// The names are strictly ascending, each has a source, and the
    /// selection points at one of them when there is any.
    pub closed spec fn wf(&self) -> bool {
        &&& strictly_sorted(views(self.names@))
        &&& self.slots@.len() == self.names@.len()
        &&& (self.names@.len() > 0 ==> self.active < self.names@.len())
        &&& (self.names@.len() == 0 ==> self.active == 0)
    }

    /// What a consistent registry guarantees to its users.
    pub proof fn lemma_wf(&self)
        requires
            self.wf(),
        ensures
            strictly_sorted(self.names_view()),
            self.slots_view().len() == self.names_view().len(),
            self.names_view().len() > 0 ==> 0 <= self.active_index_view() < self.names_view().len(),
            0 <= self.active_index_view() <= usize::MAX,
    {
    }

    /// Sorts the entries into one vertex stage and the fragment stages.
    /// The first entry named `vs` is the vertex stage. Fragment names are
    /// kept once each, in ascending order; where several entries share a
    /// name, the last of them holds its source. The first name is selected.
    pub fn load(entries: &Vec<ShaderEntry>) -> (r: Result<Registry, LoadError>)
        ensures
            r is Err <==> !has_vertex_stage(entries@),
            r matches Ok(reg) ==> {
                &&& reg.wf()
                &&& first_vertex(entries@, reg.vertex_view() as int)
                &&& forall|s: Seq<char>| #[trigger] reg.names_view().contains(s) <==> is_fragment_name(entries@, entries@.len() as int, s)
                &&& forall|i: int| 0 <= i < reg.names_view().len() ==>
                        last_named(entries@, #[trigger] reg.slots_view()[i] as int, reg.names_view()[i], entries@.len() as int)
                &&& reg.active_index_view() == 0
            },
    {
        let mut names: Vec<String> = Vec::new();
        let mut slots: Vec<usize> = Vec::new();
        let mut vertex: Option<usize> = None;
        let n = entries.len();
        let mut j: usize = 0;
        while j < n
            invariant
                n == entries@.len(),
                j <= n,
                strictly_sorted(views(names@)),
                slots@.len() == names@.len(),
                forall|s: Seq<char>| #[trigger] views(names@).contains(s) <==> is_fragment_name(entries@, j as int, s),
                forall|i: int| 0 <= i < names@.len() ==>
                    last_named(entries@, #[trigger] slots@[i] as int, views(names@)[i], j as int),
                match vertex {
                    None => forall|m: int| 0 <= m < j ==> #[trigger] entries@[m].name@ != vertex_name(),
                    Some(v) => v < j && first_vertex(entries@, v as int),
                },
            decreases n - j,
        {
            let ghost old_names = views(names@);
            let ghost old_slots = slots@;
            assert(forall|s: Seq<char>| #[trigger] old_names.contains(s) <==> is_fragment_name(entries@, j as int, s));
            let name = entries[j].name.as_str();
            if is_vertex_name(name) {
                if vertex.is_none() {
                    vertex = Some(j);
                }
                assert forall|s: Seq<char>| #[trigger] views(names@).contains(s) <==> is_fragment_name(entries@, j + 1, s) by {
                    if is_fragment_name(entries@, j + 1, s) {
                        let k = choose|k: int| 0 <= k < j + 1 && #[trigger] entries@[k].name@ == s;
                        assert(is_fragment_name(entries@, j as int, s));
                    }
                }
                assert forall|i: int| 0 <= i < names@.len() implies
                    last_named(entries@, #[trigger] slots@[i] as int, views(names@)[i], j + 1) by {
                    assert(views(names@).contains(views(names@)[i]));
                }
            } else {
                let mut p: usize = 0;
                while p < names.len() && name_lt(names[p].as_str(), name)
                    invariant
                        p <= names@.len(),
                        forall|q: int| 0 <= q < p ==> lex_lt(#[trigger] views(names@)[q], name@),
                    decreases names@.len() - p,
                {
                    p = p + 1;
                }
                if p < names.len() && same_name(names[p].as_str(), name) {
                    slots.set(p, j);
                    assert forall|i: int| 0 <= i < names@.len() implies
                        last_named(entries@, #[trigger] slots@[i] as int, views(names@)[i], j + 1) by {
                        if i != p {
                            lemma_sorted_distinct(views(names@), i, p as int);
                            assert(last_named(entries@, old_slots[i] as int, old_names[i], j as int));
                        }
                    }
                    assert forall|s: Seq<char>| #[trigger] views(names@).contains(s) <==> is_fragment_name(entries@, j + 1, s) by {
                        if is_fragment_name(entries@, j + 1, s) {
                            let k = choose|k: int| 0 <= k < j + 1 && #[trigger] entries@[k].name@ == s;
                            if k < j {
                                assert(is_fragment_name(entries@, j as int, s));
                            } else {
                                assert(views(names@)[p as int] == s);
                            }
                        }
                        if views(names@).contains(s) {
                            assert(is_fragment_name(entries@, j as int, s));
                        }
                    }
                } else {
                    proof {
                        if p < names@.len() {
                            lemma_lex_total(views(names@)[p as int], name@);
                        }
                        lemma_insert_sorted(old_names, p as int, name@);
                    }
                    names.insert(p, entries[j].name.clone());
                    slots.insert(p, j);
                    assert(views(names@) =~= old_names.insert(p as int, name@));
                    assert(!old_names.contains(name@)) by {
                        if old_names.contains(name@) {
                            let q = choose|q: int| 0 <= q < old_names.len() && old_names[q] == name@;
                            if q < p {
                                lemma_lex_irreflexive(name@);
                            } else if q > p {
                                assert(lex_lt(old_names[p as int], old_names[q]));
                                lemma_lex_transitive(name@, old_names[p as int], old_names[q]);
                                lemma_lex_irreflexive(name@);
                            }
                        }
                    }
                    assert forall|i: int| 0 <= i < names@.len() implies
                        last_named(entries@, #[trigger] slots@[i] as int, views(names@)[i], j + 1) by {
                        if i < p {
                            assert(old_names.contains(old_names[i]));
                            assert(last_named(entries@, old_slots[i] as int, old_names[i], j as int));
                        } else if i > p {
                            assert(old_names.contains(old_names[i - 1]));
                            assert(last_named(entries@, old_slots[i - 1] as int, old_names[i - 1], j as int));
                        }
                    }
                    assert forall|s: Seq<char>| #[trigger] views(names@).contains(s) <==> is_fragment_name(entries@, j + 1, s) by {
                        if is_fragment_name(entries@, j + 1, s) {
                            let k = choose|k: int| 0 <= k < j + 1 && #[trigger] entries@[k].name@ == s;
                            if k < j {
                                assert(is_fragment_name(entries@, j as int, s));
                                assert(old_names.contains(s));
                                let q = choose|q: int| 0 <= q < old_names.len() && old_names[q] == s;
                                if q < p {
                                    assert(views(names@)[q] == s);
                                } else {
                                    assert(views(names@)[q + 1] == s);
                                }
                            } else {
                                assert(views(names@)[p as int] == s);
                            }
                        }
                        if views(names@).contains(s) {
                            let q = choose|q: int| 0 <= q < names@.len() && views(names@)[q] == s;
                            if q < p {
                                assert(old_names.contains(old_names[q]));
                            } else if q > p {
                                assert(old_names.contains(old_names[q - 1]));
                            }
                        }
                    }
                }
            }
            j = j + 1;
        }
        match vertex {
            None => Err(LoadError::MissingVertexStage),
            Some(v) => Ok(Registry { names, slots, vertex: v, active: 0 }),
        }
    }

    /// The fragment names, ascending.
    pub fn names(&self) -> (r: Vec<String>)
        ensures
            views(r@) == self.names_view(),
    {
        self.names.clone()
    }

    /// The number of fragment shaders.
    pub fn len(&self) -> (r: usize)
        ensures
            r == self.names_view().len(),
    {
        self.names.len()
    }

    /// The selected name; empty when there is no fragment shader.
    pub fn active(&self) -> (r: String)
        requires
            self.wf(),
        ensures
            r@ == self.active_view(),
    {
        if self.names.len() == 0 {
            String::new()
        } else {
            self.names[self.active].clone()
        }
    }

    /// The position of the selected name, if there is any fragment shader.
    pub fn active_index(&self) -> (r: Option<usize>)
        requires
            self.wf(),
        ensures
            self.names_view().len() == 0 ==> r is None,
            self.names_view().len() > 0 ==> r == Some(self.active_index_view() as usize),
    {
        if self.names.len() == 0 {
            None
        } else {
            Some(self.active)
        }
    }

    /// The index of the entry that holds the source of fragment shader `i`.
    pub fn fragment_slot(&self, i: usize) -> (r: usize)
        requires
            self.wf(),
            i < self.names_view().len(),
        ensures
            r == self.slots_view()[i as int],
    {
        self.slots[i]
    }

    /// The index of the entry that holds the vertex stage.
    pub fn vertex_slot(&self) -> (r: usize)
        ensures
            r == self.vertex_view(),
    {
        self.vertex
    }

    /// Selects `name` if it is a fragment name and reports whether the
    /// selection changed; an unknown name, or the name already selected,
    /// leaves the selection as it was.
    pub fn select(&mut self, name: &str) -> (r: bool)
        requires
            old(self).wf(),
        ensures
            final(self).wf(),
            r == (old(self).names_view().contains(name@) && name@ != old(self).active_view()),
            final(self).names_view() == old(self).names_view(),
            final(self).slots_view() == old(self).slots_view(),
            final(self).vertex_view() == old(self).vertex_view(),
            old(self).names_view().contains(name@) ==> final(self).active_view() == name@,
            old(self).names_view().contains(name@) ==> 0 <= final(self).active_index_view()
                < final(self).names_view().len(),
            old(self).names_view().contains(name@) ==> final(self).names_view()[final(self).active_index_view()]
                == name@,
            !old(self).names_view().contains(name@) ==> final(self).active_index_view()
                == old(self).active_index_view(),
    {
        let mut i: usize = 0;
        while i < self.names.len()
            invariant
                self == old(self),
                old(self).wf(),
                i <= self.names@.len(),
                forall|q: int| 0 <= q < i ==> #[trigger] views(self.names@)[q] != name@,
            decreases self.names@.len() - i,
        {
            if same_name(self.names[i].as_str(), name) {
                let changed = i != self.active;
                proof {
                    if changed {
                        lemma_sorted_distinct(views(self.names@), i as int, self.active as int);
                    }
                }
                self.active = i;
                assert(views(self.names@)[i as int] == name@);
                return changed;
            }
            i = i + 1;
        }
        false
    }
}

} // verus!
