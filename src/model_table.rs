use vstd::prelude::*;

verus! {

/// Model names, none repeated, each with the value registered under it.
pub struct ModelTable<V> {
    entries: Vec<(String, V)>,
}

/// The first position in `s` whose name is `name`, if any.
pub open spec fn position_of<V>(s: Seq<(String, V)>, name: Seq<char>) -> Option<int>
    decreases s.len(),
{
    if s.len() == 0 {
        None
    } else if s.last().0@ == name {
        match position_of(s.drop_last(), name) {
            Some(i) => Some(i),
            None => Some(s.len() - 1),
        }
    } else {
        position_of(s.drop_last(), name)
    }
}

/// The names of `s` as a map to their values.
pub open spec fn entries_map<V>(s: Seq<(String, V)>) -> Map<Seq<char>, V>
    decreases s.len(),
{
    if s.len() == 0 {
        Map::empty()
    } else {
        entries_map(s.drop_last()).insert(s.last().0@, s.last().1)
    }
}

/// No name occurs twice in `s`.
pub open spec fn names_unique<V>(s: Seq<(String, V)>) -> bool {
    forall|i: int, j: int| 0 <= i < j < s.len() ==> s[i].0@ != s[j].0@
}

proof fn lemma_map_contains<V>(s: Seq<(String, V)>, name: Seq<char>)
    ensures
        entries_map(s).contains_key(name) <==> exists|i: int| 0 <= i < s.len() && s[i].0@ == name,
    decreases s.len(),
{
    if s.len() > 0 {
        lemma_map_contains(s.drop_last(), name);
        if exists|i: int| 0 <= i < s.len() && s[i].0@ == name {
            let i = choose|i: int| 0 <= i < s.len() && s[i].0@ == name;
            if i < s.len() - 1 {
                assert(s.drop_last()[i] == s[i]);
            }
        }
        if exists|i: int| 0 <= i < s.len() - 1 && s.drop_last()[i].0@ == name {
            let i = choose|i: int| 0 <= i < s.len() - 1 && s.drop_last()[i].0@ == name;
            assert(s[i] == s.drop_last()[i]);
        }
    }
}

proof fn lemma_map_value<V>(s: Seq<(String, V)>, i: int)
    requires
        names_unique(s),
        0 <= i < s.len(),
    ensures
        entries_map(s).contains_key(s[i].0@),
        entries_map(s)[s[i].0@] == s[i].1,
    decreases s.len(),
{
    if i < s.len() - 1 {
        lemma_map_value(s.drop_last(), i);
        assert(s.drop_last()[i] == s[i]);
    }
}

impl<V> ModelTable<V> {
    pub closed spec fn view(&self) -> Map<Seq<char>, V> {
        entries_map(self.entries@)
    }

    pub closed spec fn wf(&self) -> bool {
        names_unique(self.entries@)
    }

    /// A table with no models.
    pub fn new() -> (r: Self)
        ensures
            r.wf(),
            r.view() == Map::<Seq<char>, V>::empty(),
    {
        ModelTable { entries: Vec::new() }
    }

    fn find(&self, name: &String) -> (r: Option<usize>)
        requires
            self.wf(),
        ensures
            match r {
                Some(i) => i < self.entries@.len() && self.entries@[i as int].0@ == name@,
                None => forall|i: int| 0 <= i < self.entries@.len() ==> self.entries@[i].0@ != name@,
            },
    {
        let mut i: usize = 0;
        while i < self.entries.len()
            invariant
                i <= self.entries@.len(),
                forall|j: int| 0 <= j < i ==> self.entries@[j].0@ != name@,
            decreases self.entries@.len() - i,
        {
            if self.entries[i].0 == *name {
                return Some(i);
            }
            i = i + 1;
        }
        None
    }

    /// Whether `name` has a value in the table.
    pub fn contains(&self, name: &String) -> (r: bool)
        requires
            self.wf(),
        ensures
            r == self.view().contains_key(name@),
    {
        proof {
            lemma_map_contains(self.entries@, name@);
        }
        self.find(name).is_some()
    }

    /// The value registered under `name`, if any.
    pub fn get(&self, name: &String) -> (r: Option<&V>)
        requires
            self.wf(),
        ensures
            match r {
                Some(v) => self.view().contains_key(name@) && *v == self.view()[name@],
                None => !self.view().contains_key(name@),
            },
    {
        proof {
            lemma_map_contains(self.entries@, name@);
        }
        match self.find(name) {
            Some(i) => {
                proof {
                    lemma_map_value(self.entries@, i as int);
                }
                Some(&self.entries[i].1)
            },
            None => None,
        }
    }

    /// Adds `name` with `value`; `name` must be new to the table.
    pub fn insert_new(&mut self, name: String, value: V)
        requires
            old(self).wf(),
            !old(self).view().contains_key(name@),
        ensures
            final(self).wf(),
            final(self).view() == old(self).view().insert(name@, value),
    {
        proof {
            lemma_map_contains(self.entries@, name@);
        }
        let ghost prev = self.entries@;
        self.entries.push((name, value));
        assert(self.entries@.drop_last() =~= prev);
    }
}

} // verus!
