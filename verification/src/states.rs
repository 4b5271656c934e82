use vstd::prelude::*;

verus! {

/// Position of the first entry whose key is `name`.
pub open spec fn index_of<V>(entries: Seq<(Seq<char>, V)>, name: Seq<char>) -> Option<int>
    decreases entries.len(),
{
    if entries.len() == 0 {
        None
    } else if entries[0].0 == name {
        Some(0)
    } else {
        match index_of(entries.drop_first(), name) {
            Some(i) => Some(i + 1),
            None => None,
        }
    }
}

/// The state recorded for `name`, if any.
pub open spec fn lookup(entries: Seq<(Seq<char>, bool)>, name: Seq<char>) -> Option<bool> {
    match index_of(entries, name) {
        Some(i) => Some(entries[i].1),
        None => None,
    }
}

/// The entries after recording `enabled` for `name`: an existing entry is
/// updated in place, a new name is appended.
pub open spec fn with_state(entries: Seq<(Seq<char>, bool)>, name: Seq<char>, enabled: bool) -> Seq<
    (Seq<char>, bool),
> {
    match index_of(entries, name) {
        Some(i) => entries.update(i, (name, enabled)),
        None => entries.push((name, enabled)),
    }
}

pub proof fn lemma_index_of_bounds<V>(entries: Seq<(Seq<char>, V)>, name: Seq<char>)
    ensures
        index_of(entries, name) matches Some(i) ==> {
            &&& 0 <= i < entries.len()
            &&& entries[i].0 == name
            &&& forall|j: int| 0 <= j < i ==> entries[j].0 != name
        },
        index_of(entries, name) is None ==> forall|j: int|
            0 <= j < entries.len() ==> entries[j].0 != name,
    decreases entries.len(),
{
    if entries.len() > 0 && entries[0].0 != name {
        lemma_index_of_bounds(entries.drop_first(), name);
        assert forall|j: int| 1 <= j < entries.len() implies entries[j] == entries.drop_first()[j
            - 1] by {}
    }
}

/// `index_of` is the first position holding `name`.
pub proof fn lemma_index_of_is_first<V>(entries: Seq<(Seq<char>, V)>, name: Seq<char>, i: int)
    requires
        0 <= i < entries.len(),
        entries[i].0 == name,
        forall|j: int| 0 <= j < i ==> entries[j].0 != name,
    ensures
        index_of(entries, name) == Some(i),
    decreases entries.len(),
{
    if i > 0 {
        lemma_index_of_is_first(entries.drop_first(), name, i - 1);
    }
}

/// `index_of` is `None` when no entry holds `name`.
pub proof fn lemma_index_of_absent<V>(entries: Seq<(Seq<char>, V)>, name: Seq<char>)
    requires
        forall|j: int| 0 <= j < entries.len() ==> entries[j].0 != name,
    ensures
        index_of(entries, name) is None,
    decreases entries.len(),
{
    if entries.len() > 0 {
        lemma_index_of_absent(entries.drop_first(), name);
    }
}

/// No name is recorded twice.
pub open spec fn names_unique(entries: Seq<(Seq<char>, bool)>) -> bool {
    forall|i: int, j: int|
        #![trigger entries[i], entries[j]]
        0 <= i < j < entries.len() ==> entries[i].0 != entries[j].0
}

/// Recording a state keeps every name recorded once.
pub proof fn lemma_with_state_keeps_names_unique(
    entries: Seq<(Seq<char>, bool)>,
    name: Seq<char>,
    enabled: bool,
)
    requires
        names_unique(entries),
    ensures
        names_unique(with_state(entries, name, enabled)),
{
    lemma_index_of_bounds(entries, name);
    let w = with_state(entries, name, enabled);
    match index_of(entries, name) {
        Some(k) => {
            assert forall|i: int, j: int| 0 <= i < j < w.len() implies #[trigger] w[i].0
                != #[trigger] w[j].0 by {
                assert(w[i].0 == entries[i].0);
                assert(w[j].0 == entries[j].0);
                assert(entries[i].0 != entries[j].0);
            }
        },
        None => {
            assert forall|i: int, j: int| 0 <= i < j < w.len() implies #[trigger] w[i].0
                != #[trigger] w[j].0 by {
                if j < entries.len() {
                    assert(entries[i].0 != entries[j].0);
                } else {
                    assert(entries[i].0 != name);
                }
            }
        },
    }
}

/// Which configured MCP servers the user has switched on, by server name.
pub struct McpServerStates {
    entries: Vec<(String, bool)>,
}

impl View for McpServerStates {
    type V = Seq<(Seq<char>, bool)>;

    closed spec fn view(&self) -> Seq<(Seq<char>, bool)> {
        self.entries@.map_values(|e: (String, bool)| (e.0@, e.1))
    }
}

impl McpServerStates {
    #[verifier::type_invariant]
    spec fn names_recorded_once(self) -> bool {
        names_unique(self@)
    }

    /// No server switched on or off yet.
    pub fn new() -> (r: Self)
        ensures
            r@ == Seq::<(Seq<char>, bool)>::empty(),
            names_unique(r@),
    {
        let r = McpServerStates { entries: Vec::new() };
        assert(r@ =~= Seq::<(Seq<char>, bool)>::empty());
        r
    }

    pub fn len(&self) -> (n: usize)
        ensures
            n == self@.len(),
    {
        self.entries.len()
    }

    pub fn is_empty(&self) -> (b: bool)
        ensures
            b == (self@.len() == 0),
    {
        self.entries.len() == 0
    }

    /// The name and state of the entry at `i`, in recording order.
    pub fn entry(&self, i: usize) -> (r: (String, bool))
        requires
            i < self@.len(),
        ensures
            r.0@ == self@[i as int].0,
            r.1 == self@[i as int].1,
    {
        let e = &self.entries[i];
        (e.0.clone(), e.1)
    }

    fn find(&self, name: &str) -> (r: Option<usize>)
        ensures
            r matches Some(i) ==> index_of(self@, name@) == Some(i as int),
            r is None ==> index_of(self@, name@) is None,
    {
        let target = name.to_string();
        let mut i: usize = 0;
        while i < self.entries.len()
            invariant
                0 <= i <= self.entries@.len(),
                self@.len() == self.entries@.len(),
                target@ == name@,
                forall|j: int| 0 <= j < i ==> self@[j].0 != name@,
            decreases self.entries@.len() - i,
        {
            if self.entries[i].0 == target {
                proof {
                    lemma_index_of_is_first(self@, name@, i as int);
                }
                return Some(i);
            }
            i += 1;
        }
        proof {
            lemma_index_of_absent(self@, name@);
        }
        None
    }

    /// The state recorded for `name`, if any.
    pub fn get(&self, name: &str) -> (r: Option<bool>)
        ensures
            r == lookup(self@, name@),
    {
        proof {
            lemma_index_of_bounds(self@, name@);
        }
        match self.find(name) {
            Some(i) => {
                assert(index_of(self@, name@) == Some(i as int));
                assert(self@[i as int].1 == self.entries@[i as int].1);
                Some(self.entries[i].1)
            },
            None => None,
        }
    }

    /// Records `enabled` for `name`, replacing an earlier state of the same name.
    pub fn insert(&mut self, name: String, enabled: bool)
        ensures
            final(self)@ == with_state(old(self)@, name@, enabled),
            names_unique(final(self)@),
    {
        proof {
            use_type_invariant(&*self);
            lemma_index_of_bounds(self@, name@);
            lemma_with_state_keeps_names_unique(self@, name@, enabled);
        }
        let found = self.find(name.as_str());
        let ghost nm = name@;
        let mut entries: Vec<(String, bool)> = Vec::new();
        std::mem::swap(&mut entries, &mut self.entries);
        match found {
            Some(i) => {
                entries.set(i, (name, enabled));
            },
            None => {
                entries.push((name, enabled));
            },
        }
        let ghost updated = entries@.map_values(|e: (String, bool)| (e.0@, e.1));
        proof {
            match found {
                Some(i) => {
                    assert(updated =~= old(self)@.update(i as int, (nm, enabled)));
                },
                None => {
                    assert(updated =~= old(self)@.push((nm, enabled)));
                },
            }
        }
        self.entries = entries;
    }
}

impl Clone for McpServerStates {
    fn clone(&self) -> (r: Self)
        ensures
            r@ == self@,
    {
        proof {
            use_type_invariant(self);
        }
        let mut entries: Vec<(String, bool)> = Vec::new();
        let mut i: usize = 0;
        while i < self.entries.len()
            invariant
                0 <= i <= self.entries@.len(),
                entries@.len() == i,
                forall|j: int|
                    0 <= j < i ==> entries@[j].0@ == self.entries@[j].0@ && entries@[j].1
                        == self.entries@[j].1,
            decreases self.entries@.len() - i,
        {
            let e = &self.entries[i];
            entries.push((e.0.clone(), e.1));
            i += 1;
        }
        assert(entries@.map_values(|e: (String, bool)| (e.0@, e.1)) =~= self@);
        McpServerStates { entries }
    }
}

/// Reading a server's state back gives what was last recorded for it, and
/// recording one server leaves the state of every other server as it was.
pub proof fn lemma_state_read_after_write(
    entries: Seq<(Seq<char>, bool)>,
    name: Seq<char>,
    enabled: bool,
    other: Seq<char>,
)
    requires
        other != name,
    ensures
        lookup(with_state(entries, name, enabled), name) == Some(enabled),
        lookup(with_state(entries, name, enabled), other) == lookup(entries, other),
{
    lemma_index_of_bounds(entries, name);
    lemma_index_of_bounds(entries, other);
    let w = with_state(entries, name, enabled);
    match index_of(entries, name) {
        Some(i) => {
            lemma_index_of_is_first(w, name, i);
            match index_of(entries, other) {
                Some(k) => {
                    lemma_index_of_is_first(w, other, k);
                },
                None => {
                    lemma_index_of_absent(w, other);
                },
            }
        },
        None => {
            lemma_index_of_is_first(w, name, entries.len() as int);
            match index_of(entries, other) {
                Some(k) => {
                    lemma_index_of_is_first(w, other, k);
                },
                None => {
                    lemma_index_of_absent(w, other);
                },
            }
        },
    }
}

} // verus!
