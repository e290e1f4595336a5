//! The user's state of each pre-defined mod, keyed by mod id.
use vstd::prelude::*;
use crate::text::text_eq;

verus! {

/// A mod state as plain values: whether it is enabled, and the file last downloaded for it.
pub type StateView = (bool, Option<Seq<char>>);

/// User-controlled state of a pre-defined mod.
#[derive(Clone, Debug)]
pub struct PredefinedModState {
    pub enabled: bool,
    /// Filename of the last downloaded artifact; used to remove it when disabled.
    pub filename: Option<String>,
}

impl View for PredefinedModState {
    type V = StateView;

    open spec fn view(&self) -> StateView {
        (self.enabled, self.filename.deep_view())
    }
}

/// The state of a mod that has no entry yet: disabled, no file known.
pub open spec fn default_state() -> StateView {
    (false, None)
}

impl Default for PredefinedModState {
    fn default() -> (r: Self)
        ensures
            r@ == default_state(),
    {
        PredefinedModState { enabled: false, filename: None }
    }
}

/// Value of `enabled` when a stored state omits it.
pub fn default_true() -> (r: bool)
    ensures
        r,
{
    true
}

/// A copy of an optional string.
pub fn copy_opt_string(s: &Option<String>) -> (r: Option<String>)
    ensures
        r.deep_view() == s.deep_view(),
{
    match s {
        Some(f) => Some(f.clone()),
        None => None,
    }
}

impl PredefinedModState {
    /// A copy of this state.
    pub fn duplicate(&self) -> (r: Self)
        ensures
            r@ == self@,
    {
        PredefinedModState { enabled: self.enabled, filename: copy_opt_string(&self.filename) }
    }
}

/// The map that a list of (id, state) pairs denotes; a later pair overrides an earlier one.
pub open spec fn entries_map(s: Seq<(String, PredefinedModState)>) -> Map<Seq<char>, StateView>
    decreases s.len(),
{
    if s.len() == 0 {
        Map::empty()
    } else {
        entries_map(s.drop_last()).insert(s.last().0@, s.last().1@)
    }
}

/// No id occurs twice.
pub open spec fn keys_distinct(s: Seq<(String, PredefinedModState)>) -> bool {
    forall|i: int, j: int| 0 <= i < j < s.len() ==> s[i].0@ != s[j].0@
}

/// The state of `id` in `m`, or the default state where `m` has none.
pub open spec fn state_or_default(m: Map<Seq<char>, StateView>, id: Seq<char>) -> StateView {
    if m.contains_key(id) {
        m[id]
    } else {
        default_state()
    }
}

proof fn lemma_entries_map_dom(s: Seq<(String, PredefinedModState)>, k: Seq<char>)
    ensures
        entries_map(s).contains_key(k) <==> exists|i: int| 0 <= i < s.len() && #[trigger] s[i].0@ == k,
    decreases s.len(),
{
    if s.len() > 0 {
        lemma_entries_map_dom(s.drop_last(), k);
        if entries_map(s).contains_key(k) && k != s.last().0@ {
            let i = choose|i: int| 0 <= i < s.drop_last().len() && #[trigger] s.drop_last()[i].0@ == k;
            assert(s[i].0@ == k);
        }
        if exists|i: int| 0 <= i < s.len() && #[trigger] s[i].0@ == k {
            let i = choose|i: int| 0 <= i < s.len() && #[trigger] s[i].0@ == k;
            if i < s.len() - 1 {
                assert(s.drop_last()[i].0@ == k);
            }
        }
    }
}

proof fn lemma_entries_map_value(s: Seq<(String, PredefinedModState)>, i: int)
    requires
        keys_distinct(s),
        0 <= i < s.len(),
    ensures
        entries_map(s).contains_key(s[i].0@),
        entries_map(s)[s[i].0@] == s[i].1@,
    decreases s.len(),
{
    if i < s.len() - 1 {
        assert(s.drop_last()[i] == s[i]);
        lemma_entries_map_value(s.drop_last(), i);
    }
}

proof fn lemma_entries_map_update(s: Seq<(String, PredefinedModState)>, i: int, e: (String, PredefinedModState))
    requires
        keys_distinct(s),
        0 <= i < s.len(),
        e.0@ == s[i].0@,
    ensures
        entries_map(s.update(i, e)) == entries_map(s).insert(e.0@, e.1@),
    decreases s.len(),
{
    let t = s.update(i, e);
    if i == s.len() - 1 {
        assert(t.drop_last() =~= s.drop_last());
        lemma_entries_map_dom(s.drop_last(), e.0@);
        assert(!entries_map(s.drop_last()).contains_key(e.0@)) by {
            if entries_map(s.drop_last()).contains_key(e.0@) {
                let j = choose|j: int| 0 <= j < s.drop_last().len() && #[trigger] s.drop_last()[j].0@ == e.0@;
                assert(s[j].0@ == s[i].0@);
            }
        }
        assert(entries_map(t) =~= entries_map(s).insert(e.0@, e.1@));
    } else {
        assert(t.drop_last() =~= s.drop_last().update(i, e));
        lemma_entries_map_update(s.drop_last(), i, e);
        assert(s.last().0@ != e.0@);
        assert(entries_map(t) =~= entries_map(s).insert(e.0@, e.1@));
    }
}

fn index_of(entries: &Vec<(String, PredefinedModState)>, id: &str) -> (r: Option<usize>)
    ensures
        match r {
            Some(i) => i < entries@.len() && entries@[i as int].0@ == id@,
            None => forall|i: int| 0 <= i < entries@.len() ==> #[trigger] entries@[i].0@ != id@,
        },
{
    let mut i: usize = 0;
    while i < entries.len()
        invariant
            i <= entries@.len(),
            forall|j: int| 0 <= j < i ==> #[trigger] entries@[j].0@ != id@,
        decreases entries@.len() - i,
    {
        if text_eq(entries[i].0.as_str(), id) {
            return Some(i);
        }
        i = i + 1;
    }
    None
}

proof fn lemma_entries_map_same_views(s: Seq<(String, PredefinedModState)>, t: Seq<(String, PredefinedModState)>)
    requires
        s.len() == t.len(),
        forall|i: int| 0 <= i < s.len() ==> #[trigger] s[i].0@ == t[i].0@ && s[i].1@ == t[i].1@,
    ensures
        entries_map(s) == entries_map(t),
    decreases s.len(),
{
    if s.len() > 0 {
        assert forall|i: int| 0 <= i < s.drop_last().len() implies #[trigger] s.drop_last()[i].0@
            == t.drop_last()[i].0@ && s.drop_last()[i].1@ == t.drop_last()[i].1@ by {
            assert(s.drop_last()[i] == s[i] && t.drop_last()[i] == t[i]);
        }
        lemma_entries_map_same_views(s.drop_last(), t.drop_last());
        assert(s.last().0@ == t.last().0@ && s.last().1@ == t.last().1@);
    }
}

/// The state of each pre-defined mod, keyed by mod id.
pub struct ModStates {
    entries: Vec<(String, PredefinedModState)>,
}

impl View for ModStates {
    type V = Map<Seq<char>, StateView>;

    closed spec fn view(&self) -> Map<Seq<char>, StateView> {
        entries_map(self.entries@)
    }
}

impl ModStates {
    #[verifier::type_invariant]
    closed spec fn inv(&self) -> bool {
        keys_distinct(self.entries@)
    }

    /// No mod has a state yet.
    pub fn new() -> (r: Self)
        ensures
            r@ == Map::<Seq<char>, StateView>::empty(),
    {
        ModStates { entries: Vec::new() }
    }

    /// The id stored at index `i`.
    pub closed spec fn key_at(&self, i: int) -> Seq<char> {
        self.entries@[i].0@
    }

    /// Number of mods that have a state; the indices below it hold each such mod's id exactly once.
    pub fn len(&self) -> (r: usize)
        ensures
            r == self@.dom().len(),
            self@.dom().finite(),
            forall|i: int, j: int| 0 <= i < j < r ==> #[trigger] self.key_at(i) != #[trigger] self.key_at(j),
            forall|k: Seq<char>| #[trigger] self@.contains_key(k) ==> exists|i: int| 0 <= i < r && self.key_at(i) == k,
    {
        proof {
            use_type_invariant(self);
            self.lemma_dom_len();
            assert forall|k: Seq<char>| #[trigger] self@.contains_key(k) implies exists|i: int|
                0 <= i < self.entries@.len() && self.key_at(i) == k by {
                lemma_entries_map_dom(self.entries@, k);
                let i = choose|i: int| 0 <= i < self.entries@.len() && #[trigger] self.entries@[i].0@ == k;
                assert(self.key_at(i) == k);
            }
        }
        self.entries.len()
    }

    proof fn lemma_dom_len(&self)
        requires
            keys_distinct(self.entries@),
        ensures
            self@.dom().len() == self.entries@.len(),
            self@.dom().finite(),
    {
        Self::lemma_dom_len_seq(self.entries@);
    }

    proof fn lemma_dom_len_seq(s: Seq<(String, PredefinedModState)>)
        requires
            keys_distinct(s),
        ensures
            entries_map(s).dom().len() == s.len(),
            entries_map(s).dom().finite(),
        decreases s.len(),
    {
        if s.len() > 0 {
            let p = s.drop_last();
            assert(keys_distinct(p));
            Self::lemma_dom_len_seq(p);
            lemma_entries_map_dom(p, s.last().0@);
            if entries_map(p).contains_key(s.last().0@) {
                let j = choose|j: int| 0 <= j < p.len() && #[trigger] p[j].0@ == s.last().0@;
                assert(s[j].0@ == s[s.len() - 1].0@);
            }
        }
    }

    /// The (id, state) pair stored at index `i`.
    pub fn entry_at(&self, i: usize) -> (r: (&String, &PredefinedModState))
        requires
            i < self@.dom().len(),
        ensures
            r.0@ == self.key_at(i as int),
            self@.contains_key(r.0@),
            self@[r.0@] == r.1@,
    {
        proof {
            use_type_invariant(self);
            self.lemma_dom_len();
            lemma_entries_map_value(self.entries@, i as int);
        }
        (&self.entries[i].0, &self.entries[i].1)
    }

    /// The state of `id`, if it has one.
    pub fn get(&self, id: &str) -> (r: Option<&PredefinedModState>)
        ensures
            match r {
                Some(st) => self@.contains_key(id@) && st@ == self@[id@],
                None => !self@.contains_key(id@),
            },
    {
        proof {
            use_type_invariant(self);
            lemma_entries_map_dom(self.entries@, id@);
        }
        match index_of(&self.entries, id) {
            Some(i) => {
                proof {
                    lemma_entries_map_value(self.entries@, i as int);
                }
                Some(&self.entries[i].1)
            },
            None => None,
        }
    }

    /// The state of `id`, or the default state where it has none.
    pub fn get_or_default(&self, id: &str) -> (r: PredefinedModState)
        ensures
            r@ == state_or_default(self@, id@),
    {
        match self.get(id) {
            Some(st) => st.duplicate(),
            None => PredefinedModState::default(),
        }
    }

    /// A copy of these states.
    pub fn duplicate(&self) -> (r: Self)
        ensures
            r@ == self@,
    {
        proof {
            use_type_invariant(self);
        }
        let mut entries: Vec<(String, PredefinedModState)> = Vec::new();
        let mut i: usize = 0;
        while i < self.entries.len()
            invariant
                i <= self.entries@.len(),
                entries@.len() == i,
                forall|j: int| 0 <= j < i ==> #[trigger] entries@[j].0@ == self.entries@[j].0@ && entries@[j].1@
                    == self.entries@[j].1@,
            decreases self.entries@.len() - i,
        {
            entries.push((self.entries[i].0.clone(), self.entries[i].1.duplicate()));
            i = i + 1;
        }
        proof {
            lemma_entries_map_same_views(entries@, self.entries@);
            assert forall|a: int, b: int| 0 <= a < b < entries@.len() implies entries@[a].0@ != entries@[b].0@ by {
                assert(self.entries@[a].0@ != self.entries@[b].0@);
            }
        }
        ModStates { entries }
    }

    /// Gives `id` the state `st`.
    pub fn insert(&mut self, id: String, st: PredefinedModState)
        ensures
            final(self)@ == old(self)@.insert(id@, st@),
    {
        proof {
            use_type_invariant(&*self);
        }
        let mut entries: Vec<(String, PredefinedModState)> = Vec::new();
        std::mem::swap(&mut entries, &mut self.entries);
        let ghost old_entries = entries@;
        let found = index_of(&entries, id.as_str());
        if let Some(i) = found {
            let e = (id, st);
            let _old = entries.remove(i);
            entries.insert(i, e);
            proof {
                assert(entries@ =~= old_entries.update(i as int, e));
                lemma_entries_map_update(old_entries, i as int, e);
                assert forall|a: int, b: int| 0 <= a < b < entries@.len() implies entries@[a].0@
                    != entries@[b].0@ by {
                    if a != i && b != i {
                        assert(entries@[a] == old_entries[a] && entries@[b] == old_entries[b]);
                    } else if a == i {
                        assert(entries@[b] == old_entries[b]);
                    } else {
                        assert(entries@[a] == old_entries[a]);
                    }
                }
            }
            self.entries = entries;
        } else {
            let ghost idv = id@;
            let ghost stv = st@;
            entries.push((id, st));
            proof {
                assert(entries@.drop_last() =~= old_entries);
                assert(entries_map(entries@) == entries_map(old_entries).insert(idv, stv));
            }
            self.entries = entries;
        }
    }

    /// Sets whether `id` is enabled; a mod with no state gets the default state first.
    pub fn set_enabled(&mut self, id: &str, enabled: bool)
        ensures
            final(self)@ == old(self)@.insert(id@, (enabled, state_or_default(old(self)@, id@).1)),
    {
        let mut st = self.get_or_default(id);
        st.enabled = enabled;
        self.insert(String::from_str(id), st);
    }

    /// Records the file downloaded for `id`; a mod with no state gets the default state first.
    pub fn set_filename(&mut self, id: &str, filename: String)
        ensures
            final(self)@ == old(self)@.insert(
                id@,
                (state_or_default(old(self)@, id@).0, Some(filename@)),
            ),
    {
        let mut st = self.get_or_default(id);
        st.filename = Some(filename);
        self.insert(String::from_str(id), st);
    }
}

} // verus!
