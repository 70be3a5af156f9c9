//! A map from names to values (header names, query parameter names),
//! where each name occurs at most once.

use vstd::prelude::*;

verus! {

/// The map that a list of `(name, value)` entries with distinct names stands for.
pub open spec fn entries_map(s: Seq<(Seq<char>, Seq<char>)>) -> Map<Seq<char>, Seq<char>>
    decreases s.len(),
{
    if s.len() == 0 {
        Map::empty()
    } else {
        entries_map(s.drop_last()).insert(s.last().0, s.last().1)
    }
}

/// No name occurs twice among the entries.
pub open spec fn names_distinct(s: Seq<(Seq<char>, Seq<char>)>) -> bool {
    forall|i: int, j: int| 0 <= i < j < s.len() ==> s[i].0 != s[j].0
}

proof fn lemma_entries_map_dom(s: Seq<(Seq<char>, Seq<char>)>, k: Seq<char>)
    ensures
        entries_map(s).contains_key(k) <==> exists|i: int| 0 <= i < s.len() && s[i].0 == k,
    decreases s.len(),
{
    if s.len() > 0 {
        lemma_entries_map_dom(s.drop_last(), k);
        if entries_map(s).contains_key(k) && k != s.last().0 {
            let i = choose|i: int| 0 <= i < s.drop_last().len() && s.drop_last()[i].0 == k;
            assert(s[i].0 == k);
        }
        if exists|i: int| 0 <= i < s.len() && s[i].0 == k {
            let i = choose|i: int| 0 <= i < s.len() && s[i].0 == k;
            if i < s.len() - 1 {
                assert(s.drop_last()[i].0 == k);
            }
        }
    }
}

proof fn lemma_entries_map_update(s: Seq<(Seq<char>, Seq<char>)>, i: int, v: Seq<char>)
    requires
        names_distinct(s),
        0 <= i < s.len(),
    ensures
        entries_map(s.update(i, (s[i].0, v))) == entries_map(s).insert(s[i].0, v),
    decreases s.len(),
{
    let t = s.update(i, (s[i].0, v));
    if i == s.len() - 1 {
        assert(t.drop_last() =~= s.drop_last());
        assert(entries_map(t) =~= entries_map(s).insert(s[i].0, v));
    } else {
        assert(t.drop_last() =~= s.drop_last().update(i, (s[i].0, v)));
        lemma_entries_map_update(s.drop_last(), i, v);
        assert(s[i].0 != s.last().0);
        assert(entries_map(t) =~= entries_map(s).insert(s[i].0, v));
    }
}

proof fn lemma_entries_map_at(s: Seq<(Seq<char>, Seq<char>)>, i: int)
    requires
        names_distinct(s),
        0 <= i < s.len(),
    ensures
        entries_map(s).contains_key(s[i].0),
        entries_map(s)[s[i].0] == s[i].1,
    decreases s.len(),
{
    if i < s.len() - 1 {
        lemma_entries_map_at(s.drop_last(), i);
    }
}

/// Name-value pairs, each name at most once, in the order the names were first given.
pub struct StringMap {
    entries: Vec<(String, String)>,
}

impl StringMap {
    /// The entries as plain values, in order.
    pub closed spec fn entry_views(&self) -> Seq<(Seq<char>, Seq<char>)> {
        self.entries@.map_values(|e: (String, String)| (e.0@, e.1@))
    }

    #[verifier::type_invariant]
    closed spec fn inv(self) -> bool {
        names_distinct(self.entry_views())
    }
}

impl View for StringMap {
    type V = Map<Seq<char>, Seq<char>>;

    closed spec fn view(&self) -> Map<Seq<char>, Seq<char>> {
        entries_map(self.entry_views())
    }
}

impl DeepView for StringMap {
    type V = Map<Seq<char>, Seq<char>>;

    open spec fn deep_view(&self) -> Map<Seq<char>, Seq<char>> {
        self@
    }
}

impl StringMap {
    /// An empty map.
    pub fn new() -> (m: StringMap)
        ensures
            m@ == Map::<Seq<char>, Seq<char>>::empty(),
    {
        let m = StringMap { entries: Vec::new() };
        assert(m.entry_views() =~= Seq::<(Seq<char>, Seq<char>)>::empty());
        m
    }

    /// Maps `name` to `value`, replacing the value `name` had before, if any.
    pub fn insert(&mut self, name: String, value: String)
        ensures
            final(self)@ == old(self)@.insert(name@, value@),
    {
        proof {
            use_type_invariant(&*self);
        }
        let mut taken = StringMap::new();
        std::mem::swap(&mut taken, self);
        proof {
            use_type_invariant(&taken);
        }
        let ghost old_views = taken.entry_views();
        let StringMap { mut entries } = taken;
        let n = entries.len();
        let mut i: usize = 0;
        while i < n
            invariant
                n == entries.len(),
                i <= n,
                entries@.map_values(|e: (String, String)| (e.0@, e.1@)) == old_views,
                names_distinct(old_views),
                old_views == old(self).entry_views(),
                forall|j: int| 0 <= j < i ==> old_views[j].0 != name@,
            decreases n - i,
        {
            if entries[i].0 == name {
                proof {
                    lemma_entries_map_update(old_views, i as int, value@);
                }
                entries.set(i, (name, value));
                let ghost new_views = entries@.map_values(|e: (String, String)| (e.0@, e.1@));
                assert(new_views =~= old_views.update(i as int, (old_views[i as int].0, value@)));
                *self = StringMap { entries };
                return;
            }
            assert(old_views[i as int].0 != name@);
            i += 1;
        }
        proof {
            lemma_entries_map_dom(old_views, name@);
        }
        entries.push((name, value));
        let ghost new_views = entries@.map_values(|e: (String, String)| (e.0@, e.1@));
        assert(new_views =~= old_views.push((name@, value@)));
        assert(new_views.drop_last() =~= old_views);
        *self = StringMap { entries };
    }

    /// The value that `name` maps to, if any.
    pub fn get(&self, name: &str) -> (v: Option<&String>)
        ensures
            v is Some <==> self@.contains_key(name@),
            v matches Some(v) ==> v@ == self@[name@],
    {
        proof {
            use_type_invariant(self);
        }
        broadcast use vstd::string::to_string_from_display_ensures_for_str;
        let key = name.to_string();
        let ghost views = self.entry_views();
        let n = self.entries.len();
        let mut i: usize = 0;
        while i < n
            invariant
                n == self.entries.len(),
                i <= n,
                views == self.entry_views(),
                key@ == name@,
                names_distinct(views),
                forall|j: int| 0 <= j < i ==> views[j].0 != name@,
            decreases n - i,
        {
            if self.entries[i].0 == key {
                proof {
                    lemma_entries_map_at(views, i as int);
                }
                return Some(&self.entries[i].1);
            }
            assert(views[i as int].0 != name@);
            i += 1;
        }
        proof {
            lemma_entries_map_dom(views, name@);
        }
        None
    }

    /// The number of names in the map.
    pub fn len(&self) -> (n: usize)
        ensures
            n == self@.len(),
    {
        proof {
            use_type_invariant(self);
            self.lemma_len();
        }
        self.entries.len()
    }

    proof fn lemma_len(&self)
        requires
            names_distinct(self.entry_views()),
        ensures
            self@.len() == self.entry_views().len(),
    {
        lemma_entries_map_len(self.entry_views());
    }

    /// The entries, in the order their names were first given.
    pub fn entries(&self) -> (es: &Vec<(String, String)>)
        ensures
            es@.map_values(|e: (String, String)| (e.0@, e.1@)) == self.entry_views(),
            names_distinct(self.entry_views()),
            entries_map(self.entry_views()) == self@,
    {
        proof {
            use_type_invariant(self);
        }
        &self.entries
    }
}

proof fn lemma_entries_map_len(s: Seq<(Seq<char>, Seq<char>)>)
    requires
        names_distinct(s),
    ensures
        entries_map(s).dom().finite(),
        entries_map(s).len() == s.len(),
    decreases s.len(),
{
    if s.len() > 0 {
        lemma_entries_map_len(s.drop_last());
        lemma_entries_map_dom(s.drop_last(), s.last().0);
        assert(!entries_map(s.drop_last()).contains_key(s.last().0));
    }
}

} // verus!
