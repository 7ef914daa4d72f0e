//! The password vault: a map from entry names to passwords.
//!
//! Entries are kept in a vector in which no name occurs twice; the order of
//! the vector is the order in which names are offered for selection.
use vstd::prelude::*;

verus! {

/// The abstract content of a list of `(name, password)` pairs: each pair is
/// inserted in turn, so a later pair for a name replaces an earlier one.
pub open spec fn entries_map(s: Seq<(Seq<char>, Seq<char>)>) -> Map<Seq<char>, Seq<char>>
    decreases s.len(),
{
    if s.len() == 0 {
        Map::empty()
    } else {
        entries_map(s.drop_last()).insert(s.last().0, s.last().1)
    }
}

/// No name occurs twice in the list.
pub open spec fn keys_distinct(s: Seq<(Seq<char>, Seq<char>)>) -> bool {
    forall|i: int, j: int| 0 <= i < j < s.len() ==> #[trigger] s[i].0 != #[trigger] s[j].0
}

/// The names of the list, in order.
pub open spec fn key_seq(s: Seq<(Seq<char>, Seq<char>)>) -> Seq<Seq<char>> {
    s.map_values(|e: (Seq<char>, Seq<char>)| e.0)
}

/// Every name of the list is in its map, with the password the list gives it.
pub proof fn lemma_entries_map_index(s: Seq<(Seq<char>, Seq<char>)>, i: int)
    requires
        keys_distinct(s),
        0 <= i < s.len(),
    ensures
        entries_map(s).contains_key(s[i].0),
        entries_map(s)[s[i].0] == s[i].1,
    decreases s.len(),
{
    if i < s.len() - 1 {
        let t = s.drop_last();
        assert(keys_distinct(t));
        assert(t[i] == s[i]);
        lemma_entries_map_index(t, i);
        assert(s[i].0 != s[s.len() - 1].0);
    }
}

/// A name in the map of a list occurs in the list.
pub proof fn lemma_entries_map_dom(s: Seq<(Seq<char>, Seq<char>)>, k: Seq<char>)
    requires
        entries_map(s).contains_key(k),
    ensures
        exists|i: int| 0 <= i < s.len() && #[trigger] s[i].0 == k,
    decreases s.len(),
{
    if s.len() > 0 {
        if s.last().0 != k {
            let t = s.drop_last();
            lemma_entries_map_dom(t, k);
            let i = choose|i: int| 0 <= i < t.len() && #[trigger] t[i].0 == k;
            assert(s[i].0 == k);
        } else {
            assert(s[s.len() - 1].0 == k);
        }
    }
}

/// The map of a list holds exactly its names, each with its password.
pub proof fn lemma_entries_map_exact(s: Seq<(Seq<char>, Seq<char>)>)
    requires
        keys_distinct(s),
    ensures
        forall|i: int| 0 <= i < s.len() ==> #[trigger] entries_map(s).contains_key(s[i].0)
            && entries_map(s)[s[i].0] == s[i].1,
        forall|k: Seq<char>| #[trigger] entries_map(s).contains_key(k) ==> exists|i: int|
            0 <= i < s.len() && #[trigger] s[i].0 == k,
{
    assert forall|i: int| 0 <= i < s.len() implies #[trigger] entries_map(s).contains_key(s[i].0)
        && entries_map(s)[s[i].0] == s[i].1 by {
        lemma_entries_map_index(s, i);
    }
    assert forall|k: Seq<char>| #[trigger] entries_map(s).contains_key(k) implies exists|i: int|
        0 <= i < s.len() && #[trigger] s[i].0 == k by {
        lemma_entries_map_dom(s, k);
    }
}

/// The map of a list with distinct names has as many entries as the list.
pub proof fn lemma_entries_map_len(s: Seq<(Seq<char>, Seq<char>)>)
    requires
        keys_distinct(s),
    ensures
        entries_map(s).dom().finite(),
        entries_map(s).dom().len() == s.len(),
    decreases s.len(),
{
    if s.len() > 0 {
        let t = s.drop_last();
        assert(keys_distinct(t));
        lemma_entries_map_len(t);
        if entries_map(t).contains_key(s.last().0) {
            lemma_entries_map_dom(t, s.last().0);
            let i = choose|i: int| 0 <= i < t.len() && #[trigger] t[i].0 == s.last().0;
            assert(s[i].0 == s[s.len() - 1].0);
        }
    }
}

/// The names of a list with distinct names: no duplicates, each one in the
/// map, and every name of the map among them.
pub proof fn lemma_key_seq(s: Seq<(Seq<char>, Seq<char>)>)
    requires
        keys_distinct(s),
    ensures
        key_seq(s).no_duplicates(),
        key_seq(s).len() == s.len(),
        forall|i: int|
            0 <= i < key_seq(s).len() ==> #[trigger] entries_map(s).contains_key(key_seq(s)[i]),
        forall|k: Seq<char>| #[trigger] entries_map(s).contains_key(k) ==> key_seq(s).contains(k),
{
    lemma_entries_map_exact(s);
    assert forall|k: Seq<char>| #[trigger] entries_map(s).contains_key(k) implies key_seq(
        s,
    ).contains(k) by {
        let i = choose|i: int| 0 <= i < s.len() && #[trigger] s[i].0 == k;
        assert(key_seq(s)[i] == k);
    }
    assert forall|i: int, j: int|
        0 <= i < key_seq(s).len() && 0 <= j < key_seq(s).len() && i != j implies key_seq(s)[i]
        != key_seq(s)[j] by {
        if i < j {
            assert(s[i].0 != s[j].0);
        } else {
            assert(s[j].0 != s[i].0);
        }
    }
    assert forall|i: int| 0 <= i < key_seq(s).len() implies #[trigger] entries_map(
        s,
    ).contains_key(key_seq(s)[i]) by {
        assert(s[i].0 == key_seq(s)[i]);
    }
}

/// A password vault.
pub struct Vault {
    entries: Vec<(String, String)>,
}

impl View for Vault {
    type V = Map<Seq<char>, Seq<char>>;

    closed spec fn view(&self) -> Map<Seq<char>, Seq<char>> {
        entries_map(self.entries.deep_view())
    }
}

impl Vault {
    #[verifier::type_invariant]
    closed spec fn inv(self) -> bool {
        keys_distinct(self.entries.deep_view())
    }

    /// The entries of the vault, in order.
    pub closed spec fn entry_seq(self) -> Seq<(Seq<char>, Seq<char>)> {
        self.entries.deep_view()
    }

    /// The names of the vault in the order in which they are offered.
    pub closed spec fn key_order(self) -> Seq<Seq<char>> {
        key_seq(self.entries.deep_view())
    }

    /// An empty vault.
    pub fn new() -> (v: Vault)
        ensures
            v@ == Map::<Seq<char>, Seq<char>>::empty(),
            v.key_order() == Seq::<Seq<char>>::empty(),
    {
        let v = Vault { entries: Vec::new() };
        assert(v.entries.deep_view() =~= Seq::empty());
        assert(v.key_order() =~= Seq::empty());
        v
    }

    /// The position of `name` in the entry list, if it is there.
    fn find(&self, name: &String) -> (r: Option<usize>)
        ensures
            match r {
                Some(i) => i < self.entries@.len() && self.entries.deep_view()[i as int].0
                    == name@,
                None => forall|i: int|
                    0 <= i < self.entries@.len() ==> #[trigger] self.entries.deep_view()[i].0
                        != name@,
            },
    {
        let n = self.entries.len();
        let mut i: usize = 0;
        while i < n
            invariant
                n == self.entries@.len(),
                i <= n,
                forall|j: int| 0 <= j < i ==> #[trigger] self.entries.deep_view()[j].0 != name@,
            decreases n - i,
        {
            if self.entries[i].0 == *name {
                return Some(i);
            }
            i = i + 1;
        }
        None
    }

    /// The number of entries.
    pub fn len(&self) -> (r: usize)
        ensures
            r == self@.dom().len(),
    {
        proof {
            use_type_invariant(self);
            lemma_entries_map_len(self.entries.deep_view());
        }
        self.entries.len()
    }

    /// Whether the vault holds no entry.
    pub fn is_empty(&self) -> (r: bool)
        ensures
            r == (self@ == Map::<Seq<char>, Seq<char>>::empty()),
            r == (self@.dom().len() == 0),
            self@.dom().finite(),
    {
        proof {
            use_type_invariant(self);
            lemma_entries_map_len(self.entries.deep_view());
            if self.entries@.len() > 0 {
                lemma_entries_map_index(self.entries.deep_view(), 0);
                assert(self@.contains_key(self.entries.deep_view()[0].0));
            } else {
                assert(self@ =~= Map::<Seq<char>, Seq<char>>::empty());
            }
        }
        self.entries.len() == 0
    }

    /// Whether the vault has an entry named `name`.
    pub fn contains_key(&self, name: &String) -> (r: bool)
        ensures
            r == self@.contains_key(name@),
    {
        proof {
            use_type_invariant(self);
            lemma_entries_map_exact(self.entries.deep_view());
        }
        self.find(name).is_some()
    }

    /// The password stored under `name`.
    pub fn get(&self, name: &String) -> (r: Option<&String>)
        ensures
            match r {
                Some(p) => self@.contains_key(name@) && p@ == self@[name@],
                None => !self@.contains_key(name@),
            },
    {
        proof {
            use_type_invariant(self);
            lemma_entries_map_exact(self.entries.deep_view());
        }
        match self.find(name) {
            Some(i) => {
                proof {
                    assert(self.entries.deep_view()[i as int].1 == self.entries@[i as int].1@);
                    lemma_entries_map_index(self.entries.deep_view(), i as int);
                }
                Some(&self.entries[i].1)
            },
            None => None,
        }
    }

    /// Stores `password` under `name`, replacing what was stored there. A new
    /// name goes to the end of the order; an existing name keeps its place.
    pub fn insert(&mut self, name: String, password: String)
        ensures
            final(self)@ == old(self)@.insert(name@, password@),
            old(self)@.contains_key(name@) ==> final(self).key_order() == old(self).key_order(),
            !old(self)@.contains_key(name@) ==> final(self).key_order() == old(self).key_order().push(
                name@,
            ),
    {
        proof {
            use_type_invariant(&*self);
        }
        let ghost old_view = self@;
        let ghost old_order = self.key_order();
        let pos = self.find(&name);
        let mut entries: Vec<(String, String)> = Vec::new();
        std::mem::swap(&mut entries, &mut self.entries);
        let ghost s = entries.deep_view();
        proof {
            lemma_entries_map_exact(s);
        }
        match pos {
            Some(i) => {
                entries.set(i, (name, password));
                let ghost t = entries.deep_view();
                assert(t =~= s.update(i as int, (name@, password@)));
                assert(keys_distinct(t)) by {
                    assert forall|a: int, b: int| 0 <= a < b < t.len() implies #[trigger] t[a].0
                        != #[trigger] t[b].0 by {
                        assert(s[a].0 != s[b].0);
                    }
                }
                proof {
                    lemma_entries_map_exact(t);
                    assert forall|k: Seq<char>|
                        #[trigger] entries_map(t).contains_key(k) == old_view.insert(
                            name@,
                            password@,
                        ).contains_key(k) by {
                        if entries_map(t).contains_key(k) {
                            let j = choose|j: int| 0 <= j < t.len() && #[trigger] t[j].0 == k;
                            if j != i {
                                assert(s[j].0 == k);
                            }
                        }
                        if old_view.contains_key(k) {
                            let j = choose|j: int| 0 <= j < s.len() && #[trigger] s[j].0 == k;
                            assert(t[j].0 == k);
                        }
                    }
                    assert forall|k: Seq<char>| #[trigger]
                        entries_map(t).contains_key(k) implies entries_map(t)[k] == old_view.insert(
                        name@,
                        password@,
                    )[k] by {
                        let j = choose|j: int| 0 <= j < t.len() && #[trigger] t[j].0 == k;
                        if j != i {
                            assert(s[j].0 == k);
                            assert(s[j] == t[j]);
                        }
                    }
                    assert(entries_map(t) =~= old_view.insert(name@, password@));
                    assert(key_seq(t) =~= old_order);
                }
            },
            None => {
                entries.push((name, password));
                let ghost t = entries.deep_view();
                assert(t =~= s.push((name@, password@)));
                assert(t.drop_last() =~= s);
                assert(keys_distinct(t)) by {
                    assert forall|a: int, b: int| 0 <= a < b < t.len() implies #[trigger] t[a].0
                        != #[trigger] t[b].0 by {
                        if b < s.len() {
                            assert(s[a].0 != s[b].0);
                        } else {
                            assert(s[a].0 != name@);
                        }
                    }
                }
                proof {
                    assert(!old_view.contains_key(name@)) by {
                        if old_view.contains_key(name@) {
                            let j = choose|j: int| 0 <= j < s.len() && #[trigger] s[j].0 == name@;
                        }
                    }
                    assert(key_seq(t) =~= old_order.push(name@));
                }
            },
        }
        self.entries = entries;
    }

    /// Removes the entry named `name`, if there is one; the other names keep
    /// their order.
    pub fn remove(&mut self, name: &String)
        ensures
            final(self)@ == old(self)@.remove(name@),
            old(self)@.contains_key(name@) ==> exists|i: int|
                0 <= i < old(self).key_order().len() && old(self).key_order()[i] == name@
                    && final(self).key_order() == old(self).key_order().remove(i),
            !old(self)@.contains_key(name@) ==> final(self).key_order() == old(self).key_order(),
    {
        proof {
            use_type_invariant(&*self);
        }
        let ghost old_view = self@;
        let ghost old_order = self.key_order();
        let pos = self.find(name);
        let mut entries: Vec<(String, String)> = Vec::new();
        std::mem::swap(&mut entries, &mut self.entries);
        let ghost s = entries.deep_view();
        proof {
            lemma_entries_map_exact(s);
        }
        match pos {
            Some(i) => {
                let _removed = entries.remove(i);
                let ghost t = entries.deep_view();
                assert(t =~= s.remove(i as int));
                assert(keys_distinct(t)) by {
                    assert forall|a: int, b: int| 0 <= a < b < t.len() implies #[trigger] t[a].0
                        != #[trigger] t[b].0 by {
                        if b < i {
                            assert(s[a].0 != s[b].0);
                        } else if a < i {
                            assert(s[a].0 != s[b + 1].0);
                        } else {
                            assert(s[a + 1].0 != s[b + 1].0);
                        }
                    }
                }
                proof {
                    lemma_entries_map_exact(t);
                    let target = old_view.remove(name@);
                    assert forall|k: Seq<char>| #[trigger]
                        entries_map(t).contains_key(k) == target.contains_key(k) by {
                        if entries_map(t).contains_key(k) {
                            let j = choose|j: int| 0 <= j < t.len() && #[trigger] t[j].0 == k;
                            if j < i {
                                assert(s[j].0 == k);
                                assert(s[j].0 != s[i as int].0);
                            } else {
                                assert(s[j + 1].0 == k);
                                assert(s[i as int].0 != s[j + 1].0);
                            }
                        }
                        if target.contains_key(k) {
                            let j = choose|j: int| 0 <= j < s.len() && #[trigger] s[j].0 == k;
                            if j < i {
                                assert(t[j].0 == k);
                            } else {
                                assert(j != i);
                                assert(t[j - 1].0 == k);
                            }
                        }
                    }
                    assert forall|k: Seq<char>| #[trigger]
                        entries_map(t).contains_key(k) implies entries_map(t)[k] == target[k] by {
                        let j = choose|j: int| 0 <= j < t.len() && #[trigger] t[j].0 == k;
                        if j < i {
                            assert(s[j] == t[j]);
                        } else {
                            assert(s[j + 1] == t[j]);
                        }
                    }
                    assert(entries_map(t) =~= target);
                    assert(key_seq(t) =~= old_order.remove(i as int));
                    assert(old_order[i as int] == name@);
                }
            },
            None => {
                proof {
                    assert(!old_view.contains_key(name@)) by {
                        if old_view.contains_key(name@) {
                            let j = choose|j: int| 0 <= j < s.len() && #[trigger] s[j].0 == name@;
                        }
                    }
                    assert(old_view.remove(name@) =~= old_view);
                }
            },
        }
        self.entries = entries;
    }

    /// The names of the vault, in order.
    pub fn keys(&self) -> (r: Vec<String>)
        ensures
            r.deep_view() == self.key_order(),
            r.deep_view().no_duplicates(),
            r@.len() == self@.dom().len(),
            forall|i: int| 0 <= i < r@.len() ==> #[trigger] self@.contains_key(r.deep_view()[i]),
            forall|k: Seq<char>| #[trigger] self@.contains_key(k) ==> r.deep_view().contains(k),
    {
        proof {
            use_type_invariant(self);
            lemma_key_seq(self.entries.deep_view());
            lemma_entries_map_len(self.entries.deep_view());
        }
        let n = self.entries.len();
        let mut r: Vec<String> = Vec::new();
        let mut i: usize = 0;
        while i < n
            invariant
                n == self.entries@.len(),
                i <= n,
                r.deep_view() == key_seq(self.entries.deep_view()).subrange(0, i as int),
            decreases n - i,
        {
            let k = self.entries[i].0.clone();
            let ghost before = r.deep_view();
            r.push(k);
            assert(r.deep_view() =~= before.push(self.entries.deep_view()[i as int].0));
            i = i + 1;
            assert(r.deep_view() =~= key_seq(self.entries.deep_view()).subrange(0, i as int));
        }
        assert(r.deep_view() =~= key_seq(self.entries.deep_view()));
        r
    }

    /// The entries of the vault, in order, each name once.
    pub fn entries(&self) -> (r: &Vec<(String, String)>)
        ensures
            r.deep_view() == self.entry_seq(),
            entries_map(r.deep_view()) == self@,
            keys_distinct(r.deep_view()),
            key_seq(r.deep_view()) == self.key_order(),
    {
        proof {
            use_type_invariant(self);
        }
        &self.entries
    }

    /// The vault holding exactly the given entries, whose names are distinct.
    pub fn from_distinct(entries: Vec<(String, String)>) -> (v: Vault)
        requires
            keys_distinct(entries.deep_view()),
        ensures
            v@ == entries_map(entries.deep_view()),
            v.key_order() == key_seq(entries.deep_view()),
    {
        Vault { entries }
    }

    /// The vault obtained by storing each pair in turn into an empty vault.
    pub fn from_pairs(pairs: Vec<(String, String)>) -> (v: Vault)
        ensures
            v@ == entries_map(pairs.deep_view()),
    {
        let mut v = Vault::new();
        let n = pairs.len();
        let mut i: usize = 0;
        while i < n
            invariant
                n == pairs@.len(),
                i <= n,
                v@ == entries_map(pairs.deep_view().subrange(0, i as int)),
            decreases n - i,
        {
            let (name, password) = (pairs[i].0.clone(), pairs[i].1.clone());
            v.insert(name, password);
            proof {
                let s = pairs.deep_view().subrange(0, i + 1);
                assert(s.drop_last() =~= pairs.deep_view().subrange(0, i as int));
            }
            i = i + 1;
        }
        assert(pairs.deep_view().subrange(0, n as int) =~= pairs.deep_view());
        v
    }
}


/// What a read gives back of a write: once `password` is stored under
/// `name`, looking `name` up gives `password`, and every other name keeps
/// its entry (or its absence).
pub proof fn law_get_after_insert(
    vault: Map<Seq<char>, Seq<char>>,
    name: Seq<char>,
    password: Seq<char>,
    other: Seq<char>,
)
    ensures
        vault.insert(name, password).contains_key(name),
        vault.insert(name, password)[name] == password,
        other != name ==> vault.insert(name, password).contains_key(other) == vault.contains_key(
            other,
        ),
        other != name && vault.contains_key(other) ==> vault.insert(name, password)[other]
            == vault[other],
{
}

/// Once `name` is removed, looking it up finds nothing, and every other name
/// keeps its entry (or its absence).
pub proof fn law_get_after_remove(
    vault: Map<Seq<char>, Seq<char>>,
    name: Seq<char>,
    other: Seq<char>,
)
    ensures
        !vault.remove(name).contains_key(name),
        other != name ==> vault.remove(name).contains_key(other) == vault.contains_key(other),
        other != name && vault.contains_key(other) ==> vault.remove(name)[other] == vault[other],
{
}

/// Storing a password under a new name and removing that name again gives
/// back the vault as it was.
pub proof fn law_remove_undoes_insert_of_new_name(
    vault: Map<Seq<char>, Seq<char>>,
    name: Seq<char>,
    password: Seq<char>,
)
    requires
        !vault.contains_key(name),
    ensures
        vault.insert(name, password).remove(name) == vault,
{
    assert(vault.insert(name, password).remove(name) =~= vault);
}

/// Storing twice under the same name keeps only the second password.
pub proof fn law_last_insert_wins(
    vault: Map<Seq<char>, Seq<char>>,
    name: Seq<char>,
    first: Seq<char>,
    second: Seq<char>,
)
    ensures
        vault.insert(name, first).insert(name, second) == vault.insert(name, second),
{
    assert(vault.insert(name, first).insert(name, second) =~= vault.insert(name, second));
}

/// The content of a list of pairs whose names are distinct has one entry per
/// pair.
pub proof fn law_distinct_pairs_keep_every_entry(s: Seq<(Seq<char>, Seq<char>)>)
    requires
        keys_distinct(s),
    ensures
        entries_map(s).dom().len() == s.len(),
        forall|i: int| 0 <= i < s.len() ==> #[trigger] entries_map(s).contains_key(s[i].0)
            && entries_map(s)[s[i].0] == s[i].1,
{
    lemma_entries_map_len(s);
    lemma_entries_map_exact(s);
}

} // verus!
