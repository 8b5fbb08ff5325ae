//! Sets of names and maps keyed by names, in which no name occurs twice.

use vstd::prelude::*;
use crate::text::same_text;

verus! {

/// The characters of each string of a sequence.
pub open spec fn texts(items: Seq<String>) -> Seq<Seq<char>> {
    items.map_values(|s: String| s@)
}

/// A set of names.
#[derive(Debug)]
pub struct NameSet {
    items: Vec<String>,
}

impl View for NameSet {
    type V = Set<Seq<char>>;

    closed spec fn view(&self) -> Set<Seq<char>> {
        texts(self.items@).to_set()
    }
}

impl NameSet {
    /// No name is listed twice.
    #[verifier::type_invariant]
    spec fn listed_once(self) -> bool {
        texts(self.items@).no_duplicates()
    }

    /// The empty set.
    pub fn new() -> (r: Self)
        ensures
            r@ == Set::<Seq<char>>::empty(),
    {
        let items: Vec<String> = Vec::new();
        assert(texts(items@).to_set() =~= Set::<Seq<char>>::empty());
        NameSet { items }
    }

    /// The position of a name in the list, or its length where the name is absent.
    fn position(&self, name: &str) -> (r: usize)
        ensures
            r <= self.items@.len(),
            r < self.items@.len() ==> self.items@[r as int]@ == name@,
            r == self.items@.len() ==> !self@.contains(name@),
            r < self.items@.len() ==> self@.contains(name@),
    {
        let mut i: usize = 0;
        while i < self.items.len()
            invariant
                i <= self.items@.len(),
                forall|j: int| 0 <= j < i ==> (#[trigger] self.items@[j])@ != name@,
            decreases self.items@.len() - i,
        {
            if same_text(self.items[i].as_str(), name) {
                assert(texts(self.items@)[i as int] == name@);
                return i;
            }
            i = i + 1;
        }
        assert forall|j: int| 0 <= j < texts(self.items@).len() implies texts(self.items@)[j] != name@ by {
            assert(texts(self.items@)[j] == self.items@[j]@);
        }
        i
    }

    /// Whether the set holds `name`.
    pub fn contains(&self, name: &str) -> (r: bool)
        ensures
            r == self@.contains(name@),
    {
        self.position(name) < self.items.len()
    }

    /// Whether the set holds nothing.
    pub fn is_empty(&self) -> (r: bool)
        ensures
            r == (self@ == Set::<Seq<char>>::empty()),
    {
        proof {
            if self.items@.len() > 0 {
                assert(texts(self.items@)[0] == self.items@[0]@);
                assert(self@.contains(self.items@[0]@));
            } else {
                assert(self@ =~= Set::<Seq<char>>::empty());
            }
        }
        self.items.len() == 0
    }

    /// Adds `name`; the result says whether it was absent.
    pub fn insert(&mut self, name: &str) -> (added: bool)
        ensures
            final(self)@ == old(self)@.insert(name@),
            added == !old(self)@.contains(name@),
    {
        proof {
            use_type_invariant(&*self);
        }
        if self.contains(name) {
            assert(self@ =~= self@.insert(name@));
            return false;
        }
        let mut items: Vec<String> = Vec::new();
        assert(texts(items@).no_duplicates());
        std::mem::swap(&mut items, &mut self.items);
        let ghost before = texts(items@);
        items.push(name.to_owned());
        proof {
            assert(texts(items@) =~= before.push(name@));
            assert(!before.contains(name@));
            before.lemma_push_to_set_commute(name@);
        }
        self.items = items;
        true
    }

    /// Takes `name` out; the result says whether it was there.
    pub fn remove(&mut self, name: &str) -> (removed: bool)
        ensures
            final(self)@ == old(self)@.remove(name@),
            removed == old(self)@.contains(name@),
    {
        proof {
            use_type_invariant(&*self);
        }
        let at = self.position(name);
        if at == self.items.len() {
            assert(self@ =~= self@.remove(name@));
            return false;
        }
        let mut items: Vec<String> = Vec::new();
        assert(texts(items@).no_duplicates());
        std::mem::swap(&mut items, &mut self.items);
        let ghost before = texts(items@);
        items.remove(at);
        proof {
            let after = texts(items@);
            assert(after =~= before.remove(at as int));
            lemma_remove_from_distinct(before, at as int);
        }
        self.items = items;
        true
    }

    /// Empties the set.
    pub fn clear(&mut self)
        ensures
            final(self)@ == Set::<Seq<char>>::empty(),
    {
        *self = NameSet::new();
    }

    /// Keeps only the names that `kept` holds too.
    pub fn retain_in(&mut self, kept: &NameSet)
        ensures
            final(self)@ == old(self)@.intersect(kept@),
    {
        proof {
            use_type_invariant(&*self);
        }
        let mut result = NameSet::new();
        let mut i: usize = 0;
        while i < self.items.len()
            invariant
                i <= self.items@.len(),
                result@ == texts(self.items@).take(i as int).to_set().intersect(kept@),
            decreases self.items@.len() - i,
        {
            let ghost done = texts(self.items@).take(i as int);
            let ghost next = self.items@[i as int]@;
            proof {
                assert(texts(self.items@).take(i + 1) =~= done.push(next));
                done.lemma_push_to_set_commute(next);
            }
            if kept.contains(self.items[i].as_str()) {
                result.insert(self.items[i].as_str());
            }
            assert(result@ =~= texts(self.items@).take(i + 1).to_set().intersect(kept@));
            i = i + 1;
        }
        assert(texts(self.items@).take(i as int) =~= texts(self.items@));
        *self = result;
    }
}

/// Taking one position out of a sequence without duplicates takes its element out of the set.
proof fn lemma_remove_from_distinct(s: Seq<Seq<char>>, at: int)
    requires
        s.no_duplicates(),
        0 <= at < s.len(),
    ensures
        s.remove(at).no_duplicates(),
        s.remove(at).to_set() == s.to_set().remove(s[at]),
{
    let rest = s.remove(at);
    assert forall|k: Seq<char>| rest.contains(k) <==> s.contains(k) && k != s[at] by {
        if rest.contains(k) {
            let j = choose|j: int| 0 <= j < rest.len() && rest[j] == k;
            if j < at {
                assert(s[j] == k);
            } else {
                assert(s[j + 1] == k);
            }
        }
        if s.contains(k) && k != s[at] {
            let j = choose|j: int| 0 <= j < s.len() && s[j] == k;
            if j < at {
                assert(rest[j] == k);
            } else {
                assert(rest[j - 1] == k);
            }
        }
    }
    assert(rest.to_set() =~= s.to_set().remove(s[at]));
}

/// One name with its value.
#[derive(Debug)]
struct Entry<V> {
    name: String,
    value: V,
}

/// The names of a list of entries.
spec fn entry_names<V>(entries: Seq<Entry<V>>) -> Seq<Seq<char>> {
    entries.map_values(|e: Entry<V>| e.name@)
}

/// The map that a list of entries writes down.
spec fn entry_map<V: View>(entries: Seq<Entry<V>>) -> Map<Seq<char>, V::V>
    decreases entries.len(),
{
    if entries.len() == 0 {
        Map::empty()
    } else {
        entry_map(entries.drop_last()).insert(entries.last().name@, entries.last().value@)
    }
}

/// With distinct names, the map holds at each name the value that stands beside it.
proof fn lemma_entry_map<V: View>(entries: Seq<Entry<V>>)
    requires
        entry_names(entries).no_duplicates(),
    ensures
        entry_map(entries).dom() == entry_names(entries).to_set(),
        forall|i: int|
            0 <= i < entries.len() ==> entry_map(entries)[(#[trigger] entries[i]).name@]
                == entries[i].value@,
    decreases entries.len(),
{
    if entries.len() > 0 {
        let front = entries.drop_last();
        let names = entry_names(entries);
        assert(entry_names(front) =~= names.drop_last());
        assert(names =~= names.drop_last().push(names.last()));
        lemma_entry_map(front);
        names.drop_last().lemma_push_to_set_commute(names.last());
        assert forall|i: int| 0 <= i < entries.len() implies entry_map(entries)[(
        #[trigger] entries[i]).name@] == entries[i].value@ by {
            if i < front.len() {
                assert(front[i] == entries[i]);
                assert(names[i] != names[front.len() as int]);
            }
        }
    } else {
        assert(entry_names(entries).to_set() =~= Set::<Seq<char>>::empty());
    }
}

/// A map from names to values.
#[derive(Debug)]
pub struct NameMap<V> {
    entries: Vec<Entry<V>>,
}

impl<V: View> View for NameMap<V> {
    type V = Map<Seq<char>, V::V>;

    closed spec fn view(&self) -> Map<Seq<char>, V::V> {
        entry_map(self.entries@)
    }
}

impl<V> NameMap<V> {
    /// No name has two entries.
    #[verifier::type_invariant]
    spec fn listed_once(self) -> bool {
        entry_names(self.entries@).no_duplicates()
    }
}

impl<V: View> NameMap<V> {
    /// The empty map.
    pub fn new() -> (r: Self)
        ensures
            r@ == Map::<Seq<char>, V::V>::empty(),
    {
        NameMap { entries: Vec::new() }
    }

    /// The position of a name in the list, or its length where the name is absent.
    fn position(&self, name: &str) -> (r: usize)
        ensures
            r <= self.entries@.len(),
            r < self.entries@.len() ==> {
                &&& self.entries@[r as int].name@ == name@
                &&& self@.dom().contains(name@)
                &&& self@[name@] == self.entries@[r as int].value@
            },
            r == self.entries@.len() ==> !self@.dom().contains(name@),
    {
        proof {
            use_type_invariant(self);
            lemma_entry_map(self.entries@);
        }
        let mut i: usize = 0;
        while i < self.entries.len()
            invariant
                i <= self.entries@.len(),
                entry_names(self.entries@).no_duplicates(),
                self@.dom() == entry_names(self.entries@).to_set(),
                forall|j: int|
                    0 <= j < self.entries@.len() ==> self@[(#[trigger] self.entries@[j]).name@]
                        == self.entries@[j].value@,
                forall|j: int| 0 <= j < i ==> (#[trigger] self.entries@[j]).name@ != name@,
            decreases self.entries@.len() - i,
        {
            if same_text(self.entries[i].name.as_str(), name) {
                assert(entry_names(self.entries@)[i as int] == name@);
                return i;
            }
            i = i + 1;
        }
        assert forall|j: int| 0 <= j < entry_names(self.entries@).len() implies entry_names(
            self.entries@,
        )[j] != name@ by {
            assert(entry_names(self.entries@)[j] == self.entries@[j].name@);
        }
        i
    }

    /// The value at `name`.
    pub fn get(&self, name: &str) -> (r: Option<&V>)
        ensures
            r is Some == self@.dom().contains(name@),
            r matches Some(v) ==> v@ == self@[name@],
    {
        let at = self.position(name);
        if at < self.entries.len() {
            Some(&self.entries[at].value)
        } else {
            None
        }
    }

    /// Takes `name` out of the map; the result says whether it was there.
    pub fn remove(&mut self, name: &str) -> (removed: bool)
        ensures
            final(self)@ == old(self)@.remove(name@),
            removed == old(self)@.dom().contains(name@),
    {
        proof {
            use_type_invariant(&*self);
            lemma_entry_map(self.entries@);
        }
        let at = self.position(name);
        if at == self.entries.len() {
            assert(self@ =~= self@.remove(name@));
            return false;
        }
        let mut entries: Vec<Entry<V>> = Vec::new();
        std::mem::swap(&mut entries, &mut self.entries);
        let ghost before = entries@;
        entries.remove(at);
        proof {
            let after = entries@;
            let names = entry_names(before);
            assert(names[at as int] == name@);
            assert(entry_names(after) =~= names.remove(at as int));
            lemma_remove_from_distinct(names, at as int);
            lemma_entry_map(after);
            assert forall|k: Seq<char>| entry_map(after).dom().contains(k) implies entry_map(after)[k]
                == entry_map(before)[k] by {
                assert(entry_names(after).contains(k));
                let j = choose|j: int| 0 <= j < after.len() && entry_names(after)[j] == k;
                assert(after[j].name@ == k);
                if j < at {
                    assert(before[j] == after[j]);
                } else {
                    assert(before[j + 1] == after[j]);
                }
            }
            assert(entry_map(after) =~= entry_map(before).remove(name@));
        }
        self.entries = entries;
        true
    }

    /// Sets the value at `name`; the result says whether the name was absent.
    pub fn insert(&mut self, name: &str, value: V) -> (added: bool)
        ensures
            final(self)@ == old(self)@.insert(name@, value@),
            added == !old(self)@.dom().contains(name@),
    {
        let present = self.remove(name);
        proof {
            use_type_invariant(&*self);
            lemma_entry_map(self.entries@);
        }
        let ghost cut = self@;
        let mut entries: Vec<Entry<V>> = Vec::new();
        std::mem::swap(&mut entries, &mut self.entries);
        let ghost before = entries@;
        entries.push(Entry { name: name.to_owned(), value });
        proof {
            assert(entries@.drop_last() =~= before);
            assert(entry_names(entries@) =~= entry_names(before).push(name@));
            assert(!entry_names(before).to_set().contains(name@));
            assert(cut.insert(name@, value@) =~= old(self)@.insert(name@, value@));
        }
        self.entries = entries;
        !present
    }

    /// Empties the map.
    pub fn clear(&mut self)
        ensures
            final(self)@ == Map::<Seq<char>, V::V>::empty(),
    {
        *self = NameMap::new();
    }
}

/// Whether some value of `since` lies at least `age` before `now`.
pub open spec fn any_older(since: Map<Seq<char>, u64>, now: u64, age: u64) -> bool {
    exists|name: Seq<char>| #[trigger]
        since.dom().contains(name) && elapsed(now, since[name]) >= age
}

/// The time from `start` to `now`; none where `now` is the earlier of the two.
pub open spec fn elapsed(now: u64, start: u64) -> int {
    if now >= start {
        now - start
    } else {
        0
    }
}

impl NameMap<u64> {
    /// Whether some value lies at least `age` before `now`.
    pub fn any_older(&self, now: u64, age: u64) -> (r: bool)
        ensures
            r == any_older(self@, now, age),
    {
        proof {
            use_type_invariant(self);
            lemma_entry_map(self.entries@);
        }
        let mut i: usize = 0;
        while i < self.entries.len()
            invariant
                i <= self.entries@.len(),
                self@.dom() == entry_names(self.entries@).to_set(),
                forall|j: int|
                    0 <= j < self.entries@.len() ==> self@[(#[trigger] self.entries@[j]).name@]
                        == self.entries@[j].value@,
                forall|j: int|
                    0 <= j < i ==> elapsed(now, (#[trigger] self.entries@[j]).value) < age,
            decreases self.entries@.len() - i,
        {
            let start = self.entries[i].value;
            if now.saturating_sub(start) >= age {
                proof {
                    let name = self.entries@[i as int].name@;
                    assert(entry_names(self.entries@)[i as int] == name);
                    assert(self@.dom().contains(name));
                }
                return true;
            }
            i = i + 1;
        }
        assert forall|name: Seq<char>| #[trigger] self@.dom().contains(name) implies elapsed(
            now,
            self@[name],
        ) < age by {
            let j = choose|j: int|
                0 <= j < self.entries@.len() && entry_names(self.entries@)[j] == name;
            assert(self.entries@[j].name@ == name);
        }
        false
    }
}

} // verus!
