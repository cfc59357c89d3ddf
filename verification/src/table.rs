//! Tables from text to text.

use crate::text::same_text;
use vstd::prelude::*;

verus! {

/// A table from names to texts. Each name stands in it once.
#[derive(Debug)]
pub struct StringTable {
    entries: Vec<(String, String)>,
}

/// The table that a list of entries spells out, the later of two entries that
/// share a name.
pub open spec fn entries_view(entries: Seq<(String, String)>) -> Map<Seq<char>, Seq<char>>
    decreases entries.len(),
{
    if entries.len() == 0 {
        Map::empty()
    } else {
        entries_view(entries.drop_last()).insert(entries.last().0@, entries.last().1@)
    }
}

/// No two entries share a name.
pub open spec fn distinct_names(entries: Seq<(String, String)>) -> bool {
    forall|i: int, j: int|
        0 <= i < j < entries.len() ==> #[trigger] entries[i].0@ != #[trigger] entries[j].0@
}

impl View for StringTable {
    type V = Map<Seq<char>, Seq<char>>;

    closed spec fn view(&self) -> Map<Seq<char>, Seq<char>> {
        entries_view(self.entries@)
    }
}

/// An entry is in the table under its name, and the table holds nothing else.
proof fn lemma_entries(entries: Seq<(String, String)>)
    requires
        distinct_names(entries),
    ensures
        entries_view(entries).dom().finite(),
        entries_view(entries).len() == entries.len(),
        forall|i: int|
            0 <= i < entries.len() ==> {
                &&& entries_view(entries).contains_key(#[trigger] entries[i].0@)
                &&& entries_view(entries)[entries[i].0@] == entries[i].1@
            },
        forall|k: Seq<char>| #[trigger]
            entries_view(entries).contains_key(k) ==> exists|i: int|
                0 <= i < entries.len() && #[trigger] entries[i].0@ == k,
    decreases entries.len(),
{
    if entries.len() > 0 {
        let front = entries.drop_last();
        let last = entries.len() - 1;
        assert forall|i: int, j: int| 0 <= i < j < front.len() implies #[trigger] front[i].0@
            != #[trigger] front[j].0@ by {
            assert(entries[i].0@ != entries[j].0@);
        }
        lemma_entries(front);
        if entries_view(front).contains_key(entries[last].0@) {
            let i = choose|i: int| 0 <= i < front.len() && #[trigger] front[i].0@ == entries[last].0@;
            assert(entries[i].0@ != entries[last].0@);
        }
        assert forall|i: int| 0 <= i < entries.len() implies {
            &&& entries_view(entries).contains_key(#[trigger] entries[i].0@)
            &&& entries_view(entries)[entries[i].0@] == entries[i].1@
        } by {
            if i < last {
                assert(front[i] == entries[i]);
                assert(front[i].0@ == entries[i].0@);
                assert(entries[i].0@ != entries[last].0@);
            }
        }
        assert forall|k: Seq<char>| #[trigger] entries_view(entries).contains_key(k) implies exists|
            i: int,
        | 0 <= i < entries.len() && #[trigger] entries[i].0@ == k by {
            if k != entries[last].0@ {
                assert(entries_view(front).contains_key(k));
                let i = choose|i: int| 0 <= i < front.len() && #[trigger] front[i].0@ == k;
                assert(entries[i].0@ == k);
            } else {
                assert(entries[last].0@ == k);
            }
        }
    }
}

impl StringTable {
    #[verifier::type_invariant]
    closed spec fn valid(self) -> bool {
        distinct_names(self.entries@)
    }

    /// The empty table.
    pub fn new() -> (r: StringTable)
        ensures
            r@ == Map::<Seq<char>, Seq<char>>::empty(),
    {
        StringTable { entries: Vec::new() }
    }

    /// Where a name stands.
    fn position(&self, name: &str) -> (r: Option<usize>)
        ensures
            match r {
                Some(i) => i < self.entries@.len() && self.entries@[i as int].0@ == name@,
                None => forall|i: int|
                    0 <= i < self.entries@.len() ==> #[trigger] self.entries@[i].0@ != name@,
            },
    {
        let mut i: usize = 0;
        while i < self.entries.len()
            invariant
                i <= self.entries@.len(),
                forall|j: int| 0 <= j < i ==> #[trigger] self.entries@[j].0@ != name@,
            decreases self.entries.len() - i,
        {
            if same_text(self.entries[i].0.as_str(), name) {
                return Some(i);
            }
            i += 1;
        }
        None
    }

    /// The text under a name.
    pub fn get(&self, name: &str) -> (r: Option<&str>)
        ensures
            match r {
                Some(s) => self@.contains_key(name@) && self@[name@] == s@,
                None => !self@.contains_key(name@),
            },
    {
        proof {
            use_type_invariant(self);
            lemma_entries(self.entries@);
        }
        match self.position(name) {
            Some(i) => Some(self.entries[i].1.as_str()),
            None => None,
        }
    }

    /// Puts a text under a name, in place of what stood there.
    pub fn insert(&mut self, name: String, value: String)
        ensures
            final(self)@ == old(self)@.insert(name@, value@),
    {
        proof {
            use_type_invariant(&*self);
        }
        let at = self.position(name.as_str());
        let mut entries: Vec<(String, String)> = Vec::new();
        std::mem::swap(&mut entries, &mut self.entries);
        let ghost before = entries@;
        match at {
            Some(i) => {
                let ghost key = before[i as int].0@;
                entries.set(i, (name, value));
                proof {
                    lemma_entries(before);
                    assert forall|a: int, b: int| 0 <= a < b < entries@.len() implies #[trigger] entries@[a].0@
                        != #[trigger] entries@[b].0@ by {
                        assert(before[a].0@ != before[b].0@);
                    }
                    lemma_entries(entries@);
                    assert forall|k: Seq<char>| #[trigger]
                        entries_view(entries@).contains_key(k) == entries_view(before).contains_key(
                            k,
                        ) by {
                        if entries_view(entries@).contains_key(k) {
                            let n = choose|n: int|
                                0 <= n < entries@.len() && #[trigger] entries@[n].0@ == k;
                            assert(before[n].0@ == k);
                        }
                        if entries_view(before).contains_key(k) {
                            let n = choose|n: int|
                                0 <= n < before.len() && #[trigger] before[n].0@ == k;
                            assert(entries@[n].0@ == k);
                        }
                    }
                    assert forall|k: Seq<char>| #[trigger]
                        entries_view(entries@).contains_key(k) implies entries_view(entries@)[k]
                        == entries_view(before).insert(key, value@)[k] by {
                        let n = choose|n: int|
                            0 <= n < entries@.len() && #[trigger] entries@[n].0@ == k;
                        assert(before[n].0@ == k);
                        if n != i {
                            assert(entries@[n] == before[n]);
                            if n < i {
                                assert(before[n].0@ != before[i as int].0@);
                            } else {
                                assert(before[i as int].0@ != before[n].0@);
                            }
                        }
                    }
                    assert(before[i as int].0@ == key);
                    assert(entries_view(entries@) =~= entries_view(before).insert(key, value@));
                }
            },
            None => {
                entries.push((name, value));
                assert(entries@.drop_last() =~= before);
                assert forall|a: int, b: int| 0 <= a < b < entries@.len() implies #[trigger] entries@[a].0@
                    != #[trigger] entries@[b].0@ by {
                    if b < before.len() {
                        assert(before[a].0@ != before[b].0@);
                    } else {
                        assert(before[a].0@ != name@);
                    }
                }
            },
        }
        self.entries = entries;
    }

    /// How many names the table holds.
    pub fn len(&self) -> (r: usize)
        ensures
            r == self@.len(),
    {
        proof {
            use_type_invariant(self);
            lemma_entries(self.entries@);
        }
        self.entries.len()
    }

    /// The entries of the table, each name once.
    pub fn entries(&self) -> (r: &Vec<(String, String)>)
        ensures
            distinct_names(r@),
            entries_view(r@) == self@,
    {
        proof {
            use_type_invariant(self);
        }
        &self.entries
    }
}

impl Clone for StringTable {
    fn clone(&self) -> (r: Self)
        ensures
            r@ == self@,
    {
        proof {
            use_type_invariant(self);
        }
        let mut entries: Vec<(String, String)> = Vec::new();
        let mut i: usize = 0;
        while i < self.entries.len()
            invariant
                i <= self.entries@.len(),
                entries@ == self.entries@.take(i as int),
            decreases self.entries.len() - i,
        {
            entries.push((self.entries[i].0.clone(), self.entries[i].1.clone()));
            i += 1;
        }
        assert(entries@ =~= self.entries@);
        StringTable { entries }
    }
}

impl StringTable {
    /// Whether two tables hold the same names with the same texts.
    pub fn same(&self, other: &StringTable) -> (r: bool)
        ensures
            r == (self@ == other@),
    {
        proof {
            use_type_invariant(self);
            use_type_invariant(other);
            lemma_entries(self.entries@);
            lemma_entries(other.entries@);
        }
        if self.len() != other.len() {
            return false;
        }
        let mut i: usize = 0;
        while i < self.entries.len()
            invariant
                i <= self.entries@.len(),
                forall|j: int|
                    0 <= j < self.entries@.len() ==> {
                        &&& self@.contains_key(#[trigger] self.entries@[j].0@)
                        &&& self@[self.entries@[j].0@] == self.entries@[j].1@
                    },
                forall|j: int|
                    0 <= j < i ==> {
                        &&& other@.contains_key(#[trigger] self.entries@[j].0@)
                        &&& other@[self.entries@[j].0@] == self.entries@[j].1@
                    },
            decreases self.entries.len() - i,
        {
            let ghost name = self.entries@[i as int].0@;
            match other.get(self.entries[i].0.as_str()) {
                Some(value) => {
                    if !same_text(value, self.entries[i].1.as_str()) {
                        assert(self@[name] != other@[name]);
                        return false;
                    }
                },
                None => {
                    assert(self@.contains_key(name) && !other@.contains_key(name));
                    return false;
                },
            }
            i += 1;
        }
        proof {
            assert forall|k: Seq<char>| #[trigger] self@.contains_key(k) implies other@.contains_key(
                k,
            ) && other@[k] == self@[k] by {
                let j = choose|j: int|
                    0 <= j < self.entries@.len() && #[trigger] self.entries@[j].0@ == k;
                assert(self.entries@[j].0@ == k);
            }
            assert(self@.dom().subset_of(other@.dom()));
            vstd::set_lib::lemma_subset_equality(self@.dom(), other@.dom());
            assert(self@ =~= other@);
        }
        true
    }
}

impl vstd::std_specs::cmp::PartialEqSpecImpl for StringTable {
    open spec fn obeys_eq_spec() -> bool {
        true
    }

    open spec fn eq_spec(&self, other: &StringTable) -> bool {
        self@ == other@
    }
}

impl PartialEq for StringTable {
    fn eq(&self, other: &StringTable) -> (r: bool) {
        self.same(other)
    }
}

impl Eq for StringTable {

}

/// A table whose entries have different names holds each entry under its name,
/// and nothing else.
pub proof fn entries_stand_under_their_names(entries: Seq<(String, String)>, name: Seq<char>)
    requires
        distinct_names(entries),
    ensures
        forall|i: int|
            0 <= i < entries.len() ==> entries_view(entries).contains_key(
                #[trigger] entries[i].0@,
            ) && entries_view(entries)[entries[i].0@] == entries[i].1@,
        entries_view(entries).contains_key(name) ==> exists|i: int|
            0 <= i < entries.len() && #[trigger] entries[i].0@ == name,
        entries_view(entries).len() == entries.len(),
{
    lemma_entries(entries);
}

/// A table gives for a name the value of the entry with that name, and nothing
/// where no entry has it; its length is that of its entries.
pub proof fn a_table_gives_its_entries(
    table: &StringTable,
    entries: &Vec<(String, String)>,
    name: &str,
    value: Option<&str>,
    len: usize,
)
    requires
        call_ensures(StringTable::entries, (table,), entries),
        call_ensures(StringTable::get, (table, name), value),
        call_ensures(StringTable::len, (table,), len),
    ensures
        forall|i: int|
            0 <= i < entries@.len() && #[trigger] entries@[i].0@ == name@ ==> value is Some
                && value->0@ == entries@[i].1@,
        (forall|i: int| 0 <= i < entries@.len() ==> #[trigger] entries@[i].0@ != name@)
            ==> value is None,
        len == entries@.len(),
{
    lemma_entries(entries@);
}

/// Two tables are `==` exactly where they hold the same under every name.
pub proof fn tables_are_equal_by_their_entries(a: StringTable, b: StringTable, r: bool)
    requires
        call_ensures(StringTable::same, (&a, &b), r),
    ensures
        r <==> (forall|name: Seq<char>, value: Seq<char>|
            #![trigger a@.contains_pair(name, value)]
            #![trigger b@.contains_pair(name, value)]
            a@.contains_pair(name, value) <==> b@.contains_pair(name, value)),
        vstd::std_specs::cmp::PartialEqSpec::eq_spec(&a, &b) <==> r,
{
    if forall|name: Seq<char>, value: Seq<char>|
        #![trigger a@.contains_pair(name, value)]
        #![trigger b@.contains_pair(name, value)]
        a@.contains_pair(name, value) <==> b@.contains_pair(name, value) {
        assert forall|name: Seq<char>| #[trigger] a@.contains_key(name) implies b@.contains_key(
            name,
        ) && a@[name] == b@[name] by {
            assert(a@.contains_pair(name, a@[name]));
        }
        assert forall|name: Seq<char>| #[trigger] b@.contains_key(name) implies a@.contains_key(
            name,
        ) by {
            assert(b@.contains_pair(name, b@[name]));
        }
        assert(a@ =~= b@);
    }
}

} // verus!
