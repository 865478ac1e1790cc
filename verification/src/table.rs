//! A table of values under text keys.
use crate::text::same_text;
use vstd::prelude::*;

verus! {

/// Values under text keys, each key at most once.
pub struct TextTable<V> {
    entries: Vec<(String, V)>,
}

/// Entries, with their keys as sequences of characters.
pub open spec fn rows_of<V>(entries: Seq<(String, V)>) -> Seq<(Seq<char>, V)> {
    entries.map_values(|entry: (String, V)| (entry.0@, entry.1))
}

impl<V> View for TextTable<V> {
    type V = Map<Seq<char>, V>;

    closed spec fn view(&self) -> Map<Seq<char>, V> {
        table_of(self.rows())
    }
}

/// The rows of a table as a map.
pub open spec fn table_of<V>(rows: Seq<(Seq<char>, V)>) -> Map<Seq<char>, V>
    decreases rows.len(),
{
    if rows.len() == 0 {
        Map::empty()
    } else {
        table_of(rows.drop_last()).insert(rows.last().0, rows.last().1)
    }
}

/// No key occurs in two rows.
pub open spec fn distinct_keys<V>(rows: Seq<(Seq<char>, V)>) -> bool {
    forall|i: int, j: int| 0 <= i < j < rows.len() ==> rows[i].0 != rows[j].0
}

/// A list holds the value under each key, and as many values as there are keys.
pub open spec fn lists_values<V>(values: Seq<V>, table: Map<Seq<char>, V>) -> bool {
    &&& table.dom().finite()
    &&& values.len() == table.len()
    &&& forall|key: Seq<char>| #[trigger]
        table.contains_key(key) ==> values.contains(table[key])
    &&& forall|i: int| 0 <= i < values.len() ==> table.contains_value(#[trigger] values[i])
}

proof fn lemma_table_of<V>(rows: Seq<(Seq<char>, V)>)
    requires
        distinct_keys(rows),
    ensures
        table_of(rows).dom().finite(),
        table_of(rows).len() == rows.len(),
        forall|i: int|
            0 <= i < rows.len() ==> {
                &&& table_of(rows).contains_key(#[trigger] rows[i].0)
                &&& table_of(rows)[rows[i].0] == rows[i].1
            },
        forall|key: Seq<char>| #[trigger]
            table_of(rows).contains_key(key) ==> exists|i: int|
                0 <= i < rows.len() && rows[i].0 == key,
    decreases rows.len(),
{
    if rows.len() > 0 {
        let init = rows.drop_last();
        lemma_table_of(init);
        assert forall|i: int| 0 <= i < rows.len() implies {
            &&& table_of(rows).contains_key(#[trigger] rows[i].0)
            &&& table_of(rows)[rows[i].0] == rows[i].1
        } by {
            if i < init.len() {
                assert(init[i] == rows[i]);
            }
        }
        assert(!table_of(init).contains_key(rows.last().0));
        assert forall|key: Seq<char>| #[trigger]
            table_of(rows).contains_key(key) implies exists|i: int|
            0 <= i < rows.len() && rows[i].0 == key by {
            if key == rows.last().0 {
                assert(rows[rows.len() - 1].0 == key);
            } else {
                assert(table_of(init).contains_key(key));
                let i = choose|i: int| 0 <= i < init.len() && init[i].0 == key;
                assert(rows[i].0 == key);
            }
        }
    }
}

proof fn lemma_table_remove<V>(rows: Seq<(Seq<char>, V)>, at: int)
    requires
        distinct_keys(rows),
        0 <= at < rows.len(),
    ensures
        distinct_keys(rows.remove(at)),
        table_of(rows.remove(at)) == table_of(rows).remove(rows[at].0),
{
    let rest = rows.remove(at);
    assert forall|i: int, j: int| 0 <= i < j < rest.len() implies rest[i].0 != rest[j].0 by {
        let p = if i < at { i } else { i + 1 };
        let q = if j < at { j } else { j + 1 };
        assert(rest[i] == rows[p] && rest[j] == rows[q]);
    }
    lemma_table_of(rows);
    lemma_table_of(rest);
    let whole = table_of(rows).remove(rows[at].0);
    assert forall|key: Seq<char>| whole.contains_key(key) == table_of(rest).contains_key(key) by {
        if whole.contains_key(key) {
            let i = choose|i: int| 0 <= i < rows.len() && rows[i].0 == key;
            let p = if i < at { i } else { i - 1 };
            assert(rest[p].0 == key);
        }
        if table_of(rest).contains_key(key) {
            let i = choose|i: int| 0 <= i < rest.len() && rest[i].0 == key;
            let p = if i < at { i } else { i + 1 };
            assert(rows[p].0 == key);
            assert(p < at ==> rows[p].0 != rows[at].0);
        }
    }
    assert forall|key: Seq<char>| whole.contains_key(key) implies whole[key] == table_of(
        rest,
    )[key] by {
        let i = choose|i: int| 0 <= i < rows.len() && rows[i].0 == key;
        let p = if i < at { i } else { i - 1 };
        assert(rest[p] == rows[i]);
    }
    assert(whole =~= table_of(rest));
}

impl<V> TextTable<V> {
    /// The rows in the order in which they are stored.
    pub closed spec fn rows(self) -> Seq<(Seq<char>, V)> {
        rows_of(self.entries@)
    }

    /// The values in the order in which they are stored.
    pub open spec fn values(self) -> Seq<V> {
        self.rows().map_values(|row: (Seq<char>, V)| row.1)
    }

    /// Each key has one row.
    #[verifier::type_invariant]
    spec fn well_formed(self) -> bool {
        distinct_keys(self.rows())
    }

    /// The rows hold each pair of the table once, and nothing else.
    proof fn lemma_rows(self)
        requires
            self.well_formed(),
        ensures
            self@.dom().finite(),
            self@.len() == self.rows().len(),
            forall|i: int|
                0 <= i < self.rows().len() ==> {
                    &&& self@.contains_key(#[trigger] self.rows()[i].0)
                    &&& self@[self.rows()[i].0] == self.rows()[i].1
                },
            forall|key: Seq<char>| #[trigger]
                self@.contains_key(key) ==> exists|i: int|
                    0 <= i < self.rows().len() && self.rows()[i].0 == key,
    {
        lemma_table_of(self.rows());
    }

    proof fn lemma_values(self)
        requires
            self.well_formed(),
        ensures
            lists_values(self.values(), self@),
    {
        self.lemma_rows();
        assert forall|key: Seq<char>| #[trigger] self@.contains_key(key) implies self.values().contains(
            self@[key],
        ) by {
            let i = choose|i: int| 0 <= i < self.rows().len() && self.rows()[i].0 == key;
            assert(self.values()[i] == self@[key]);
        }
        assert forall|i: int| 0 <= i < self.values().len() implies self@.contains_value(
            #[trigger] self.values()[i],
        ) by {
            let key = self.rows()[i].0;
            assert(self@.contains_key(key) && self@[key] == self.values()[i]);
        }
    }

    pub fn new() -> (table: Self)
        ensures
            table@ == Map::<Seq<char>, V>::empty(),
            table.rows().len() == 0,
    {
        let entries: Vec<(String, V)> = Vec::new();
        let table = TextTable { entries };
        assert(table.rows() =~= Seq::<(Seq<char>, V)>::empty());
        table
    }

    fn position(&self, key: &str) -> (at: Option<usize>)
        requires
            self.well_formed(),
        ensures
            match at {
                Some(i) => i < self.rows().len() && self.rows()[i as int].0 == key@,
                None => !self@.contains_key(key@),
            },
    {
        let mut i: usize = 0;
        while i < self.entries.len()
            invariant
                i <= self.entries.len(),
                self.rows().len() == self.entries.len(),
                forall|k: int| 0 <= k < i ==> #[trigger] self.rows()[k].0 != key@,
            decreases self.entries.len() - i,
        {
            assert(self.rows()[i as int].0 == self.entries@[i as int].0@);
            if same_text(self.entries[i].0.as_str(), key) {
                return Some(i);
            }
            i = i + 1;
        }
        proof {
            self.lemma_rows();
        }
        None
    }

    /// The value under `key`.
    pub fn get(&self, key: &str) -> (value: Option<&V>)
        ensures
            value is Some == self@.contains_key(key@),
            value matches Some(v) ==> *v == self@[key@],
    {
        proof {
            use_type_invariant(self);
            self.lemma_rows();
        }
        match self.position(key) {
            Some(i) => {
                assert(self.rows()[i as int].1 == self.entries@[i as int].1);
                Some(&self.entries[i].1)
            },
            None => None,
        }
    }

    /// Takes the value under `key` out of the table.
    pub fn remove(&mut self, key: &str) -> (value: Option<V>)
        ensures
            final(self)@ == old(self)@.remove(key@),
            value is Some == old(self)@.contains_key(key@),
            value matches Some(v) ==> v == old(self)@[key@],
    {
        proof {
            use_type_invariant(&*self);
            self.lemma_rows();
        }
        match self.position(key) {
            Some(i) => {
                let ghost before = self.rows();
                assert(before[i as int].1 == self.entries@[i as int].1);
                let mut entries: Vec<(String, V)> = Vec::new();
                assert(rows_of(entries@) =~= seq![]);
                std::mem::swap(&mut entries, &mut self.entries);
                let entry = entries.remove(i);
                assert(rows_of(entries@) =~= before.remove(i as int));
                proof {
                    lemma_table_remove(before, i as int);
                }
                self.entries = entries;
                Some(entry.1)
            },
            None => {
                assert(self@.remove(key@) =~= self@);
                None
            },
        }
    }

    /// Puts `value` under `key`; hands back what was there.
    pub fn insert(&mut self, key: String, value: V) -> (previous: Option<V>)
        ensures
            final(self)@ == old(self)@.insert(key@, value),
            previous is Some == old(self)@.contains_key(key@),
            previous matches Some(v) ==> v == old(self)@[key@],
    {
        let previous = self.remove(key.as_str());
        let ghost before = self.rows();
        proof {
            use_type_invariant(&*self);
            self.lemma_rows();
        }
        let ghost row = (key@, value);
        let mut entries: Vec<(String, V)> = Vec::new();
        assert(rows_of(entries@) =~= seq![]);
        std::mem::swap(&mut entries, &mut self.entries);
        entries.push((key, value));
        assert(rows_of(entries@) =~= before.push(row));
        assert(before.push(row).drop_last() =~= before);
        assert(forall|i: int| 0 <= i < before.len() ==> #[trigger] before[i].0 != row.0);
        self.entries = entries;
        assert(self@ =~= old(self)@.insert(row.0, value));
        previous
    }

    /// Takes every value out of the table.
    pub fn take_all(&mut self) -> (values: Vec<V>)
        ensures
            final(self)@ == Map::<Seq<char>, V>::empty(),
            values@ == old(self).values(),
            lists_values(values@, old(self)@),
    {
        proof {
            use_type_invariant(&*self);
            self.lemma_values();
        }
        let mut values: Vec<V> = Vec::new();
        let mut entries: Vec<(String, V)> = Vec::new();
        let ghost all = self.values();
        assert(rows_of(entries@) =~= seq![]);
        std::mem::swap(&mut entries, &mut self.entries);
        assert(all =~= rows_of(entries@).map_values(|row: (Seq<char>, V)| row.1));
        while entries.len() > 0
            invariant
                all == values@ + rows_of(entries@).map_values(|row: (Seq<char>, V)| row.1),
            decreases entries.len(),
        {
            let ghost ahead = rows_of(entries@).map_values(|row: (Seq<char>, V)| row.1);
            let entry = entries.remove(0);
            values.push(entry.1);
            assert(ahead =~= seq![entry.1] + rows_of(entries@).map_values(
                |row: (Seq<char>, V)| row.1,
            ));
            assert(all =~= values@ + rows_of(entries@).map_values(|row: (Seq<char>, V)| row.1));
        }
        assert(values@ =~= all);
        values
    }
}

} // verus!
