//! The dictionary a dict validator builds: an insertion-ordered map whose keys
//! and values are numbers that stand for the validated objects (equal keys
//! have equal numbers).
use vstd::prelude::*;

verus! {

/// The type of dictionary that validation returns.
#[derive(Debug, Clone, Copy, PartialEq, Eq, Structural)]
pub enum DictKind {
    /// A plain `dict`.
    Dict,
    /// A `collections.OrderedDict`.
    OrderedDict,
}

/// No key occurs twice in the entries.
pub open spec fn keys_unique(entries: Seq<(u64, u64)>) -> bool {
    forall|i: int, j: int|
        0 <= i < entries.len() && 0 <= j < entries.len() && i != j ==> #[trigger] entries[i].0
            != #[trigger] entries[j].0
}

/// The key occurs in the entries.
pub open spec fn has_key(entries: Seq<(u64, u64)>, key: u64) -> bool {
    exists|i: int| 0 <= i < entries.len() && #[trigger] entries[i].0 == key
}

/// The position of the first entry with `key`, or -1 where there is none.
pub open spec fn key_position(entries: Seq<(u64, u64)>, key: u64) -> int
    decreases entries.len(),
{
    if entries.len() == 0 {
        -1
    } else if entries[0].0 == key {
        0
    } else {
        let p = key_position(entries.drop_first(), key);
        if p < 0 {
            -1
        } else {
            p + 1
        }
    }
}

/// Setting `key` to `value`, as a Python dictionary does it: an existing key
/// keeps its place and takes the new value; a new key goes at the end.
pub open spec fn dict_set(entries: Seq<(u64, u64)>, key: u64, value: u64) -> Seq<(u64, u64)> {
    let p = key_position(entries, key);
    if p >= 0 {
        entries.update(p, (key, value))
    } else {
        entries.push((key, value))
    }
}

/// The value stored under `key`, if any.
pub open spec fn dict_get(entries: Seq<(u64, u64)>, key: u64) -> Option<u64> {
    let p = key_position(entries, key);
    if p >= 0 {
        Some(entries[p].1)
    } else {
        None
    }
}

/// `key_position` finds the first entry with the key, and finds one exactly
/// when the key is present.
pub proof fn lemma_key_position(entries: Seq<(u64, u64)>, key: u64)
    ensures
        key_position(entries, key) >= 0 <==> has_key(entries, key),
        key_position(entries, key) >= 0 ==> {
            let p = key_position(entries, key);
            &&& p < entries.len()
            &&& entries[p].0 == key
            &&& forall|j: int| 0 <= j < p ==> entries[j].0 != key
        },
        key_position(entries, key) >= -1,
    decreases entries.len(),
{
    if entries.len() > 0 && entries[0].0 != key {
        let rest = entries.drop_first();
        lemma_key_position(rest, key);
        if has_key(entries, key) {
            let i = choose|i: int| 0 <= i < entries.len() && #[trigger] entries[i].0 == key;
            assert(rest[i - 1].0 == key);
        }
        if has_key(rest, key) {
            let i = choose|i: int| 0 <= i < rest.len() && #[trigger] rest[i].0 == key;
            assert(entries[i + 1].0 == key);
        }
        let p = key_position(rest, key);
        if p >= 0 {
            assert forall|j: int| 0 <= j < p + 1 implies entries[j].0 != key by {
                if j > 0 {
                    assert(entries[j] == rest[j - 1]);
                }
            }
        }
    } else if entries.len() > 0 {
        assert(entries[0].0 == key);
    }
}

/// In entries with unique keys, the entry at `i` is the one `key_position`
/// finds for its key.
pub proof fn lemma_key_position_unique(entries: Seq<(u64, u64)>, i: int)
    requires
        keys_unique(entries),
        0 <= i < entries.len(),
    ensures
        key_position(entries, entries[i].0) == i,
{
    lemma_key_position(entries, entries[i].0);
    assert(has_key(entries, entries[i].0));
    let p = key_position(entries, entries[i].0);
    if p != i {
        assert(entries[p].0 != entries[i].0);
    }
}

/// An insertion-ordered dictionary of numbered keys and values.
pub struct OutputDict {
    entries: Vec<(u64, u64)>,
}

impl View for OutputDict {
    type V = Seq<(u64, u64)>;

    closed spec fn view(&self) -> Seq<(u64, u64)> {
        self.entries@
    }
}

impl OutputDict {
    /// An empty dictionary.
    pub fn new() -> (res: OutputDict)
        ensures
            res@ == Seq::<(u64, u64)>::empty(),
    {
        OutputDict { entries: Vec::new() }
    }

    /// The number of entries.
    pub fn len(&self) -> (res: usize)
        ensures
            res == self@.len(),
    {
        self.entries.len()
    }

    /// The position of the first entry with `key`, if there is one.
    fn find(&self, key: u64) -> (res: Option<usize>)
        ensures
            match res {
                Some(i) => i == key_position(self@, key) && i < self@.len(),
                None => key_position(self@, key) == -1,
            },
    {
        proof {
            lemma_key_position(self@, key);
        }
        let mut i: usize = 0;
        while i < self.entries.len()
            invariant
                i <= self.entries@.len(),
                forall|j: int| 0 <= j < i ==> self.entries@[j].0 != key,
                key_position(self.entries@, key) >= 0 ==> i <= key_position(self.entries@, key),
                key_position(self.entries@, key) >= -1,
                key_position(self.entries@, key) >= 0 ==> {
                    let p = key_position(self.entries@, key);
                    &&& p < self.entries@.len()
                    &&& self.entries@[p].0 == key
                    &&& forall|j: int| 0 <= j < p ==> self.entries@[j].0 != key
                },
                key_position(self.entries@, key) >= 0 <==> has_key(self.entries@, key),
            decreases self.entries@.len() - i,
        {
            if self.entries[i].0 == key {
                return Some(i);
            }
            i = i + 1;
        }
        proof {
            if has_key(self.entries@, key) {
                let j = choose|j: int| 0 <= j < self.entries@.len() && #[trigger] self.entries@[j].0 == key;
                assert(self.entries@[j].0 != key);
            }
        }
        None
    }

    /// Sets `key` to `value`, as a Python dictionary does it.
    pub fn set_item(&mut self, key: u64, value: u64)
        ensures
            final(self)@ == dict_set(old(self)@, key, value),
    {
        match self.find(key) {
            Some(i) => {
                self.entries.set(i, (key, value));
            },
            None => {
                self.entries.push((key, value));
            },
        }
    }

    /// The entries, in insertion order.
    pub fn into_entries(self) -> (res: Vec<(u64, u64)>)
        ensures
            res@ == self@,
    {
        self.entries
    }
}

/// Setting a key keeps the keys unique, makes the key's value the one given,
/// and leaves every other key's value as it was.
pub proof fn lemma_dict_set_get(entries: Seq<(u64, u64)>, key: u64, value: u64, other: u64)
    requires
        keys_unique(entries),
    ensures
        keys_unique(dict_set(entries, key, value)),
        dict_get(dict_set(entries, key, value), key) == Some(value),
        other != key ==> dict_get(dict_set(entries, key, value), other) == dict_get(entries, other),
{
    let r = dict_set(entries, key, value);
    lemma_key_position(entries, key);
    lemma_key_position(entries, other);
    let p = key_position(entries, key);
    if p >= 0 {
        assert forall|i: int, j: int|
            0 <= i < r.len() && 0 <= j < r.len() && i != j implies #[trigger] r[i].0 != #[trigger] r[j].0 by {
            assert(entries[i].0 != entries[j].0);
        }
        lemma_key_position_unique(r, p);
        if other != key && has_key(entries, other) {
            let q = key_position(entries, other);
            lemma_key_position_unique(entries, q);
            lemma_key_position_unique(r, q);
        }
        if other != key && has_key(r, other) {
            lemma_key_position(r, other);
            let q = key_position(r, other);
            assert(entries[q].0 == other);
        }
        lemma_key_position(r, other);
    } else {
        let n = entries.len() as int;
        assert forall|i: int, j: int|
            0 <= i < r.len() && 0 <= j < r.len() && i != j implies #[trigger] r[i].0 != #[trigger] r[j].0 by {
            if i < n && j < n {
                assert(entries[i].0 != entries[j].0);
            } else if i < n {
                assert(entries[i].0 != key);
            } else {
                assert(entries[j].0 != key);
            }
        }
        lemma_key_position_unique(r, n);
        if other != key && has_key(entries, other) {
            let q = key_position(entries, other);
            lemma_key_position_unique(entries, q);
            lemma_key_position_unique(r, q);
        }
        if other != key && has_key(r, other) {
            lemma_key_position(r, other);
            let q = key_position(r, other);
            assert(q != n);
            assert(entries[q].0 == other);
        }
        lemma_key_position(r, other);
    }
}

/// Setting a key adds an entry exactly when the key was not there: the
/// length of the dictionary counts distinct keys.
pub proof fn lemma_dict_set_len(entries: Seq<(u64, u64)>, key: u64, value: u64)
    ensures
        dict_set(entries, key, value).len() == if has_key(entries, key) {
            entries.len()
        } else {
            entries.len() + 1
        },
{
    lemma_key_position(entries, key);
}

/// Setting a key keeps every key in its place.
pub proof fn lemma_dict_set_keeps_order(entries: Seq<(u64, u64)>, key: u64, value: u64)
    ensures
        forall|i: int|
            0 <= i < entries.len() ==> #[trigger] dict_set(entries, key, value)[i].0
                == entries[i].0,
{
    lemma_key_position(entries, key);
}

} // verus!
