//! The facts mapping: named boolean outcomes of quality checks.
//!
//! A fact key is either present with a boolean value or entirely absent; there
//! is no null or unknown state.  The mapping is written once per run and then
//! encoded as a single JSON object.

use vstd::prelude::*;

verus! {

use vstd::string::StringExecFns;

/// No key occurs twice.
pub open spec fn distinct_keys(entries: Seq<(Seq<char>, bool)>) -> bool {
    forall|i: int, j: int|
        0 <= i < j < entries.len() ==> (#[trigger] entries[i]).0 != (#[trigger] entries[j]).0
}

/// The mathematical map described by a sequence of entries; on a duplicate
/// key the later entry wins.
pub open spec fn map_of(entries: Seq<(Seq<char>, bool)>) -> Map<Seq<char>, bool>
    decreases entries.len(),
{
    if entries.len() == 0 {
        Map::empty()
    } else {
        map_of(entries.drop_last()).insert(entries.last().0, entries.last().1)
    }
}

/// How the entries and the map correspond: a key is in the map exactly when
/// some entry carries it, and with distinct keys each entry's value is the
/// map's value for its key.
pub proof fn lemma_map_of(entries: Seq<(Seq<char>, bool)>)
    ensures
        forall|k: Seq<char>| #[trigger] map_of(entries).dom().contains(k)
            <==> exists|i: int| 0 <= i < entries.len() && (#[trigger] entries[i]).0 == k,
        distinct_keys(entries) ==> forall|i: int|
            0 <= i < entries.len() ==> map_of(entries)[(#[trigger] entries[i]).0] == entries[i].1,
    decreases entries.len(),
{
    if entries.len() > 0 {
        let prefix = entries.drop_last();
        lemma_map_of(prefix);
        assert forall|k: Seq<char>| #[trigger] map_of(entries).dom().contains(k)
            == (exists|i: int| 0 <= i < entries.len() && (#[trigger] entries[i]).0 == k) by {
            if map_of(entries).dom().contains(k) {
                if k == entries.last().0 {
                    assert(entries[entries.len() - 1].0 == k);
                } else {
                    assert(map_of(prefix).dom().contains(k));
                    let i = choose|i: int| 0 <= i < prefix.len() && (#[trigger] prefix[i]).0 == k;
                    assert(prefix[i] == entries[i]);
                    assert(entries[i].0 == k);
                }
            }
            if exists|i: int| 0 <= i < entries.len() && (#[trigger] entries[i]).0 == k {
                let i = choose|i: int| 0 <= i < entries.len() && (#[trigger] entries[i]).0 == k;
                if i < entries.len() - 1 {
                    assert(prefix[i] == entries[i]);
                    assert(map_of(prefix).dom().contains(k));
                }
            }
        }
        if distinct_keys(entries) {
            assert forall|i: int, j: int| 0 <= i < j < prefix.len()
                implies (#[trigger] prefix[i]).0 != (#[trigger] prefix[j]).0 by {
                assert(prefix[i] == entries[i]);
                assert(prefix[j] == entries[j]);
            }
            assert forall|i: int| 0 <= i < entries.len()
                implies map_of(entries)[(#[trigger] entries[i]).0] == entries[i].1 by {
                if i < entries.len() - 1 {
                    assert(prefix[i] == entries[i]);
                    assert(entries[i].0 != entries.last().0);
                }
            }
        }
    }
}

/// The JSON text of one boolean value.
pub open spec fn json_bool(value: bool) -> Seq<char> {
    if value {
        "true"@
    } else {
        "false"@
    }
}

/// The JSON text of one entry: the quoted key, a colon, and the value.
pub open spec fn json_entry(entry: (Seq<char>, bool)) -> Seq<char> {
    "\""@ + entry.0 + "\":"@ + json_bool(entry.1)
}

/// The comma-separated JSON texts of a sequence of entries.
pub open spec fn json_entries(entries: Seq<(Seq<char>, bool)>) -> Seq<char>
    decreases entries.len(),
{
    if entries.len() == 0 {
        Seq::empty()
    } else if entries.len() == 1 {
        json_entry(entries[0])
    } else {
        json_entries(entries.drop_last()) + ","@ + json_entry(entries.last())
    }
}

/// The JSON object text of a sequence of entries, in their order.
pub open spec fn json_of(entries: Seq<(Seq<char>, bool)>) -> Seq<char> {
    "{"@ + json_entries(entries) + "}"@
}

/// A facts mapping: the named boolean outcomes of one adapter run, in the
/// order they were recorded.
pub struct Facts {
    entries: Vec<(String, bool)>,
}

impl View for Facts {
    type V = Seq<(Seq<char>, bool)>;

    closed spec fn view(&self) -> Seq<(Seq<char>, bool)> {
        self.entries@.map_values(|e: (String, bool)| (e.0@, e.1))
    }
}

impl Facts {
    /// An empty mapping: no check has recorded anything.
    pub fn new() -> (facts: Facts)
        ensures
            facts@ == Seq::<(Seq<char>, bool)>::empty(),
    {
        let facts = Facts { entries: Vec::new() };
        proof {
            assert(facts@ =~= Seq::<(Seq<char>, bool)>::empty());
        }
        facts
    }

    /// The number of facts recorded so far.
    pub fn len(&self) -> (n: usize)
        ensures
            n == self@.len(),
    {
        self.entries.len()
    }

    pub fn is_empty(&self) -> (empty: bool)
        ensures
            empty == (self@.len() == 0),
    {
        self.entries.len() == 0
    }

    /// Looks one fact up by its key.
    pub fn get(&self, key: &str) -> (value: Option<bool>)
        requires
            distinct_keys(self@),
        ensures
            match value {
                Some(v) => map_of(self@).dom().contains(key@) && map_of(self@)[key@] == v,
                None => !map_of(self@).dom().contains(key@),
            },
    {
        proof {
            lemma_map_of(self@);
        }
        let n = self.entries.len();
        let mut i: usize = 0;
        while i < n
            invariant
                n == self@.len(),
                i <= n,
                distinct_keys(self@),
                forall|j: int| 0 <= j < i ==> (#[trigger] self@[j]).0 != key@,
                forall|k: Seq<char>| #[trigger] map_of(self@).dom().contains(k)
                    == (exists|j: int| 0 <= j < self@.len() && (#[trigger] self@[j]).0 == k),
                forall|j: int| 0 <= j < self@.len()
                    ==> map_of(self@)[(#[trigger] self@[j]).0] == self@[j].1,
            decreases n - i,
        {
            if crate::text::str_eq(self.entries[i].0.as_str(), key) {
                proof {
                    assert(self@[i as int].0 == key@);
                }
                return Some(self.entries[i].1);
            }
            i += 1;
        }
        proof {
            if map_of(self@).dom().contains(key@) {
                let j = choose|j: int| 0 <= j < self@.len() && (#[trigger] self@[j]).0 == key@;
            }
        }
        None
    }

    /// Encodes the mapping as one JSON object, keys in recording order.
    pub fn to_json(&self) -> (text: String)
        ensures
            text@ == json_of(self@),
    {
        let mut out: String = "{".to_owned();
        let n = self.entries.len();
        let mut i: usize = 0;
        while i < n
            invariant
                n == self@.len(),
                i <= n,
                out@ == "{"@ + json_entries(self@.take(i as int)),
            decreases n - i,
        {
            let ghost before = self@.take(i as int);
            let ghost after = self@.take(i as int + 1);
            proof {
                assert(after.drop_last() =~= before);
                assert(after.last() == self@[i as int]);
            }
            if i > 0 {
                out.append(",");
            }
            out.append("\"");
            out.append(self.entries[i].0.as_str());
            out.append("\":");
            if self.entries[i].1 {
                out.append("true");
            } else {
                out.append("false");
            }
            proof {
                assert(self@[i as int] == (self.entries@[i as int].0@, self.entries@[i as int].1));
                if i == 0 {
                    assert(json_entries(after) == json_entry(after[0]));
                    assert(after[0] == self@[0]);
                } else {
                    assert(json_entries(after) == json_entries(before) + ","@ + json_entry(after.last()));
                }
                assert(out@ =~= "{"@ + json_entries(after));
            }
            i += 1;
        }
        proof {
            assert(self@.take(n as int) =~= self@);
        }
        out.append("}");
        out
    }

    /// Records one fact.  A fact is write-once: the key must not be present.
    pub fn insert(&mut self, key: String, value: bool)
        requires
            forall|i: int| 0 <= i < old(self)@.len() ==> (#[trigger] old(self)@[i]).0 != key@,
        ensures
            final(self)@ == old(self)@.push((key@, value)),
    {
        let ghost previous = self@;
        self.entries.push((key, value));
        proof {
            assert(self@ =~= previous.push((key@, value)));
        }
    }
}

} // verus!
