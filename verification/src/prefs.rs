//! The boolean preferences that gate pseudo-elements, looked up by key.

use vstd::prelude::*;
use vstd::string::StringExecFns;

verus! {

/// A snapshot of boolean preferences. Every key has a value: a key that was
/// never set reads as `false`.
#[derive(Debug)]
pub struct Prefs {
    entries: Vec<(String, bool)>,
}

/// The map that a list of settings stands for, a later setting of a key
/// taking the place of an earlier one.
spec fn settings(entries: Seq<(String, bool)>) -> Map<Seq<char>, bool>
    decreases entries.len(),
{
    if entries.len() == 0 {
        Map::empty()
    } else {
        settings(entries.drop_last()).insert(entries.last().0@, entries.last().1)
    }
}

/// Where the last setting of `key` stands at `i`, the map holds its value.
proof fn lemma_settings_last_match(entries: Seq<(String, bool)>, key: Seq<char>, i: int)
    requires
        0 <= i < entries.len(),
        entries[i].0@ == key,
        forall|j: int| i < j < entries.len() ==> entries[j].0@ != key,
    ensures
        settings(entries).contains_key(key),
        settings(entries)[key] == entries[i].1,
    decreases entries.len(),
{
    if i < entries.len() - 1 {
        lemma_settings_last_match(entries.drop_last(), key, i);
    }
}

/// Where no setting names `key`, the map does not hold it.
proof fn lemma_settings_no_match(entries: Seq<(String, bool)>, key: Seq<char>)
    requires
        forall|j: int| 0 <= j < entries.len() ==> entries[j].0@ != key,
    ensures
        !settings(entries).contains_key(key),
    decreases entries.len(),
{
    if entries.len() > 0 {
        lemma_settings_no_match(entries.drop_last(), key);
    }
}

/// Replacing the last setting of a key has the effect of one more setting.
proof fn lemma_settings_replace(entries: Seq<(String, bool)>, i: int, setting: (String, bool))
    requires
        0 <= i < entries.len(),
        entries[i].0@ == setting.0@,
        forall|j: int| i < j < entries.len() ==> entries[j].0@ != setting.0@,
    ensures
        settings(entries.update(i, setting)) == settings(entries).insert(setting.0@, setting.1),
    decreases entries.len(),
{
    let replaced = entries.update(i, setting);
    if i == entries.len() - 1 {
        assert(replaced.drop_last() == entries.drop_last());
    } else {
        assert(replaced.drop_last() == entries.drop_last().update(i, setting));
        lemma_settings_replace(entries.drop_last(), i, setting);
    }
    assert(settings(replaced) =~= settings(entries).insert(setting.0@, setting.1));
}

impl View for Prefs {
    type V = Map<Seq<char>, bool>;

    closed spec fn view(&self) -> Map<Seq<char>, bool> {
        settings(self.entries@)
    }
}

impl Prefs {
    /// The value that `key` reads as.
    pub open spec fn spec_get(&self, key: Seq<char>) -> bool {
        self@.contains_key(key) && self@[key]
    }

    /// A snapshot in which nothing is set, so that every key reads as
    /// `false`.
    pub fn new() -> (prefs: Prefs)
        ensures
            prefs@ == Map::<Seq<char>, bool>::empty(),
    {
        Prefs { entries: Vec::new() }
    }

    /// The place of the last setting of `key`, if there is one.
    fn position(&self, key: &String) -> (found: Option<usize>)
        ensures
            match found {
                Some(i) => {
                    &&& i < self.entries@.len()
                    &&& self.entries@[i as int].0@ == key@
                    &&& forall|j: int| i < j < self.entries@.len() ==> self.entries@[j].0@ != key@
                },
                None => forall|j: int|
                    0 <= j < self.entries@.len() ==> self.entries@[j].0@ != key@,
            },
    {
        let mut i: usize = self.entries.len();
        while i > 0
            invariant
                i <= self.entries@.len(),
                forall|j: int| i <= j < self.entries@.len() ==> self.entries@[j].0@ != key@,
            decreases i,
        {
            i -= 1;
            if self.entries[i].0 == *key {
                return Some(i);
            }
        }
        None
    }

    /// Reads the preference `key`: its value if it was set, `false` if not.
    pub fn get(&self, key: &str) -> (value: bool)
        ensures
            value == self.spec_get(key@),
    {
        let key = String::from_str(key);
        match self.position(&key) {
            Some(i) => {
                proof {
                    lemma_settings_last_match(self.entries@, key@, i as int);
                }
                self.entries[i].1
            },
            None => {
                proof {
                    lemma_settings_no_match(self.entries@, key@);
                }
                false
            },
        }
    }

    /// Sets the preference `key` to `value` and leaves every other key as it
    /// was.
    pub fn set(&mut self, key: &str, value: bool)
        ensures
            final(self)@ == old(self)@.insert(key@, value),
    {
        let key = String::from_str(key);
        match self.position(&key) {
            Some(i) => {
                proof {
                    lemma_settings_replace(self.entries@, i as int, (key, value));
                }
                self.entries.set(i, (key, value));
            },
            None => {
                assert(self.entries@.push((key, value)).drop_last() == self.entries@);
                self.entries.push((key, value));
            },
        }
    }
}

} // verus!
