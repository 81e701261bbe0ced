//! A YAML document tree, as a parser hands it over, and the lookups that the
//! workspace and template configuration files are read with.
use vstd::prelude::*;

use crate::text::{str_eq, views};

verus! {

/// A YAML value. Mapping entries keep their document order; keys are unique.
#[derive(Debug)]
pub enum YamlValue {
    Null,
    Bool(bool),
    /// A number, kept in its textual form.
    Number(String),
    Str(String),
    Sequence(Vec<YamlValue>),
    Mapping(Vec<(YamlValue, YamlValue)>),
}

/// `k` is the string key `key`.
pub open spec fn key_is(k: YamlValue, key: Seq<char>) -> bool {
    k matches YamlValue::Str(s) && s@ == key
}

/// Index of the first entry at or after `i` whose key is the string `key` (the length if none).
pub open spec fn entry_index(entries: Seq<(YamlValue, YamlValue)>, key: Seq<char>, i: int) -> int
    decreases entries.len() - i,
{
    if i >= entries.len() {
        entries.len() as int
    } else if key_is(entries[i].0, key) {
        i
    } else {
        entry_index(entries, key, i + 1)
    }
}

pub proof fn lemma_entry_index(entries: Seq<(YamlValue, YamlValue)>, key: Seq<char>, i: int)
    requires
        0 <= i <= entries.len(),
    ensures
        i <= entry_index(entries, key, i) <= entries.len(),
        entry_index(entries, key, i) < entries.len() ==> key_is(
            entries[entry_index(entries, key, i)].0,
            key,
        ),
        forall|k: int| i <= k < entry_index(entries, key, i) ==> !key_is(entries[k].0, key),
    decreases entries.len() - i,
{
    if i < entries.len() && !key_is(entries[i].0, key) {
        lemma_entry_index(entries, key, i + 1);
    }
}

/// The value under the string key `key` of a mapping (`serde_yaml::Value::get` with a `&str`).
pub open spec fn spec_get(v: YamlValue, key: Seq<char>) -> Option<YamlValue> {
    match v {
        YamlValue::Mapping(entries) => {
            let i = entry_index(entries@, key, 0);
            if i < entries@.len() {
                Some(entries@[i].1)
            } else {
                None
            }
        },
        _ => None,
    }
}

/// The text of a string value (`serde_yaml::Value::as_str`).
pub open spec fn spec_as_str(v: YamlValue) -> Option<Seq<char>> {
    match v {
        YamlValue::Str(s) => Some(s@),
        _ => None,
    }
}

/// The text under `outer.inner`, when both lookups succeed and the value is a string.
pub open spec fn spec_str_at(v: YamlValue, outer: Seq<char>, inner: Seq<char>) -> Option<
    Seq<char>,
> {
    match spec_get(v, outer) {
        Some(o) => match spec_get(o, inner) {
            Some(i) => spec_as_str(i),
            None => None,
        },
        None => None,
    }
}

/// The value is the string `s`.
pub open spec fn is_str_value(v: YamlValue, s: Seq<char>) -> bool {
    v matches YamlValue::Str(t) && t@ == s
}

/// The texts of the string elements of a sequence, in order (others skipped).
pub open spec fn str_elements(items: Seq<YamlValue>) -> Seq<Seq<char>>
    decreases items.len(),
{
    if items.len() == 0 {
        Seq::empty()
    } else {
        let rest = str_elements(items.drop_last());
        match items.last() {
            YamlValue::Str(s) => rest.push(s@),
            _ => rest,
        }
    }
}

/// Finds the position of the entry with string key `key`.
pub fn find_entry(entries: &Vec<(YamlValue, YamlValue)>, key: &str) -> (r: usize)
    ensures
        r == entry_index(entries@, key@, 0),
{
    let mut i: usize = 0;
    while i < entries.len()
        invariant
            i <= entries@.len(),
            entry_index(entries@, key@, 0) == entry_index(entries@, key@, i as int),
        decreases entries@.len() - i,
    {
        let hit = match &entries[i].0 {
            YamlValue::Str(s) => str_eq(s.as_str(), key),
            _ => false,
        };
        if hit {
            return i;
        }
        i = i + 1;
    }
    i
}

impl YamlValue {
    /// The value under the string key `key`, when `self` is a mapping that has it.
    pub fn get(&self, key: &str) -> (r: Option<&YamlValue>)
        ensures
            r is Some == spec_get(*self, key@) is Some,
            r matches Some(x) ==> spec_get(*self, key@) == Some(*x),
    {
        match self {
            YamlValue::Mapping(entries) => {
                let i = find_entry(entries, key);
                if i < entries.len() {
                    Some(&entries[i].1)
                } else {
                    None
                }
            },
            _ => None,
        }
    }

    /// The text of a string value.
    pub fn as_str(&self) -> (r: Option<&String>)
        ensures
            r is Some == spec_as_str(*self) is Some,
            r matches Some(s) ==> spec_as_str(*self) == Some(s@),
    {
        match self {
            YamlValue::Str(s) => Some(s),
            _ => None,
        }
    }

    /// Whether the value is the string `s`.
    pub fn is_str(&self, s: &str) -> (r: bool)
        ensures
            r == is_str_value(*self, s@),
    {
        match self {
            YamlValue::Str(t) => str_eq(t.as_str(), s),
            _ => false,
        }
    }

    /// The text under `outer.inner`, when both lookups succeed and the value is a string.
    pub fn str_at(&self, outer: &str, inner: &str) -> (r: Option<&String>)
        ensures
            r is Some == spec_str_at(*self, outer@, inner@) is Some,
            r matches Some(s) ==> spec_str_at(*self, outer@, inner@) == Some(s@),
    {
        match self.get(outer) {
            Some(o) => match o.get(inner) {
                Some(i) => i.as_str(),
                None => None,
            },
            None => None,
        }
    }
}

/// Copies the texts of the string elements of a sequence.
pub fn collect_str_elements(items: &Vec<YamlValue>) -> (r: Vec<String>)
    ensures
        views(r@) == str_elements(items@),
{
    let mut out: Vec<String> = Vec::new();
    let mut i: usize = 0;
    while i < items.len()
        invariant
            i <= items@.len(),
            views(out@) == str_elements(items@.subrange(0, i as int)),
        decreases items@.len() - i,
    {
        let ghost before = out@;
        assert(items@.subrange(0, i + 1).drop_last() =~= items@.subrange(0, i as int));
        match &items[i] {
            YamlValue::Str(s) => {
                out.push(s.clone());
                assert(views(out@) =~= views(before).push(s@));
            },
            _ => {},
        }
        i = i + 1;
    }
    assert(items@.subrange(0, i as int) =~= items@);
    out
}

} // verus!
