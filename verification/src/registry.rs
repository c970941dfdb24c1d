//! The curated tables: the shorthand registry, and sets of plugin names.

use crate::text::same_text;
use vstd::prelude::*;
use vstd::string::*;

verus! {

/// One entry of the shorthand registry: a well-known name and the canonical URL of its source.
#[derive(Debug, Clone)]
pub struct Shorthand {
    pub name: String,
    pub url: String,
}

/// The URL of the first of `entries` that is named `name`.
pub open spec fn first_url(entries: Seq<Shorthand>, name: Seq<char>) -> Option<Seq<char>>
    decreases entries.len(),
{
    if entries.len() == 0 {
        None
    } else if entries[0].name@ == name {
        Some(entries[0].url@)
    } else {
        first_url(entries.drop_first(), name)
    }
}

/// Maps well-known plugin names to the canonical URLs of their sources. Of two entries with
/// one name the earlier counts.
#[derive(Debug, Clone)]
pub struct ShorthandRegistry {
    pub entries: Vec<Shorthand>,
}

impl ShorthandRegistry {
    /// The canonical URL registered for `name`, if any.
    pub open spec fn spec_get(&self, name: Seq<char>) -> Option<Seq<char>> {
        first_url(self.entries@, name)
    }

    /// A registry without entries.
    pub fn new() -> (r: Self)
        ensures
            forall|name: Seq<char>| r.spec_get(name) is None,
    {
        ShorthandRegistry { entries: Vec::new() }
    }

    /// Registers `url` for `name`, in place of what was registered for it before.
    pub fn insert(&mut self, name: String, url: String)
        ensures
            forall|other: Seq<char>| #[trigger]
                final(self).spec_get(other) == if other == name@ {
                    Some(url@)
                } else {
                    old(self).spec_get(other)
                },
    {
        self.entries.insert(0, Shorthand { name, url });
        assert(self.entries@.drop_first() =~= old(self).entries@);
    }

    /// The canonical URL registered for `name`, if any.
    pub fn get(&self, name: &str) -> (r: Option<&String>)
        ensures
            match r {
                Some(url) => self.spec_get(name@) == Some(url@),
                None => self.spec_get(name@) is None,
            },
    {
        let n: usize = self.entries.len();
        let mut i: usize = 0;
        assert(self.entries@.skip(0) =~= self.entries@);
        while i < n
            invariant
                i <= n,
                n == self.entries@.len(),
                self.spec_get(name@) == first_url(self.entries@.skip(i as int), name@),
            decreases n - i,
        {
            if same_text(self.entries[i].name.as_str(), name) {
                return Some(&self.entries[i].url);
            }
            assert(self.entries@.skip(i as int).drop_first() =~= self.entries@.skip(i + 1));
            i = i + 1;
        }
        None
    }
}

/// A set of plugin names: those trusted whatever remote they resolve to, or those switched
/// off.
#[derive(Debug, Clone)]
pub struct NameSet {
    pub names: Vec<String>,
}

impl NameSet {
    /// Whether `name` is in the set.
    pub open spec fn spec_contains(&self, name: Seq<char>) -> bool {
        exists|i: int| 0 <= i < self.names@.len() && (#[trigger] self.names@[i])@ == name
    }

    /// The empty set.
    pub fn new() -> (r: Self)
        ensures
            forall|name: Seq<char>| !r.spec_contains(name),
    {
        NameSet { names: Vec::new() }
    }

    /// Adds `name` to the set.
    pub fn insert(&mut self, name: String)
        ensures
            forall|other: Seq<char>| #[trigger]
                final(self).spec_contains(other) == (other == name@ || old(self).spec_contains(
                    other,
                )),
    {
        let ghost before = self.names@;
        self.names.push(name);
        proof {
            let after = self.names@;
            assert forall|other: Seq<char>| #[trigger]
                self.spec_contains(other) == (other == name@ || old(self).spec_contains(
                    other,
                )) by {
                if other == name@ {
                    assert(after[after.len() - 1]@ == other);
                } else if old(self).spec_contains(other) {
                    let i = choose|i: int| 0 <= i < before.len() && (#[trigger] before[i])@ == other;
                    assert(after[i]@ == other);
                } else if self.spec_contains(other) {
                    let i = choose|i: int| 0 <= i < after.len() && (#[trigger] after[i])@ == other;
                    assert(before[i]@ == other);
                }
            }
        }
    }

    /// Whether `name` is in the set.
    pub fn contains(&self, name: &str) -> (b: bool)
        ensures
            b == self.spec_contains(name@),
    {
        let n: usize = self.names.len();
        let mut i: usize = 0;
        while i < n
            invariant
                i <= n,
                n == self.names@.len(),
                forall|k: int| 0 <= k < i ==> (#[trigger] self.names@[k])@ != name@,
            decreases n - i,
        {
            if same_text(self.names[i].as_str(), name) {
                return true;
            }
            i = i + 1;
        }
        false
    }
}

} // verus!
