//! Named types that stand for a more specific shape.
use crate::text::str_eq;
use crate::types::RustType;
use vstd::prelude::*;

verus! {

/// The entry for `n`: the latest one wins.
pub open spec fn alias_lookup(entries: Seq<(String, RustType)>, n: Seq<char>) -> Option<RustType>
    decreases entries.len(),
{
    if entries.len() == 0 {
        None
    } else if entries.last().0@ == n {
        Some(entries.last().1)
    } else {
        alias_lookup(entries.drop_last(), n)
    }
}

#[derive(Debug)]
pub struct AliasMap {
    pub entries: Vec<(String, RustType)>,
}

impl AliasMap {
    /// The descriptor that `n` is a synonym for, if any.
    pub open spec fn spec_get(&self, n: Seq<char>) -> Option<RustType> {
        alias_lookup(self.entries@, n)
    }

    /// A descriptor after one step of alias resolution: the alias target of
    /// its name where there is one, else the descriptor itself.
    pub open spec fn spec_resolve(&self, t: RustType) -> RustType {
        match self.spec_get(t.name@) {
            Some(u) => u,
            None => t,
        }
    }

    pub fn new() -> (r: AliasMap)
        ensures
            r.entries@.len() == 0,
    {
        AliasMap { entries: Vec::new() }
    }

    /// Records `name` as a synonym for `alias`, replacing an earlier entry.
    pub fn insert(&mut self, name: String, alias: RustType)
        ensures
            final(self).entries@ == old(self).entries@.push((name, alias)),
            final(self).spec_get(name@) == Some(alias),
    {
        self.entries.push((name, alias));
        assert(self.entries@.drop_last() =~= old(self).entries@);
    }

    pub fn get_mapped_value(&self, n: &str) -> (r: Option<&RustType>)
        ensures
            match r {
                Some(t) => self.spec_get(n@) == Some(*t),
                None => self.spec_get(n@) is None,
            },
    {
        let mut i: usize = self.entries.len();
        assert(self.entries@.subrange(0, i as int) =~= self.entries@);
        while i > 0
            invariant
                i <= self.entries@.len(),
                self.spec_get(n@) == alias_lookup(self.entries@.subrange(0, i as int), n@),
            decreases i,
        {
            let ghost prefix = self.entries@.subrange(0, i as int);
            assert(prefix.drop_last() =~= self.entries@.subrange(0, i - 1));
            if str_eq(self.entries[i - 1].0.as_str(), n) {
                return Some(&self.entries[i - 1].1);
            }
            i = i - 1;
        }
        assert(self.entries@.subrange(0, 0) =~= Seq::<(String, RustType)>::empty());
        None
    }

    /// One step of alias resolution.
    pub fn resolve<'a>(&'a self, t: &'a RustType) -> (r: &'a RustType)
        ensures
            *r == self.spec_resolve(*t),
    {
        match self.get_mapped_value(t.name.as_str()) {
            Some(u) => u,
            None => t,
        }
    }
}

} // verus!
