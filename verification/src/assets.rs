//! The static resource resolver: a precompiled map from resource key to
//! bytes and mime type, looked up by exact key.

use vstd::prelude::*;
use crate::text::str_eq;

verus! {

/// The first entry under the given key, scanning from the front.
pub open spec fn spec_lookup(
    s: Seq<(String, (Vec<u8>, String))>,
    key: Seq<char>,
) -> Option<(Seq<u8>, Seq<char>)>
    decreases s.len(),
{
    if s.len() == 0 {
        None
    } else if s[0].0@ == key {
        Some((s[0].1.0@, s[0].1.1@))
    } else {
        spec_lookup(s.skip(1), key)
    }
}

/// The precompiled asset map, registered once at startup.
pub struct AssetMap {
    entries: Vec<(String, (Vec<u8>, String))>,
}

impl AssetMap {
    /// What a key resolves to.
    pub closed spec fn spec_resolve(&self, key: Seq<char>) -> Option<(Seq<u8>, Seq<char>)> {
        spec_lookup(self.entries@, key)
    }

    /// An empty map: nothing resolves.
    pub fn new() -> (r: AssetMap)
        ensures
            forall|k: Seq<char>| r.spec_resolve(k) is None,
    {
        AssetMap { entries: Vec::new() }
    }

    /// Registers one resource. An already-registered key keeps its first
    /// entry; any other key is untouched.
    pub fn register(&mut self, key: String, bytes: Vec<u8>, mime: String)
        ensures
            final(self).spec_resolve(key@) == (if old(self).spec_resolve(key@) is Some {
                old(self).spec_resolve(key@)
            } else {
                Some((bytes@, mime@))
            }),
            forall|k: Seq<char>|
                k != key@ ==> final(self).spec_resolve(k) == old(self).spec_resolve(k),
    {
        let ghost olde = self.entries@;
        let ghost e = (key, (bytes, mime));
        let pair = (key, (bytes, mime));
        self.entries.push(pair);
        proof {
            assert forall|k: Seq<char>| true implies spec_lookup(olde.push(e), k) == (
            if spec_lookup(olde, k) is Some {
                spec_lookup(olde, k)
            } else if e.0@ == k {
                Some((e.1.0@, e.1.1@))
            } else {
                None
            }) by {
                lemma_lookup_push(olde, e, k);
            }
        }
    }

    /// Resolves a request path against the map: the registered bytes and
    /// mime type, or nothing for an unregistered key.
    pub fn resolve(&self, key: &str) -> (r: Option<(Vec<u8>, String)>)
        ensures
            match r {
                Some(bm) => self.spec_resolve(key@) == Some((bm.0@, bm.1@)),
                None => self.spec_resolve(key@) is None,
            },
    {
        let mut i: usize = 0;
        proof {
            assert(self.entries@.skip(0) =~= self.entries@);
        }
        while i < self.entries.len()
            invariant
                i <= self.entries@.len(),
                spec_lookup(self.entries@, key@) == spec_lookup(
                    self.entries@.skip(i as int),
                    key@,
                ),
            decreases self.entries@.len() - i,
        {
            proof {
                assert(self.entries@.skip(i as int)[0] == self.entries@[i as int]);
                assert(self.entries@.skip(i as int).skip(1) =~= self.entries@.skip(i + 1));
            }
            if str_eq(self.entries[i].0.as_str(), key) {
                let bytes = copy_bytes(&self.entries[i].1.0);
                let mime = self.entries[i].1.1.clone();
                return Some((bytes, mime));
            }
            i += 1;
        }
        None
    }
}

fn copy_bytes(v: &Vec<u8>) -> (r: Vec<u8>)
    ensures
        r@ == v@,
{
    let mut r: Vec<u8> = Vec::new();
    let mut i: usize = 0;
    while i < v.len()
        invariant
            i <= v@.len(),
            r@ == v@.subrange(0, i as int),
        decreases v@.len() - i,
    {
        r.push(v[i]);
        proof {
            assert(r@ =~= v@.subrange(0, i + 1));
        }
        i += 1;
    }
    proof {
        assert(r@ =~= v@);
    }
    r
}

proof fn lemma_lookup_push(
    s: Seq<(String, (Vec<u8>, String))>,
    e: (String, (Vec<u8>, String)),
    k: Seq<char>,
)
    ensures
        spec_lookup(s.push(e), k) == (if spec_lookup(s, k) is Some {
            spec_lookup(s, k)
        } else if e.0@ == k {
            Some((e.1.0@, e.1.1@))
        } else {
            None
        }),
    decreases s.len(),
{
    if s.len() == 0 {
        assert(s.push(e)[0] == e);
        assert(s.push(e).skip(1) =~= Seq::<(String, (Vec<u8>, String))>::empty());
        assert(spec_lookup(s.push(e).skip(1), k) is None);
        assert(spec_lookup(s, k) is None);
        if e.0@ == k {
            assert(spec_lookup(s.push(e), k) == Some((e.1.0@, e.1.1@)));
        } else {
            assert(spec_lookup(s.push(e), k) == spec_lookup(s.push(e).skip(1), k));
        }
    } else {
        assert(s.push(e)[0] == s[0]);
        assert(s.push(e).skip(1) =~= s.skip(1).push(e));
        lemma_lookup_push(s.skip(1), e, k);
        if s[0].0@ == k {
            assert(spec_lookup(s.push(e), k) == Some((s[0].1.0@, s[0].1.1@)));
            assert(spec_lookup(s, k) == Some((s[0].1.0@, s[0].1.1@)));
        } else {
            assert(spec_lookup(s.push(e), k) == spec_lookup(s.skip(1).push(e), k));
            assert(spec_lookup(s, k) == spec_lookup(s.skip(1), k));
        }
    }
}

} // verus!
