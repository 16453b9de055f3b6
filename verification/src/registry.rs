//! Keyed registries: identity-to-value mappings with an implicit zero default.
//!
//! A registry is a list of key-value entries.  Reads return the value of the
//! first entry with the sought key, and zero when no entry has it: an absent
//! key is the value zero, never an error.  Writes update the first entry with
//! the key, or append a fresh entry.

use vstd::prelude::*;
use crate::address::Address;
use crate::u256::U256;

verus! {

/// The value a sequence of entries associates with `key`: the value of the
/// first entry holding `key`, and zero when none does.
pub open spec fn entries_value(s: Seq<(Address, U256)>, key: Address) -> nat
    decreases s.len(),
{
    if s.len() == 0 {
        0
    } else if s[0].0 == key {
        s[0].1@
    } else {
        entries_value(s.drop_first(), key)
    }
}

/// A mapping from identity to 256-bit value, defaulting to zero on a miss.
pub struct Registry {
    entries: Vec<(Address, U256)>,
}

impl Registry {
    /// The value this registry associates with `key`.
    pub closed spec fn spec_value(&self, key: Address) -> nat {
        entries_value(self.entries@, key)
    }

    /// An empty registry: every identity maps to zero.
    pub fn new() -> (r: Registry)
        ensures
            forall|a: Address| r.spec_value(a) == 0,
    {
        Registry { entries: Vec::new() }
    }

    /// Reads the value for `key`, zero when the key is absent.
    pub fn get(&self, key: Address) -> (r: U256)
        ensures
            r@ == self.spec_value(key),
    {
        let n = self.entries.len();
        let mut i: usize = 0;
        while i < n
            invariant
                n == self.entries.len(),
                i <= n,
                forall|j: int| 0 <= j < i ==> self.entries@[j].0 != key,
            decreases n - i,
        {
            if self.entries[i].0 == key {
                proof {
                    lemma_entries_value_skip(self.entries@, key, i as int);
                }
                return self.entries[i].1;
            }
            i += 1;
        }
        proof {
            lemma_entries_value_skip(self.entries@, key, n as int);
            assert(self.entries@.skip(n as int) =~= Seq::<(Address, U256)>::empty());
        }
        U256::from_u64(0)
    }

    /// Writes `value` for `key`, leaving every other key's value unchanged.
    pub fn set(&mut self, key: Address, value: U256)
        ensures
            final(self).spec_value(key) == value@,
            forall|a: Address| a != key ==> final(self).spec_value(a) == old(self).spec_value(a),
    {
        let n = self.entries.len();
        let mut i: usize = 0;
        while i < n
            invariant
                n == self.entries.len(),
                i <= n,
                *self == *old(self),
                forall|j: int| 0 <= j < i ==> self.entries@[j].0 != key,
            decreases n - i,
        {
            if self.entries[i].0 == key {
                self.entries[i] = (key, value);
                proof {
                    lemma_entries_value_update(old(self).entries@, key, value, i as int);
                }
                return;
            }
            i += 1;
        }
        self.entries.push((key, value));
        proof {
            lemma_entries_value_push(old(self).entries@, key, value);
        }
    }
}

/// Skipping entries that do not hold `key` does not change the value read.
proof fn lemma_entries_value_skip(s: Seq<(Address, U256)>, key: Address, i: int)
    requires
        0 <= i <= s.len(),
        forall|j: int| 0 <= j < i ==> s[j].0 != key,
    ensures
        entries_value(s, key) == entries_value(s.skip(i), key),
    decreases i,
{
    if i > 0 {
        assert(s.skip(1) =~= s.drop_first());
        lemma_entries_value_skip(s.drop_first(), key, i - 1);
        assert(s.drop_first().skip(i - 1) =~= s.skip(i));
    } else {
        assert(s.skip(0) =~= s);
    }
}

/// Overwriting the first entry that holds `key` sets the value read for `key`
/// and changes no other key's value.
proof fn lemma_entries_value_update(s: Seq<(Address, U256)>, key: Address, value: U256, i: int)
    requires
        0 <= i < s.len(),
        s[i].0 == key,
        forall|j: int| 0 <= j < i ==> s[j].0 != key,
    ensures
        entries_value(s.update(i, (key, value)), key) == value@,
        forall|a: Address|
            a != key ==> entries_value(s.update(i, (key, value)), a) == entries_value(s, a),
    decreases i,
{
    let t = s.update(i, (key, value));
    if i == 0 {
        assert(t[0] == (key, value));
        assert(t.drop_first() =~= s.drop_first());
        assert forall|a: Address| a != key implies entries_value(t, a) == entries_value(
            s,
            a,
        ) by {}
    } else {
        assert(t[0] == s[0]);
        assert(t.drop_first() =~= s.drop_first().update(i - 1, (key, value)));
        lemma_entries_value_update(s.drop_first(), key, value, i - 1);
        assert forall|a: Address| a != key implies entries_value(t, a) == entries_value(
            s,
            a,
        ) by {
            assert(entries_value(t.drop_first(), a) == entries_value(s.drop_first(), a));
        }
    }
}

/// Appending an entry for a key no earlier entry holds sets the value read for
/// that key and changes no other key's value.
proof fn lemma_entries_value_push(s: Seq<(Address, U256)>, key: Address, value: U256)
    requires
        forall|j: int| 0 <= j < s.len() ==> s[j].0 != key,
    ensures
        entries_value(s.push((key, value)), key) == value@,
        forall|a: Address|
            a != key ==> entries_value(s.push((key, value)), a) == entries_value(s, a),
    decreases s.len(),
{
    let t = s.push((key, value));
    if s.len() == 0 {
        assert(t[0] == (key, value));
        assert(t.drop_first() =~= Seq::<(Address, U256)>::empty());
        assert forall|a: Address| a != key implies entries_value(t, a) == entries_value(
            s,
            a,
        ) by {
            assert(entries_value(t.drop_first(), a) == 0);
        }
    } else {
        assert(t[0] == s[0]);
        assert(t.drop_first() =~= s.drop_first().push((key, value)));
        lemma_entries_value_push(s.drop_first(), key, value);
        assert forall|a: Address| a != key implies entries_value(t, a) == entries_value(
            s,
            a,
        ) by {
            assert(entries_value(t.drop_first(), a) == entries_value(s.drop_first(), a));
        }
    }
}

} // verus!
