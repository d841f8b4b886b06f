//! Keyed entries kept in the order in which their keys first arrived.
use vstd::prelude::*;

verus! {

/// No key stands twice among the entries.
pub open spec fn keys_unique<V>(s: Seq<(String, V)>) -> bool {
    forall|i: int, j: int| 0 <= i < j < s.len() ==> s[i].0@ != s[j].0@
}

/// Whether some entry has the key.
pub open spec fn has_key<V>(s: Seq<(String, V)>, k: Seq<char>) -> bool {
    exists|i: int| 0 <= i < s.len() && s[i].0@ == k
}

/// The entries after setting `key` to `value`: an entry with that key takes
/// the new key and value in its place; otherwise the pair is appended.
pub open spec fn upserted<V>(s: Seq<(String, V)>, key: String, value: V) -> Seq<(String, V)> {
    if has_key(s, key@) {
        let i = choose|i: int| 0 <= i < s.len() && s[i].0@ == key@;
        s.update(i, (key, value))
    } else {
        s.push((key, value))
    }
}

/// Sets `key` to `value` among the entries (last write wins).
pub fn upsert<V>(entries: &mut Vec<(String, V)>, key: String, value: V)
    requires
        keys_unique(old(entries)@),
    ensures
        final(entries)@ == upserted(old(entries)@, key, value),
        keys_unique(final(entries)@),
{
    let ghost k = key@;
    let mut i: usize = 0;
    while i < entries.len()
        invariant
            0 <= i <= entries@.len(),
            entries@ == old(entries)@,
            keys_unique(entries@),
            k == key@,
            forall|j: int| 0 <= j < i ==> entries@[j].0@ != k,
        decreases entries@.len() - i,
    {
        let same = entries[i].0 == key;
        if same {
            proof {
                let s = old(entries)@;
                assert(has_key(s, k));
                let c = choose|c: int| 0 <= c < s.len() && s[c].0@ == k;
                assert(c == i);
            }
            entries.set(i, (key, value));
            return;
        }
        i = i + 1;
    }
    entries.push((key, value));
}

} // verus!
