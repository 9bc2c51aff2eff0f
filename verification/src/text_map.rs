//! A small map from text keys to values, kept as a list in which no key occurs twice.

use vstd::prelude::*;
use vstd::string::StringSliceAdditionalSpecFns;

verus! {

/// Whether two texts hold the same characters.
pub fn same_text(a: &str, b: &str) -> (r: bool)
    ensures
        r == (a@ == b@),
{
    let x = a.as_bytes();
    let y = b.as_bytes();
    if x.len() != y.len() {
        return false;
    }
    let mut i: usize = 0;
    while i < x.len()
        invariant
            x@ == a.spec_bytes(),
            y@ == b.spec_bytes(),
            x@.len() == y@.len(),
            i <= x@.len(),
            forall|j: int| 0 <= j < i ==> x@[j] == y@[j],
        decreases x@.len() - i,
    {
        if x[i] != y[i] {
            return false;
        }
        i += 1;
    }
    proof {
        assert(x@ =~= y@);
        vstd::utf8::encode_utf8_decode_utf8(a@);
        vstd::utf8::encode_utf8_decode_utf8(b@);
    }
    true
}

/// A map keyed by text. Each key is held once.
#[derive(Debug)]
pub struct TextMap<V> {
    entries: Vec<(String, V)>,
}

impl<V> TextMap<V> {
    /// The key of the entry at position `i`.
    pub closed spec fn key_at(&self, i: int) -> Seq<char> {
        self.entries@[i].0@
    }

    /// Some position that holds `key`, where there is one.
    pub closed spec fn position(&self, key: Seq<char>) -> int {
        choose|i: int| 0 <= i < self.entries@.len() && self.key_at(i) == key
    }

    /// No key occurs twice.
    pub closed spec fn wf(&self) -> bool {
        forall|i: int, j: int|
            0 <= i < j < self.entries@.len() ==> self.key_at(i) != self.key_at(j)
    }

    /// The map that the entries stand for.
    pub closed spec fn view(&self) -> Map<Seq<char>, V> {
        Map::new(
            |k: Seq<char>| exists|i: int| 0 <= i < self.entries@.len() && self.key_at(i) == k,
            |k: Seq<char>| self.entries@[self.position(k)].1,
        )
    }

    /// In a well-formed map the entry at `i` is what the view gives for its key.
    proof fn entry_is_viewed(&self, i: int)
        requires
            self.wf(),
            0 <= i < self.entries@.len(),
        ensures
            self@.contains_key(self.key_at(i)),
            self@[self.key_at(i)] == self.entries@[i].1,
            self.position(self.key_at(i)) == i,
    {
        let k = self.key_at(i);
        let p = self.position(k);
        assert(0 <= p < self.entries@.len() && self.key_at(p) == k);
        if p < i {
            assert(self.key_at(p) != self.key_at(i));
        } else if i < p {
            assert(self.key_at(i) != self.key_at(p));
        }
    }

    /// An empty map.
    pub fn new() -> (m: Self)
        ensures
            m.wf(),
            m@ == Map::<Seq<char>, V>::empty(),
    {
        let m = TextMap { entries: Vec::new() };
        assert(m@ =~= Map::<Seq<char>, V>::empty());
        m
    }

    /// The position of `key` among the entries, or their number where it is absent.
    fn find(&self, key: &str) -> (i: usize)
        ensures
            i <= self.entries@.len(),
            i < self.entries@.len() ==> self.key_at(i as int) == key@,
            i == self.entries@.len() ==> !self@.contains_key(key@),
    {
        let mut i: usize = 0;
        while i < self.entries.len()
            invariant
                i <= self.entries@.len(),
                forall|j: int| 0 <= j < i ==> self.key_at(j) != key@,
            decreases self.entries@.len() - i,
        {
            if same_text(self.entries[i].0.as_str(), key) {
                return i;
            }
            i += 1;
        }
        i
    }

    /// The value held under `key`, if any.
    pub fn get(&self, key: &str) -> (r: Option<&V>)
        requires
            self.wf(),
        ensures
            match r {
                Some(v) => self@.contains_key(key@) && self@[key@] == *v,
                None => !self@.contains_key(key@),
            },
    {
        let i: usize = self.find(key);
        if i < self.entries.len() {
            proof {
                self.entry_is_viewed(i as int);
            }
            Some(&self.entries[i].1)
        } else {
            None
        }
    }

    /// Puts `value` under `key`, in place of what was held there.
    pub fn insert(&mut self, key: String, value: V)
        requires
            old(self).wf(),
        ensures
            final(self).wf(),
            final(self)@ == old(self)@.insert(key@, value),
    {
        let i: usize = self.find(key.as_str());
        let ghost before = *self;
        let ghost k = key@;
        if i < self.entries.len() {
            self.entries.set(i, (key, value));
            assert forall|j: int| 0 <= j < self.entries@.len() implies #[trigger] self.key_at(j)
                == before.key_at(j) by {}
            assert forall|a: int, b: int| 0 <= a < b < self.entries@.len() implies self.key_at(a)
                != self.key_at(b) by {
                assert(before.key_at(a) != before.key_at(b));
            }
            assert(self.wf());
            assert forall|q: Seq<char>| #[trigger] self@.contains_key(q) implies self@[q]
                == before@.insert(k, value)[q] by {
                let p = self.position(q);
                self.entry_is_viewed(p);
                if p != i {
                    before.entry_is_viewed(p);
                }
            }
            assert forall|q: Seq<char>| self@.contains_key(q) == #[trigger] before@.insert(
                k,
                value,
            ).contains_key(q) by {
                if before@.contains_key(q) {
                    let p = before.position(q);
                    assert(self.key_at(p) == q);
                }
                if self@.contains_key(q) {
                    let p = self.position(q);
                    assert(before.key_at(p) == q);
                }
            }
            assert(self@ =~= before@.insert(k, value));
        } else {
            self.entries.push((key, value));
            let ghost n: int = before.entries@.len() as int;
            assert forall|j: int| 0 <= j < n implies #[trigger] self.key_at(j) == before.key_at(
                j,
            ) by {}
            assert(self.key_at(n) == k);
            assert forall|j: int| 0 <= j < n implies #[trigger] self.key_at(j) != k by {
                if before.key_at(j) == k {
                    assert(before@.contains_key(k));
                }
            }
            assert forall|a: int, b: int| 0 <= a < b < self.entries@.len() implies self.key_at(a)
                != self.key_at(b) by {
                if b < n {
                    assert(before.key_at(a) != before.key_at(b));
                }
            }
            assert(self.wf());
            assert forall|q: Seq<char>| #[trigger] self@.contains_key(q) implies self@[q]
                == before@.insert(k, value)[q] by {
                let p = self.position(q);
                self.entry_is_viewed(p);
                if p != n {
                    before.entry_is_viewed(p);
                }
            }
            assert forall|q: Seq<char>| self@.contains_key(q) == #[trigger] before@.insert(
                k,
                value,
            ).contains_key(q) by {
                if before@.contains_key(q) {
                    let p = before.position(q);
                    assert(self.key_at(p) == q);
                }
                if self@.contains_key(q) {
                    let p = self.position(q);
                    if p != n {
                        assert(before.key_at(p) == q);
                    }
                }
            }
            assert(self@ =~= before@.insert(k, value));
        }
    }
}

} // verus!
