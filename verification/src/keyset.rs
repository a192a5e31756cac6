//! A set of text keys kept as a list without duplicates, in insertion order.

use vstd::prelude::*;
use crate::text::{strs, same_text};

verus! {

/// Removing an element of a list without duplicates removes it from the set
/// of its elements, and nothing else.
proof fn lemma_remove_distinct<A>(s: Seq<A>, i: int)
    requires
        s.no_duplicates(),
        0 <= i < s.len(),
    ensures
        s.remove(i).no_duplicates(),
        s.remove(i).to_set() == s.to_set().remove(s[i]),
        s.remove(i).len() == s.len() - 1,
{
    let r = s.remove(i);
    assert forall|a: int, b: int| 0 <= a < r.len() && 0 <= b < r.len() && a != b implies r[a] != r[b] by {
        let sa = if a < i { a } else { a + 1 };
        let sb = if b < i { b } else { b + 1 };
        assert(r[a] == s[sa]);
        assert(r[b] == s[sb]);
    }
    assert forall|x: A| r.to_set().contains(x) <==> s.to_set().remove(s[i]).contains(x) by {
        if r.contains(x) {
            let k = choose|k: int| 0 <= k < r.len() && r[k] == x;
            let sk = if k < i { k } else { k + 1 };
            assert(s[sk] == x);
        }
        if s.contains(x) && x != s[i] {
            let k = choose|k: int| 0 <= k < s.len() && s[k] == x;
            if k < i {
                assert(r[k] == x);
            } else {
                assert(k != i);
                assert(r[k - 1] == x);
            }
        }
    }
    assert(r.to_set() =~= s.to_set().remove(s[i]));
}

/// Appending an element absent from a list without duplicates keeps it
/// without duplicates.
proof fn lemma_push_distinct<A>(s: Seq<A>, x: A)
    requires
        s.no_duplicates(),
        !s.contains(x),
    ensures
        s.push(x).no_duplicates(),
{
    let t = s.push(x);
    assert forall|a: int, b: int| 0 <= a < t.len() && 0 <= b < t.len() && a != b implies t[a] != t[b] by {
        if a == t.len() - 1 {
            assert(t[b] == s[b]);
        } else if b == t.len() - 1 {
            assert(t[a] == s[a]);
        }
    }
}

/// Text keys, each held once, in the order they were added.
pub struct KeySet {
    keys: Vec<String>,
}

impl View for KeySet {
    type V = Seq<Seq<char>>;

    closed spec fn view(&self) -> Seq<Seq<char>> {
        strs(self.keys@)
    }
}

impl KeySet {
    /// No key is held twice.
    #[verifier::type_invariant]
    spec fn distinct(self) -> bool {
        strs(self.keys@).no_duplicates()
    }

    /// No keys.
    pub fn new() -> (r: KeySet)
        ensures
            r@ == Seq::<Seq<char>>::empty(),
    {
        let r = KeySet { keys: Vec::new() };
        assert(r@ =~= Seq::<Seq<char>>::empty());
        r
    }

    /// How many keys are held.
    pub fn len(&self) -> (n: usize)
        ensures
            n == self@.len(),
            self@.no_duplicates(),
    {
        proof {
            use_type_invariant(self);
        }
        self.keys.len()
    }

    /// The keys, in the order they were added.
    pub fn keys(&self) -> (r: &Vec<String>)
        ensures
            strs(r@) == self@,
            self@.no_duplicates(),
    {
        proof {
            use_type_invariant(self);
        }
        &self.keys
    }

    /// Where `key` is held, if it is.
    fn position(&self, key: &str) -> (r: Option<usize>)
        ensures
            r is None ==> !self@.contains(key@),
            r matches Some(i) ==> i < self@.len() && self@[i as int] == key@,
    {
        let n: usize = self.keys.len();
        let mut i: usize = 0;
        while i < n
            invariant
                n == self.keys@.len(),
                i <= n,
                forall|j: int| 0 <= j < i ==> self.keys@[j]@ != key@,
            decreases n - i,
        {
            if same_text(self.keys[i].as_str(), key) {
                assert(self@[i as int] == self.keys@[i as int]@);
                return Some(i);
            }
            i = i + 1;
        }
        assert forall|j: int| 0 <= j < n implies self@[j] != key@ by {
            assert(self@[j] == self.keys@[j]@);
        }
        None
    }

    /// Whether `key` is held.
    pub fn contains(&self, key: &str) -> (r: bool)
        ensures
            r == self@.contains(key@),
            self@.no_duplicates(),
    {
        proof {
            use_type_invariant(self);
        }
        self.position(key).is_some()
    }

    /// Add `key` unless it is held; whether it was added.
    pub fn insert(&mut self, key: String) -> (added: bool)
        ensures
            added == !old(self)@.contains(key@),
            added ==> final(self)@ == old(self)@.push(key@),
            !added ==> final(self)@ == old(self)@,
            final(self)@.no_duplicates(),
    {
        proof {
            use_type_invariant(&*self);
        }
        if self.position(key.as_str()).is_some() {
            return false;
        }
        proof {
            lemma_push_distinct(self@, key@);
        }
        let ghost k = key@;
        let mut keys: Vec<String> = Vec::new();
        std::mem::swap(&mut keys, &mut self.keys);
        keys.push(key);
        assert(strs(keys@) =~= old(self)@.push(k));
        self.keys = keys;
        true
    }

    /// Drop `key` if it is held; whether it was.
    pub fn remove(&mut self, key: &str) -> (removed: bool)
        ensures
            removed == old(self)@.contains(key@),
            final(self)@.to_set() == old(self)@.to_set().remove(key@),
            removed ==> final(self)@.len() == old(self)@.len() - 1,
            !removed ==> final(self)@ == old(self)@,
            final(self)@.no_duplicates(),
    {
        proof {
            use_type_invariant(&*self);
        }
        match self.position(key) {
            None => {
                assert(old(self)@.to_set().remove(key@) =~= old(self)@.to_set());
                false
            },
            Some(i) => {
                proof {
                    lemma_remove_distinct(self@, i as int);
                }
                let mut keys: Vec<String> = Vec::new();
                std::mem::swap(&mut keys, &mut self.keys);
                let _gone = keys.remove(i);
                assert(strs(keys@) =~= old(self)@.remove(i as int));
                self.keys = keys;
                true
            },
        }
    }
}

} // verus!
