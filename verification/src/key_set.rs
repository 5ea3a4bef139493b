//! Sets of keys, kept as lists in which no key occurs twice.

use vstd::prelude::*;
use vstd::string::*;

verus! {

/// The set of keys that a list of keys stands for.
pub open spec fn key_set(keys: Seq<String>) -> Set<Seq<char>> {
    Set::new(|k: Seq<char>| exists|i: int| 0 <= i < keys.len() && (#[trigger] keys[i])@ == k)
}

/// Whether no two keys of the list are the same.
pub open spec fn distinct_keys(keys: Seq<String>) -> bool {
    forall|i: int, j: int|
        0 <= i < j < keys.len() ==> (#[trigger] keys[i])@ != (#[trigger] keys[j])@
}

/// The empty list stands for the empty set.
pub proof fn lemma_key_set_empty()
    ensures
        key_set(Seq::<String>::empty()) == Set::<Seq<char>>::empty(),
{
    assert(key_set(Seq::<String>::empty()) =~= Set::<Seq<char>>::empty());
}

/// Appending a key to the list inserts it into the set.
pub proof fn lemma_key_set_push(keys: Seq<String>, key: String)
    ensures
        key_set(keys.push(key)) == key_set(keys).insert(key@),
{
    let pushed = keys.push(key);
    let inserted = key_set(keys).insert(key@);
    assert forall|k: Seq<char>| key_set(pushed).contains(k) <==> inserted.contains(k) by {
        if key_set(pushed).contains(k) {
            let i = choose|i: int| 0 <= i < pushed.len() && (#[trigger] pushed[i])@ == k;
            if i < keys.len() {
                assert(keys[i]@ == k);
            }
        }
        if key_set(keys).contains(k) {
            let i = choose|i: int| 0 <= i < keys.len() && (#[trigger] keys[i])@ == k;
            assert(pushed[i]@ == k);
        }
        if k == key@ {
            assert(pushed[keys.len() as int]@ == k);
        }
    }
    assert(key_set(pushed) =~= inserted);
}

/// A list without repetition, extended by a key that is not in it, is
/// without repetition.
pub proof fn lemma_push_keeps_distinct(keys: Seq<String>, key: String)
    requires
        distinct_keys(keys),
        !key_set(keys).contains(key@),
    ensures
        distinct_keys(keys.push(key)),
{
    let pushed = keys.push(key);
    assert forall|i: int, j: int| 0 <= i < j < pushed.len() implies
        (#[trigger] pushed[i])@ != (#[trigger] pushed[j])@ by {
        if j == keys.len() {
            assert(keys[i]@ == pushed[i]@);
            assert(key_set(keys).contains(keys[i]@));
        } else {
            assert(keys[i]@ != keys[j]@);
        }
    }
}

/// A list without repetition stands for a set of its own length.
pub proof fn lemma_key_set_len(keys: Seq<String>)
    requires
        distinct_keys(keys),
    ensures
        key_set(keys).finite(),
        key_set(keys).len() == keys.len(),
    decreases keys.len(),
{
    if keys.len() == 0 {
        assert(keys =~= Seq::<String>::empty());
        lemma_key_set_empty();
    } else {
        let front = keys.drop_last();
        let last = keys.last();
        assert(keys =~= front.push(last));
        assert(distinct_keys(front)) by {
            assert forall|i: int, j: int| 0 <= i < j < front.len() implies
                (#[trigger] front[i])@ != (#[trigger] front[j])@ by {
                assert(keys[i]@ != keys[j]@);
            }
        }
        lemma_key_set_len(front);
        lemma_key_set_push(front, last);
        assert(!key_set(front).contains(last@)) by {
            if key_set(front).contains(last@) {
                let i = choose|i: int| 0 <= i < front.len() && (#[trigger] front[i])@ == last@;
                assert(keys[i]@ != keys[keys.len() - 1]@);
            }
        }
    }
}

/// Whether `key` occurs in `keys`.
fn contains_key(keys: &Vec<String>, key: &str) -> (found: bool)
    ensures
        found == key_set(keys@).contains(key@),
{
    let wanted: String = key.to_owned();
    let mut i: usize = 0;
    while i < keys.len()
        invariant
            i <= keys.len(),
            wanted@ == key@,
            forall|j: int| 0 <= j < i ==> (#[trigger] keys@[j])@ != key@,
        decreases keys.len() - i,
    {
        if keys[i] == wanted {
            return true;
        }
        i += 1;
    }
    false
}

/// A finite set of keys.
#[derive(Debug)]
pub struct KeySet {
    keys: Vec<String>,
}

impl View for KeySet {
    type V = Set<Seq<char>>;

    closed spec fn view(&self) -> Set<Seq<char>> {
        key_set(self.keys@)
    }
}

impl KeySet {
    #[verifier::type_invariant]
    spec fn listed_once(&self) -> bool {
        distinct_keys(self.keys@)
    }

    /// The empty set.
    pub fn new() -> (set: KeySet)
        ensures
            set@ == Set::<Seq<char>>::empty(),
    {
        proof {
            lemma_key_set_empty();
        }
        KeySet { keys: Vec::new() }
    }

    /// The number of keys in the set.
    pub fn len(&self) -> (count: usize)
        ensures
            self@.finite(),
            count == self@.len(),
    {
        proof {
            use_type_invariant(self);
            lemma_key_set_len(self.keys@);
        }
        self.keys.len()
    }

    /// Whether the set holds no key.
    pub fn is_empty(&self) -> (empty: bool)
        ensures
            empty == (self@ == Set::<Seq<char>>::empty()),
    {
        proof {
            use_type_invariant(self);
            lemma_key_set_len(self.keys@);
            if self.keys@.len() == 0 {
                assert(self@ =~= Set::<Seq<char>>::empty());
            } else {
                assert(self@.contains(self.keys@[0]@));
            }
        }
        self.keys.len() == 0
    }

    /// Whether `key` is in the set.
    pub fn contains(&self, key: &str) -> (found: bool)
        ensures
            found == self@.contains(key@),
    {
        contains_key(&self.keys, key)
    }

    /// Puts `key` into the set. Returns whether the key is new to the set.
    pub fn insert(&mut self, key: String) -> (added: bool)
        ensures
            final(self)@ == old(self)@.insert(key@),
            added == !old(self)@.contains(key@),
    {
        proof {
            use_type_invariant(&*self);
        }
        if contains_key(&self.keys, key.as_str()) {
            assert(self@.insert(key@) =~= self@);
            false
        } else {
            let mut keys: Vec<String> = Vec::new();
            std::mem::swap(&mut keys, &mut self.keys);
            proof {
                lemma_key_set_push(keys@, key);
                lemma_push_keeps_distinct(keys@, key);
            }
            keys.push(key);
            self.keys = keys;
            true
        }
    }

    /// The keys of the set, each once.
    pub fn to_vec(&self) -> (keys: Vec<String>)
        ensures
            key_set(keys@) == self@,
            distinct_keys(keys@),
    {
        proof {
            use_type_invariant(self);
        }
        let mut keys: Vec<String> = Vec::new();
        let mut i: usize = 0;
        while i < self.keys.len()
            invariant
                i <= self.keys.len(),
                keys@ == self.keys@.take(i as int),
            decreases self.keys.len() - i,
        {
            keys.push(self.keys[i].clone());
            assert(self.keys@.take(i + 1) =~= self.keys@.take(i as int).push(self.keys@[i as int]));
            i += 1;
        }
        assert(self.keys@.take(self.keys.len() as int) =~= self.keys@);
        keys
    }

    /// The set of the keys in `keys`.
    pub fn from_keys(keys: &Vec<String>) -> (set: KeySet)
        ensures
            set@ == key_set(keys@),
    {
        let mut set = KeySet::new();
        let mut i: usize = 0;
        proof {
            lemma_key_set_empty();
            assert(keys@.take(0) =~= Seq::<String>::empty());
        }
        while i < keys.len()
            invariant
                i <= keys.len(),
                set@ == key_set(keys@.take(i as int)),
            decreases keys.len() - i,
        {
            proof {
                lemma_key_set_push(keys@.take(i as int), keys@[i as int]);
                assert(keys@.take(i + 1) =~= keys@.take(i as int).push(keys@[i as int]));
            }
            set.insert(keys[i].clone());
            i += 1;
        }
        assert(keys@.take(keys.len() as int) =~= keys@);
        set
    }
}

impl Clone for KeySet {
    /// A set of the same keys.
    fn clone(&self) -> (copy: KeySet)
        ensures
            copy@ == self@,
    {
        let keys = self.to_vec();
        KeySet { keys }
    }
}

} // verus!
