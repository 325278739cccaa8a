//! Named credentials and ordered string-to-string parameter lists.

use vstd::prelude::*;
use vstd::string::*;
use crate::text::str_eq;

verus! {

/// A parameter list in the model: pairs of name and value, in insertion order.
pub type Entries = Seq<(Seq<char>, Seq<char>)>;

/// No name occurs twice.
pub open spec fn distinct_keys(s: Entries) -> bool {
    forall|i: int, j: int| 0 <= i < j < s.len() ==> s[i].0 != s[j].0
}

/// The index of the first pair named `key`, or the list's length if there is none.
pub open spec fn position(s: Entries, key: Seq<char>) -> int
    decreases s.len(),
{
    if s.len() == 0 {
        0
    } else if s[0].0 == key {
        0
    } else {
        1 + position(s.drop_first(), key)
    }
}

/// Whether a pair of that name is in the list.
pub open spec fn has_key(s: Entries, key: Seq<char>) -> bool {
    position(s, key) < s.len()
}

/// The value stored under `key`, if any.
pub open spec fn lookup(s: Entries, key: Seq<char>) -> Option<Seq<char>> {
    if has_key(s, key) {
        Some(s[position(s, key)].1)
    } else {
        None
    }
}

/// Stores `value` under `key`: in place where the name is present, at the end otherwise.
pub open spec fn put(s: Entries, key: Seq<char>, value: Seq<char>) -> Entries {
    if has_key(s, key) {
        s.update(position(s, key), (key, value))
    } else {
        s.push((key, value))
    }
}

/// Stores the pairs of `more` one after the other.
pub open spec fn put_all(s: Entries, more: Entries) -> Entries
    decreases more.len(),
{
    if more.len() == 0 {
        s
    } else {
        put(put_all(s, more.drop_last()), more.last().0, more.last().1)
    }
}

/// `position` finds the first pair of that name and nothing before it.
pub proof fn lemma_position(s: Entries, key: Seq<char>)
    ensures
        0 <= position(s, key) <= s.len(),
        forall|j: int| 0 <= j < position(s, key) ==> (#[trigger] s[j]).0 != key,
        has_key(s, key) ==> s[position(s, key)].0 == key,
    decreases s.len(),
{
    if s.len() > 0 && s[0].0 != key {
        let rest = s.drop_first();
        lemma_position(rest, key);
        assert forall|j: int| 0 <= j < position(s, key) implies (#[trigger] s[j]).0 != key by {
            if j > 0 {
                assert(s[j] == rest[j - 1]);
            }
        }
    }
}

/// An index whose pair bears the name, with no such pair before it, is the position.
pub proof fn lemma_position_is(s: Entries, key: Seq<char>, i: int)
    requires
        0 <= i <= s.len(),
        forall|j: int| 0 <= j < i ==> (#[trigger] s[j]).0 != key,
        i < s.len() ==> s[i].0 == key,
    ensures
        position(s, key) == i,
{
    lemma_position(s, key);
    let p = position(s, key);
    if p < i {
        assert(s[p].0 != key);
    } else if i < p {
        assert(s[i].0 != key);
    }
}

/// A pair under a name that is not yet there goes to the end.
pub proof fn lemma_put_fresh(s: Entries, key: Seq<char>, value: Seq<char>)
    requires
        forall|i: int| 0 <= i < s.len() ==> (#[trigger] s[i]).0 != key,
    ensures
        put(s, key, value) == s.push((key, value)),
{
    lemma_position_is(s, key, s.len() as int);
}

/// Storing a pair keeps the names distinct.
pub proof fn lemma_put_keeps_keys_distinct(s: Entries, key: Seq<char>, value: Seq<char>)
    requires
        distinct_keys(s),
    ensures
        distinct_keys(put(s, key, value)),
        lookup(put(s, key, value), key) == Some(value),
        put(s, key, value).len() == if has_key(s, key) { s.len() } else { s.len() + 1 },
{
    lemma_position(s, key);
    let p = position(s, key);
    let t = put(s, key, value);
    assert forall|i: int, j: int| 0 <= i < j < t.len() implies t[i].0 != t[j].0 by {
        if has_key(s, key) {
            assert(t[i].0 == s[i].0);
            assert(t[j].0 == s[j].0);
        } else if j == s.len() {
            assert(s[i].0 != key);
        }
    }
    lemma_position_is(t, key, p);
}

/// After storing a pair, a list holds that pair and what it held under other names.
pub proof fn lemma_put_contains(
    s: Entries,
    key: Seq<char>,
    value: Seq<char>,
    p: (Seq<char>, Seq<char>),
)
    requires
        distinct_keys(s),
    ensures
        put(s, key, value).contains(p) <==> (p == (key, value) || (s.contains(p) && p.0 != key)),
{
    lemma_position(s, key);
    let t = put(s, key, value);
    let at = position(s, key);
    if t.contains(p) {
        let i = choose|i: int| 0 <= i < t.len() && t[i] == p;
        if i != at {
            assert(s[i] == p);
        }
    }
    if p == (key, value) {
        assert(t[at] == p);
    }
    if s.contains(p) && p.0 != key {
        let i = choose|i: int| 0 <= i < s.len() && s[i] == p;
        assert(t[i] == p);
    }
}

/// Two mappings that hold the same pairs still do so after the same pair
/// was stored in both.
pub proof fn lemma_put_same_pairs(a: Entries, b: Entries, key: Seq<char>, value: Seq<char>)
    requires
        distinct_keys(a),
        distinct_keys(b),
        forall|p: (Seq<char>, Seq<char>)| a.contains(p) <==> b.contains(p),
    ensures
        distinct_keys(put(a, key, value)),
        distinct_keys(put(b, key, value)),
        forall|p: (Seq<char>, Seq<char>)|
            put(a, key, value).contains(p) <==> put(b, key, value).contains(p),
{
    lemma_put_keeps_keys_distinct(a, key, value);
    lemma_put_keeps_keys_distinct(b, key, value);
    assert forall|p: (Seq<char>, Seq<char>)|
        put(a, key, value).contains(p) <==> put(b, key, value).contains(p) by {
        lemma_put_contains(a, key, value, p);
        lemma_put_contains(b, key, value, p);
    }
}

/// A named credential: a key and the secret that goes with it.
#[derive(Debug)]
pub struct KeyPair {
    pub key: String,
    pub value: String,
}

impl View for KeyPair {
    type V = (Seq<char>, Seq<char>);

    open spec fn view(&self) -> (Seq<char>, Seq<char>) {
        (self.key@, self.value@)
    }
}

impl Clone for KeyPair {
    fn clone(&self) -> (r: Self)
        ensures
            r@ == self@,
    {
        KeyPair { key: self.key.clone(), value: self.value.clone() }
    }
}

impl KeyPair {
    /// A credential of the given key and secret.
    pub fn new(key: &str, value: &str) -> (r: Self)
        ensures
            r@ == (key@, value@),
    {
        KeyPair { key: String::from_str(key), value: String::from_str(value) }
    }

    /// The credential of a flow that has no resource-owner token: both parts empty.
    pub fn empty() -> (r: Self)
        ensures
            r@ == (Seq::<char>::empty(), Seq::<char>::empty()),
    {
        KeyPair { key: String::new(), value: String::new() }
    }
}

/// The pairs that a run of credentials stands for.
pub open spec fn pair_views(s: Seq<KeyPair>) -> Entries {
    s.map_values(|p: KeyPair| p@)
}

/// The pairs that a run of string pairs stands for.
pub open spec fn string_pairs(s: Seq<(String, String)>) -> Entries {
    s.map_values(|p: (String, String)| (p.0@, p.1@))
}

/// A string-to-string mapping that remembers the order of insertion. Names are unique.
#[derive(Debug)]
pub struct KeyVal {
    entries: Vec<KeyPair>,
}

/// The parameters of a request are such a mapping.
pub type RequestParams = KeyVal;

impl View for KeyVal {
    type V = Entries;

    closed spec fn view(&self) -> Entries {
        pair_views(self.entries@)
    }
}

impl Clone for KeyVal {
    fn clone(&self) -> (r: Self)
        ensures
            r@ == self@,
    {
        proof {
            use_type_invariant(self);
        }
        let mut entries: Vec<KeyPair> = Vec::new();
        let mut i: usize = 0;
        while i < self.entries.len()
            invariant
                i <= self.entries.len(),
                entries@.len() == i,
                forall|j: int| 0 <= j < i ==> (#[trigger] entries@[j])@ == self.entries@[j]@,
            decreases self.entries.len() - i,
        {
            entries.push(self.entries[i].clone());
            i += 1;
        }
        assert(pair_views(entries@) =~= self@);
        KeyVal { entries }
    }
}

impl Default for KeyVal {
    fn default() -> (r: Self)
        ensures
            r@ == Seq::<(Seq<char>, Seq<char>)>::empty(),
    {
        KeyVal::new()
    }
}

impl KeyVal {
    #[verifier::type_invariant]
    spec fn names_are_unique(self) -> bool {
        distinct_keys(self@)
    }

    /// A mapping without pairs.
    pub fn new() -> (r: Self)
        ensures
            r@ == Seq::<(Seq<char>, Seq<char>)>::empty(),
    {
        let r = KeyVal { entries: Vec::new() };
        assert(r@ =~= Seq::<(Seq<char>, Seq<char>)>::empty());
        r
    }

    /// A mapping with one pair.
    pub fn new_with_keyval(key: String, value: String) -> (r: Self)
        ensures
            r@ == seq![(key@, value@)],
    {
        let r = KeyVal::new().add_keyval(key, value);
        assert(r@ =~= seq![(key@, value@)]);
        r
    }

    /// The number of pairs.
    pub fn len(&self) -> (n: usize)
        ensures
            n == self@.len(),
            distinct_keys(self@),
    {
        proof {
            use_type_invariant(self);
        }
        self.entries.len()
    }

    /// The pairs in insertion order.
    pub fn pairs(&self) -> (r: &Vec<KeyPair>)
        ensures
            pair_views(r@) == self@,
            distinct_keys(self@),
    {
        proof {
            use_type_invariant(self);
        }
        &self.entries
    }

    /// The pairs in insertion order, each as a pair of strings.
    pub fn to_pairs(&self) -> (r: Vec<(String, String)>)
        ensures
            string_pairs(r@) == self@,
    {
        let mut out: Vec<(String, String)> = Vec::new();
        let mut i: usize = 0;
        while i < self.entries.len()
            invariant
                i <= self.entries.len(),
                out@.len() == i,
                forall|j: int|
                    0 <= j < i ==> (#[trigger] out@[j]).0@ == self.entries@[j].key@ && out@[j].1@
                        == self.entries@[j].value@,
            decreases self.entries.len() - i,
        {
            out.push((self.entries[i].key.clone(), self.entries[i].value.clone()));
            i += 1;
        }
        assert(string_pairs(out@) =~= self@);
        out
    }

    /// The pair at index `i`, in insertion order.
    pub fn entry(&self, i: usize) -> (r: &KeyPair)
        requires
            i < self@.len(),
        ensures
            r@ == self@[i as int],
    {
        &self.entries[i]
    }

    fn find(&self, key: &str) -> (r: usize)
        ensures
            r == position(self@, key@),
            r <= self@.len(),
            r == self.entries@.len() || self.entries@[r as int].key@ == key@,
    {
        let mut i: usize = 0;
        while i < self.entries.len()
            invariant
                i <= self.entries.len(),
                forall|j: int| 0 <= j < i ==> (#[trigger] self@[j]).0 != key@,
            decreases self.entries.len() - i,
        {
            if str_eq(self.entries[i].key.as_str(), key) {
                proof {
                    lemma_position_is(self@, key@, i as int);
                }
                return i;
            }
            assert(self@[i as int].0 != key@);
            i += 1;
        }
        proof {
            lemma_position_is(self@, key@, i as int);
        }
        i
    }

    /// Whether a value is stored under `key`.
    pub fn contains_key(&self, key: &str) -> (r: bool)
        ensures
            r == has_key(self@, key@),
    {
        self.find(key) < self.entries.len()
    }

    /// The value stored under `key`.
    pub fn get(&self, key: &str) -> (r: Option<&String>)
        ensures
            match r {
                Some(v) => lookup(self@, key@) == Some(v@),
                None => lookup(self@, key@) is None,
            },
    {
        let i = self.find(key);
        if i < self.entries.len() {
            Some(&self.entries[i].value)
        } else {
            None
        }
    }

    /// Whether `key` is present and holds exactly `value`.
    pub fn validate(&self, key: &str, value: &str) -> (r: bool)
        ensures
            r == (lookup(self@, key@) == Some(value@)),
    {
        match self.get(key) {
            Some(v) => str_eq(v.as_str(), value),
            None => false,
        }
    }

    /// Whether every one of `keys` is present.
    pub fn verify_present(&self, keys: &Vec<&str>) -> (r: bool)
        ensures
            r == forall|i: int| 0 <= i < keys@.len() ==> has_key(self@, (#[trigger] keys@[i])@),
    {
        let mut i: usize = 0;
        while i < keys.len()
            invariant
                i <= keys.len(),
                forall|j: int| 0 <= j < i ==> has_key(self@, (#[trigger] keys@[j])@),
            decreases keys.len() - i,
        {
            if !self.contains_key(keys[i]) {
                return false;
            }
            i += 1;
        }
        true
    }

    /// Stores `value` under `key`, replacing what the name held before.
    pub fn add_keyval(self, key: String, value: String) -> (r: Self)
        ensures
            r@ == put(self@, key@, value@),
            distinct_keys(r@),
    {
        proof {
            use_type_invariant(&self);
            lemma_put_keeps_keys_distinct(self@, key@, value@);
        }
        let i = self.find(key.as_str());
        let ghost before = self@;
        let mut entries = self.entries;
        if i < entries.len() {
            entries.set(i, KeyPair { key, value });
        } else {
            entries.push(KeyPair { key, value });
        }
        assert(pair_views(entries@) =~= put(before, key@, value@));
        KeyVal { entries }
    }

    /// Stores `value` under `key`, replacing what the name held before.
    pub fn add_param(self, key: &str, value: String) -> (r: Self)
        ensures
            r@ == put(self@, key@, value@),
            distinct_keys(r@),
    {
        self.add_keyval(String::from_str(key), value)
    }

    /// Stores the value under `key` where there is one to store.
    pub fn add_opt_param(self, key: &str, value: Option<String>) -> (r: Self)
        ensures
            r@ == match value {
                Some(v) => put(self@, key@, v@),
                None => self@,
            },
            distinct_keys(r@),
    {
        proof {
            use_type_invariant(&self);
        }
        match value {
            Some(v) => self.add_param(key, v),
            None => self,
        }
    }

    /// Stores the given pairs one after the other.
    pub fn add_list_keyval(self, list: Vec<(String, String)>) -> (r: Self)
        ensures
            r@ == put_all(self@, string_pairs(list@)),
            distinct_keys(r@),
    {
        proof {
            use_type_invariant(&self);
        }
        let ghost more = string_pairs(list@);
        let ghost start = self@;
        let mut acc = self;
        let mut i: usize = 0;
        while i < list.len()
            invariant
                i <= list.len(),
                more == string_pairs(list@),
                acc@ == put_all(start, more.take(i as int)),
                distinct_keys(acc@),
            decreases list.len() - i,
        {
            let key = list[i].0.clone();
            let value = list[i].1.clone();
            proof {
                assert(more.take(i + 1).drop_last() =~= more.take(i as int));
                assert(more.take(i + 1).last() == (key@, value@));
            }
            acc = acc.add_keyval(key, value);
            i += 1;
        }
        assert(more.take(list.len() as int) =~= more);
        acc
    }
}

} // verus!
