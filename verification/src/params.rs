//! The query parameters of a request: names with their values, each name at
//! most once, in the order in which the names were first given.

use vstd::prelude::*;

verus! {

/// A parameter list as mathematics: pairs of a name and a value.
pub type Pairs = Seq<(Seq<char>, Seq<char>)>;

/// Whether some pair of `s` is named `key`.
pub open spec fn has_key(s: Pairs, key: Seq<char>) -> bool {
    exists|i: int| 0 <= i < s.len() && (#[trigger] s[i]).0 == key
}

/// The place of a pair named `key` in `s`, where there is one.
pub open spec fn key_index(s: Pairs, key: Seq<char>) -> int {
    choose|i: int| 0 <= i < s.len() && (#[trigger] s[i]).0 == key
}

/// Whether no two pairs of `s` have the same name.
pub open spec fn unique_keys(s: Pairs) -> bool {
    forall|i: int, j: int| 0 <= i < j < s.len() ==> (#[trigger] s[i]).0 != (#[trigger] s[j]).0
}

/// The value that `s` gives to `key`, if any.
pub open spec fn lookup(s: Pairs, key: Seq<char>) -> Option<Seq<char>> {
    if has_key(s, key) {
        Some(s[key_index(s, key)].1)
    } else {
        None
    }
}

/// `s` after `key` is set to `value`: a pair of that name keeps its place and
/// takes the new value; a new name goes to the end.
pub open spec fn with_param(s: Pairs, key: Seq<char>, value: Seq<char>) -> Pairs {
    if has_key(s, key) {
        s.update(key_index(s, key), (key, value))
    } else {
        s.push((key, value))
    }
}

/// `s` after `key` is set to `value`, where a value is given; `s` itself where
/// none is.
pub open spec fn with_optional_param(s: Pairs, key: Seq<char>, value: Option<Seq<char>>) -> Pairs {
    match value {
        Some(v) => with_param(s, key, v),
        None => s,
    }
}

/// The pairs that a vector of owned strings stands for.
pub open spec fn pairs_of(v: Seq<(String, String)>) -> Pairs {
    v.map_values(|p: (String, String)| (p.0@, p.1@))
}

/// Setting a parameter keeps the names distinct.
pub proof fn lemma_with_param_unique(s: Pairs, key: Seq<char>, value: Seq<char>)
    requires
        unique_keys(s),
    ensures
        unique_keys(with_param(s, key, value)),
{
    let t = with_param(s, key, value);
    if has_key(s, key) {
        let k = key_index(s, key);
        assert forall|i: int, j: int| 0 <= i < j < t.len() implies (#[trigger] t[i]).0 != (
        #[trigger] t[j]).0 by {
            if i == k {
                assert(s[j].0 != s[k].0);
            } else if j == k {
                assert(s[i].0 != s[k].0);
            } else {
                assert(s[i].0 != s[j].0);
            }
        }
    } else {
        assert forall|i: int, j: int| 0 <= i < j < t.len() implies (#[trigger] t[i]).0 != (
        #[trigger] t[j]).0 by {
            if j == s.len() {
                assert(s[i].0 != key);
            } else {
                assert(s[i].0 != s[j].0);
            }
        }
    }
}

/// A parameter that was set is found again, with the value it was set to.
pub proof fn lemma_lookup_same(s: Pairs, key: Seq<char>, value: Seq<char>)
    requires
        unique_keys(s),
    ensures
        lookup(with_param(s, key, value), key) == Some(value),
{
    let t = with_param(s, key, value);
    lemma_with_param_unique(s, key, value);
    let at = if has_key(s, key) {
        key_index(s, key)
    } else {
        s.len() as int
    };
    assert(t[at].0 == key);
    assert(has_key(t, key));
    let found = key_index(t, key);
    if found != at {
        if found < at {
            assert(t[found].0 != t[at].0);
        } else {
            assert(t[at].0 != t[found].0);
        }
    }
}

/// Setting one parameter leaves the value of every other name as it was.
pub proof fn lemma_lookup_other(s: Pairs, key: Seq<char>, value: Seq<char>, other: Seq<char>)
    requires
        unique_keys(s),
        other != key,
    ensures
        lookup(with_param(s, key, value), other) == lookup(s, other),
{
    let t = with_param(s, key, value);
    lemma_with_param_unique(s, key, value);
    if has_key(s, other) {
        let at = key_index(s, other);
        assert(t[at] == s[at]);
        assert(has_key(t, other));
        let found = key_index(t, other);
        if found != at {
            if found < at {
                assert(t[found].0 != t[at].0);
            } else {
                assert(t[at].0 != t[found].0);
            }
        }
    } else {
        if has_key(t, other) {
            let found = key_index(t, other);
            if found < s.len() {
                assert(s[found].0 == other);
            }
        }
    }
}

/// Setting a parameter that may be absent keeps the names distinct, gives
/// that name the value where there is one, and leaves every other name as it
/// was.
pub proof fn lemma_with_optional_param(
    s: Pairs,
    key: Seq<char>,
    value: Option<Seq<char>>,
    other: Seq<char>,
)
    requires
        unique_keys(s),
        other != key,
    ensures
        unique_keys(with_optional_param(s, key, value)),
        lookup(with_optional_param(s, key, value), other) == lookup(s, other),
        lookup(with_optional_param(s, key, value), key) == match value {
            Some(v) => Some(v),
            None => lookup(s, key),
        },
{
    match value {
        Some(v) => {
            lemma_with_param_unique(s, key, v);
            lemma_lookup_same(s, key, v);
            lemma_lookup_other(s, key, v, other);
        },
        None => {},
    }
}

/// The query parameters of one request.
#[derive(Debug)]
pub struct Params {
    entries: Vec<(String, String)>,
}

impl View for Params {
    type V = Pairs;

    closed spec fn view(&self) -> Pairs {
        pairs_of(self.entries@)
    }
}

impl Params {
    #[verifier::type_invariant]
    closed spec fn distinct(self) -> bool {
        unique_keys(self@)
    }

    /// The empty list.
    pub fn new() -> (r: Params)
        ensures
            r@ == Seq::<(Seq<char>, Seq<char>)>::empty(),
    {
        let r = Params { entries: Vec::new() };
        assert(r@ =~= Seq::<(Seq<char>, Seq<char>)>::empty());
        r
    }

    /// How many parameters the list holds.
    pub fn len(&self) -> (n: usize)
        ensures
            n == self@.len(),
            unique_keys(self@),
    {
        proof {
            use_type_invariant(self);
        }
        self.entries.len()
    }

    /// The place of the parameter named `key`, or the length of the list
    /// where there is none.
    fn position(&self, key: &String) -> (at: usize)
        ensures
            at <= self@.len(),
            at < self@.len() ==> has_key(self@, key@) && key_index(self@, key@) == at,
            at == self@.len() ==> !has_key(self@, key@),
    {
        proof {
            use_type_invariant(self);
        }
        let mut i: usize = 0;
        while i < self.entries.len()
            invariant
                i <= self.entries@.len(),
                self@ == pairs_of(self.entries@),
                unique_keys(self@),
                forall|j: int| 0 <= j < i ==> (#[trigger] self@[j]).0 != key@,
            decreases self.entries@.len() - i,
        {
            if self.entries[i].0 == *key {
                proof {
                    assert(self@[i as int].0 == key@);
                    let found = key_index(self@, key@);
                    if found != i {
                        if found < i {
                            assert(self@[found].0 != key@);
                        } else {
                            assert(self@[i as int].0 != self@[found].0);
                        }
                    }
                }
                return i;
            }
            assert(self@[i as int].0 != key@);
            i = i + 1;
        }
        i
    }

    /// The value of the parameter named `key`, if the list has one.
    pub fn get(&self, key: &String) -> (r: Option<&String>)
        ensures
            match r {
                Some(v) => lookup(self@, key@) == Some(v@),
                None => lookup(self@, key@).is_none(),
            },
    {
        let at = self.position(key);
        if at < self.entries.len() {
            Some(&self.entries[at].1)
        } else {
            None
        }
    }

    /// Sets the parameter named `key` to `value`.
    pub fn insert(&mut self, key: String, value: String)
        ensures
            final(self)@ == with_param(old(self)@, key@, value@),
            unique_keys(old(self)@),
            unique_keys(final(self)@),
    {
        proof {
            use_type_invariant(&*self);
            lemma_with_param_unique(self@, key@, value@);
        }
        let at = self.position(&key);
        let mut taken = Params::new();
        core::mem::swap(self, &mut taken);
        let mut entries = taken.entries;
        if at < entries.len() {
            entries.set(at, (key, value));
        } else {
            entries.push((key, value));
        }
        assert(pairs_of(entries@) =~= with_param(old(self)@, key@, value@));
        *self = Params { entries };
    }

    /// The parameters in order, each as a name and a value.
    pub fn entries(&self) -> (r: &Vec<(String, String)>)
        ensures
            pairs_of(r@) == self@,
            unique_keys(self@),
    {
        proof {
            use_type_invariant(self);
        }
        &self.entries
    }
}

} // verus!
