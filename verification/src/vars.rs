//! Input variables handed to the tool as repeated `--var key=value` flags.

use crate::text::push_str;
use crate::text::push_text;
use vstd::prelude::*;
use vstd::string::StringExecFns;

verus! {

/// The first place at which `key` stands in `entries`, if it stands there.
pub open spec fn position(entries: Seq<(Seq<char>, Seq<char>)>, key: Seq<char>) -> Option<int>
    decreases entries.len(),
{
    if entries.len() == 0 {
        None
    } else {
        match position(entries.drop_last(), key) {
            Some(i) => Some(i),
            None => if entries.last().0 == key {
                Some(entries.len() - 1)
            } else {
                None
            },
        }
    }
}

/// No key stands at two places of `entries`.
pub open spec fn distinct_keys(entries: Seq<(Seq<char>, Seq<char>)>) -> bool {
    forall|i: int, j: int|
        0 <= i < j < entries.len() ==> (#[trigger] entries[i]).0 != (#[trigger] entries[j]).0
}

/// The flags that stand for `entries`: for each entry, in order, `--var` and
/// then the key, `=` and the value in one argument.
pub open spec fn var_args(entries: Seq<(Seq<char>, Seq<char>)>) -> Seq<Seq<char>>
    decreases entries.len(),
{
    if entries.len() == 0 {
        Seq::empty()
    } else {
        var_args(entries.drop_last()).push("--var"@).push(
            entries.last().0 + "="@ + entries.last().1,
        )
    }
}

/// `position` finds a key exactly where it stands first.
pub proof fn lemma_position(entries: Seq<(Seq<char>, Seq<char>)>, key: Seq<char>)
    ensures
        match position(entries, key) {
            Some(i) => 0 <= i < entries.len() && entries[i].0 == key && forall|k: int|
                0 <= k < i ==> (#[trigger] entries[k]).0 != key,
            None => forall|k: int| 0 <= k < entries.len() ==> (#[trigger] entries[k]).0 != key,
        },
    decreases entries.len(),
{
    if entries.len() > 0 {
        lemma_position(entries.drop_last(), key);
        let head = entries.drop_last();
        assert forall|k: int| 0 <= k < head.len() implies head[k] == entries[k] by {}
        match position(head, key) {
            Some(i) => {
                assert(head[i] == entries[i]);
                assert forall|k: int| 0 <= k < i implies (#[trigger] entries[k]).0 != key by {
                    assert(head[k] == entries[k]);
                }
            },
            None => {
                assert forall|k: int| 0 <= k < head.len() implies (#[trigger] entries[k]).0
                    != key by {
                    assert(head[k] == entries[k]);
                }
            },
        }
    }
}

/// Every entry gives two arguments: the flag, then `key=value`.
pub proof fn lemma_var_args(entries: Seq<(Seq<char>, Seq<char>)>)
    ensures
        var_args(entries).len() == 2 * entries.len(),
        forall|i: int|
            0 <= i < entries.len() ==> #[trigger] var_args(entries)[2 * i] == "--var"@,
        forall|i: int|
            0 <= i < entries.len() ==> #[trigger] var_args(entries)[2 * i + 1] == entries[i].0
                + "="@ + entries[i].1,
    decreases entries.len(),
{
    if entries.len() > 0 {
        let head = entries.drop_last();
        lemma_var_args(head);
        assert forall|i: int| 0 <= i < entries.len() implies #[trigger] var_args(entries)[2 * i]
            == "--var"@ by {
            if i < head.len() {
                assert(var_args(entries)[2 * i] == var_args(head)[2 * i]);
            }
        }
        assert forall|i: int| 0 <= i < entries.len() implies #[trigger] var_args(entries)[2 * i
            + 1] == entries[i].0 + "="@ + entries[i].1 by {
            if i < head.len() {
                assert(var_args(entries)[2 * i + 1] == var_args(head)[2 * i + 1]);
                assert(head[i] == entries[i]);
            }
        }
    }
}

/// Where no key stands twice, every entry is found at its own place: each
/// variable gives exactly one pair of arguments.
pub proof fn lemma_one_place_per_key(entries: Seq<(Seq<char>, Seq<char>)>)
    requires
        distinct_keys(entries),
    ensures
        forall|i: int|
            0 <= i < entries.len() ==> position(entries, (#[trigger] entries[i]).0) == Some(i),
{
    assert forall|i: int| 0 <= i < entries.len() implies position(
        entries,
        (#[trigger] entries[i]).0,
    ) == Some(i) by {
        lemma_position(entries, entries[i].0);
        let p = position(entries, entries[i].0);
        if p is None {
            assert(entries[i].0 != entries[i].0);
        } else if p->0 < i {
            assert(entries[p->0].0 != entries[i].0);
        } else if p->0 > i {
            assert(entries[i].0 != entries[i].0);
        }
    }
}

/// The map that a list of entries stands for: each key with the value of
/// its first entry.
pub open spec fn entries_map(entries: Seq<(Seq<char>, Seq<char>)>) -> Map<Seq<char>, Seq<char>> {
    Map::new(
        |key: Seq<char>| position(entries, key) is Some,
        |key: Seq<char>| entries[position(entries, key)->0].1,
    )
}

/// A new value at the place of a key changes the map at that key and
/// nowhere else.
pub proof fn lemma_map_after_update(entries: Seq<(Seq<char>, Seq<char>)>, i: int, value: Seq<char>)
    requires
        0 <= i < entries.len(),
        position(entries, entries[i].0) == Some(i),
    ensures
        entries_map(entries.update(i, (entries[i].0, value))) == entries_map(entries).insert(
            entries[i].0,
            value,
        ),
{
    let key = entries[i].0;
    let after = entries.update(i, (key, value));
    let wanted = entries_map(entries).insert(key, value);
    assert forall|k: Seq<char>| position(after, k) == position(entries, k) by {
        lemma_position(entries, k);
        lemma_position(after, k);
        let p = position(entries, k);
        let q = position(after, k);
        if p is Some {
            assert(after[p->0].0 == k);
            if q is Some {
                assert(entries[q->0].0 == k);
            }
        } else if q is Some {
            assert(entries[q->0].0 == k);
        }
    }
    assert forall|k: Seq<char>| #[trigger]
        entries_map(after).dom().contains(k) == wanted.dom().contains(k) by {
        assert(position(after, k) == position(entries, k));
    }
    assert forall|k: Seq<char>| #[trigger] entries_map(after).dom().contains(k) implies entries_map(
        after,
    )[k] == wanted[k] by {
        assert(position(after, k) == position(entries, k));
        lemma_position(entries, k);
    }
    assert(entries_map(after) =~= wanted);
}

/// An entry with a new key at the end adds the key to the map and changes
/// nothing else.
pub proof fn lemma_map_after_push(
    entries: Seq<(Seq<char>, Seq<char>)>,
    key: Seq<char>,
    value: Seq<char>,
)
    requires
        position(entries, key) is None,
    ensures
        entries_map(entries.push((key, value))) == entries_map(entries).insert(key, value),
{
    let after = entries.push((key, value));
    assert(after.drop_last() =~= entries);
    let wanted = entries_map(entries).insert(key, value);
    assert forall|k: Seq<char>| #[trigger]
        entries_map(after).dom().contains(k) == wanted.dom().contains(k) by {
        assert(position(after, k) is Some <==> position(entries, k) is Some || k == key);
    }
    assert forall|k: Seq<char>| #[trigger] entries_map(after).dom().contains(k) implies entries_map(
        after,
    )[k] == wanted[k] by {
        lemma_position(entries, k);
        if position(entries, k) is Some {
            assert(position(after, k) == position(entries, k));
            assert(k != key);
        } else {
            assert(position(after, k) == Some(entries.len() as int));
        }
    }
    assert(entries_map(after) =~= wanted);
}

/// A map from variable names to values that keeps the order of insertion.
#[derive(Debug)]
pub struct Vars {
    entries: Vec<(String, String)>,
}

impl View for Vars {
    type V = Seq<(Seq<char>, Seq<char>)>;

    closed spec fn view(&self) -> Seq<(Seq<char>, Seq<char>)> {
        self.entries.deep_view()
    }
}

impl DeepView for Vars {
    type V = Seq<(Seq<char>, Seq<char>)>;

    open spec fn deep_view(&self) -> Seq<(Seq<char>, Seq<char>)> {
        self@
    }
}

impl Vars {
    #[verifier::type_invariant]
    spec fn well_formed(&self) -> bool {
        distinct_keys(self.entries.deep_view())
    }

    /// The variables as a map from name to value.
    pub open spec fn as_map(&self) -> Map<Seq<char>, Seq<char>> {
        entries_map(self@)
    }

    /// No variables.
    pub fn new() -> (r: Vars)
        ensures
            r@ == Seq::<(Seq<char>, Seq<char>)>::empty(),
            r.as_map() == Map::<Seq<char>, Seq<char>>::empty(),
    {
        let r = Vars { entries: Vec::new() };
        assert(r.entries.deep_view() =~= Seq::<(Seq<char>, Seq<char>)>::empty());
        assert(r.as_map() =~= Map::<Seq<char>, Seq<char>>::empty());
        r
    }

    /// How many variables there are.
    pub fn len(&self) -> (r: usize)
        ensures
            r == self@.len(),
    {
        self.entries.len()
    }

    /// Whether there is no variable.
    pub fn is_empty(&self) -> (r: bool)
        ensures
            r == (self@.len() == 0),
    {
        self.entries.len() == 0
    }

    fn find(&self, key: &String) -> (r: Option<usize>)
        ensures
            match r {
                Some(i) => position(self@, key@) == Some(i as int),
                None => position(self@, key@) is None,
            },
    {
        let mut i: usize = 0;
        proof {
            lemma_position(self@, key@);
        }
        while i < self.entries.len()
            invariant
                i <= self.entries.len(),
                self@ == self.entries.deep_view(),
                forall|k: int| 0 <= k < i ==> (#[trigger] self@[k]).0 != key@,
            decreases self.entries.len() - i,
        {
            if self.entries[i].0 == *key {
                proof {
                    lemma_position(self@, key@);
                    assert(self@[i as int].0 == key@);
                }
                return Some(i);
            }
            i = i + 1;
        }
        proof {
            lemma_position(self@, key@);
            if position(self@, key@) is Some {
                let p = position(self@, key@)->0;
                assert(self@[p].0 == key@);
            }
        }
        None
    }

    /// The value of the variable `key`, if there is one.
    pub fn get(&self, key: &str) -> (r: Option<String>)
        ensures
            r.deep_view() == if self.as_map().dom().contains(key@) {
                Some(self.as_map()[key@])
            } else {
                None
            },
    {
        let owned = key.to_string();
        match self.find(&owned) {
            Some(i) => {
                proof {
                    lemma_position(self@, key@);
                }
                Some(self.entries[i].1.clone())
            },
            None => None,
        }
    }

    /// Sets the variable `key` to `value`. A variable that is there keeps
    /// its place and gets the new value; a new one goes to the end. Returns
    /// the value that was replaced.
    pub fn insert(&mut self, key: String, value: String) -> (r: Option<String>)
        ensures
            match position(old(self)@, key@) {
                Some(i) => final(self)@ == old(self)@.update(i, (key@, value@)) && r.deep_view()
                    == Some(old(self)@[i].1),
                None => final(self)@ == old(self)@.push((key@, value@)) && r is None,
            },
            final(self).as_map() == old(self).as_map().insert(key@, value@),
    {
        proof {
            use_type_invariant(&*self);
            lemma_position(self@, key@);
        }
        let ghost before = self.entries.deep_view();
        let found = self.find(&key);
        let mut taken = Vars::new();
        core::mem::swap(self, &mut taken);
        let mut entries = taken.entries;
        match found {
            Some(i) => {
                let previous = entries[i].1.clone();
                entries.set(i, (key, value));
                proof {
                    assert(entries.deep_view() =~= before.update(i as int, (key@, value@)));
                    assert forall|a: int, b: int|
                        0 <= a < b < entries.deep_view().len() implies (
                    #[trigger] entries.deep_view()[a]).0 != (#[trigger] entries.deep_view()[b]).0 by {
                        assert(before[a].0 != before[b].0);
                    }
                }
                *self = Vars { entries };
                proof {
                    lemma_map_after_update(before, i as int, value@);
                }
                Some(previous)
            },
            None => {
                entries.push((key, value));
                proof {
                    assert(entries.deep_view() =~= before.push((key@, value@)));
                    assert forall|a: int, b: int|
                        0 <= a < b < entries.deep_view().len() implies (
                    #[trigger] entries.deep_view()[a]).0 != (#[trigger] entries.deep_view()[b]).0 by {
                        if b < before.len() {
                            assert(before[a].0 != before[b].0);
                        } else {
                            assert(before[a].0 != key@);
                        }
                    }
                }
                *self = Vars { entries };
                proof {
                    lemma_map_after_push(before, key@, value@);
                }
                None
            },
        }
    }

    /// The variables as command-line arguments: `--var` and `key=value` for
    /// each variable, every variable once.
    pub fn as_args(&self) -> (r: Vec<String>)
        ensures
            r.deep_view() == var_args(self@),
            distinct_keys(self@),
    {
        proof {
            use_type_invariant(self);
        }
        let mut args: Vec<String> = Vec::new();
        let mut i: usize = 0;
        assert(args.deep_view() =~= var_args(self@.take(0)));
        while i < self.entries.len()
            invariant
                i <= self.entries.len(),
                self@ == self.entries.deep_view(),
                args.deep_view() == var_args(self@.take(i as int)),
            decreases self.entries.len() - i,
        {
            push_str(&mut args, "--var");
            let mut pair = self.entries[i].0.clone();
            pair.append("=");
            pair.append(self.entries[i].1.as_str());
            push_text(&mut args, pair);
            proof {
                let next = self@.take(i + 1);
                assert(next.drop_last() =~= self@.take(i as int));
                assert(next.last() == self@[i as int]);
            }
            i = i + 1;
        }
        assert(self@.take(i as int) =~= self@);
        args
    }
}

} // verus!
