//! The per-button download feedback flags: a finite map from button
//! identifier to a "download in progress" flag.
//!
//! An absent identifier reads as `false`. A flag is raised when its button
//! starts a download and cleared — set to `false`, not removed — once the
//! pointer no longer hovers the button.

use vstd::prelude::*;
use vstd::string::*;

verus! {

/// The flag stored under `key`, with absent keys reading as `false`.
pub open spec fn spec_flag(m: Map<Seq<char>, bool>, key: Seq<char>) -> bool {
    m.contains_key(key) && m[key]
}

/// Whether a click on the button `key` starts a download: only a click
/// while the button is not busy does.
pub open spec fn spec_button_fires(m: Map<Seq<char>, bool>, key: Seq<char>, clicked: bool) -> bool {
    clicked && !spec_flag(m, key)
}

/// One frame's transition of the flag of button `key`: a click on an idle
/// button raises it; a busy button that is no longer hovered has it
/// cleared; anything else leaves the map as it is.
pub open spec fn spec_button_step(
    m: Map<Seq<char>, bool>,
    key: Seq<char>,
    clicked: bool,
    hovered: bool,
) -> Map<Seq<char>, bool> {
    if clicked && !spec_flag(m, key) {
        m.insert(key, true)
    } else if spec_flag(m, key) && !hovered {
        m.insert(key, false)
    } else {
        m
    }
}

/// The feedback flags, keyed by button identifier.
#[derive(Clone, Debug)]
pub struct FeedbackMap {
    entries: Vec<(String, bool)>,
}

spec fn map_of(s: Seq<(String, bool)>) -> Map<Seq<char>, bool>
    decreases s.len(),
{
    if s.len() == 0 {
        Map::empty()
    } else {
        map_of(s.drop_last()).insert(s.last().0@, s.last().1)
    }
}

spec fn keys_distinct(s: Seq<(String, bool)>) -> bool {
    forall|i: int, j: int| 0 <= i < j < s.len() ==> s[i].0@ != s[j].0@
}

proof fn lemma_keys_distinct_drop_last(s: Seq<(String, bool)>)
    requires
        keys_distinct(s),
        s.len() > 0,
    ensures
        keys_distinct(s.drop_last()),
{
    assert forall|i: int, j: int|
        0 <= i < j < s.drop_last().len() implies s.drop_last()[i].0@ != s.drop_last()[j].0@ by {
        assert(s.drop_last()[i] == s[i]);
        assert(s.drop_last()[j] == s[j]);
    }
}

proof fn lemma_map_of_contains(s: Seq<(String, bool)>, key: Seq<char>)
    ensures
        map_of(s).contains_key(key) <==> exists|i: int| 0 <= i < s.len() && s[i].0@ == key,
    decreases s.len(),
{
    if s.len() == 0 {
    } else {
        lemma_map_of_contains(s.drop_last(), key);
        if s.last().0@ == key {
            assert(s[s.len() - 1].0@ == key);
        } else {
            if map_of(s).contains_key(key) {
                let i = choose|i: int| 0 <= i < s.drop_last().len() && s.drop_last()[i].0@ == key;
                assert(s[i].0@ == key);
            }
            if exists|i: int| 0 <= i < s.len() && s[i].0@ == key {
                let i = choose|i: int| 0 <= i < s.len() && s[i].0@ == key;
                assert(i < s.len() - 1);
                assert(s.drop_last()[i].0@ == key);
            }
        }
    }
}

proof fn lemma_map_of_value_at(s: Seq<(String, bool)>, i: int)
    requires
        keys_distinct(s),
        0 <= i < s.len(),
    ensures
        map_of(s).contains_key(s[i].0@),
        map_of(s)[s[i].0@] == s[i].1,
    decreases s.len(),
{
    if i == s.len() - 1 {
    } else {
        lemma_keys_distinct_drop_last(s);
        lemma_map_of_value_at(s.drop_last(), i);
        assert(s.drop_last()[i] == s[i]);
        assert(s.last().0@ != s[i].0@);
    }
}

proof fn lemma_map_of_update(s: Seq<(String, bool)>, i: int, v: bool)
    requires
        keys_distinct(s),
        0 <= i < s.len(),
    ensures
        map_of(s.update(i, (s[i].0, v))) == map_of(s).insert(s[i].0@, v),
        keys_distinct(s.update(i, (s[i].0, v))),
    decreases s.len(),
{
    let s2 = s.update(i, (s[i].0, v));
    assert forall|p: int, q: int| 0 <= p < q < s2.len() implies s2[p].0@ != s2[q].0@ by {
        assert(s2[p].0@ == s[p].0@);
        assert(s2[q].0@ == s[q].0@);
    }
    if i == s.len() - 1 {
        assert(s2.drop_last() =~= s.drop_last());
        assert(s2.last() == (s[i].0, v));
        assert(map_of(s2) == map_of(s.drop_last()).insert(s[i].0@, v));
        assert(map_of(s).insert(s[i].0@, v) =~= map_of(s.drop_last()).insert(s[i].0@, v));
    } else {
        lemma_keys_distinct_drop_last(s);
        lemma_map_of_update(s.drop_last(), i, v);
        assert(s.drop_last()[i] == s[i]);
        assert(s2.drop_last() =~= s.drop_last().update(i, (s[i].0, v)));
        assert(s2.last() == s.last());
        assert(map_of(s2) == map_of(s.drop_last()).insert(s[i].0@, v).insert(
            s.last().0@,
            s.last().1,
        ));
        assert(s.last().0@ != s[i].0@);
        assert(map_of(s2) =~= map_of(s).insert(s[i].0@, v));
    }
}

proof fn lemma_map_of_push(s: Seq<(String, bool)>, e: (String, bool))
    ensures
        map_of(s.push(e)) == map_of(s).insert(e.0@, e.1),
{
    assert(s.push(e).drop_last() =~= s);
    assert(s.push(e).last() == e);
    assert(s.push(e).len() == s.len() + 1);
}

impl FeedbackMap {
    /// The flags as a map from button identifier to flag.
    pub closed spec fn view(&self) -> Map<Seq<char>, bool> {
        map_of(self.entries@)
    }

    /// Each button identifier is stored at most once.
    pub closed spec fn wf(&self) -> bool {
        keys_distinct(self.entries@)
    }

    /// An empty feedback map: every button reads as idle.
    pub fn new() -> (m: FeedbackMap)
        ensures
            m.wf(),
            m@ == Map::<Seq<char>, bool>::empty(),
    {
        let m = FeedbackMap { entries: Vec::new() };
        proof {
            assert(m.entries@.len() == 0);
        }
        m
    }

    /// Reads the flag of button `key`; an absent key reads as `false`.
    pub fn get(&self, key: &String) -> (b: bool)
        requires
            self.wf(),
        ensures
            b == spec_flag(self@, key@),
    {
        let n = self.entries.len();
        let mut idx: usize = 0;
        while idx < n
            invariant
                n == self.entries.len(),
                self.wf(),
                forall|k: int| 0 <= k < idx ==> self.entries@[k].0@ != key@,
            decreases n - idx,
        {
            if self.entries[idx].0 == *key {
                proof {
                    lemma_map_of_value_at(self.entries@, idx as int);
                }
                return self.entries[idx].1;
            }
            idx += 1;
        }
        proof {
            lemma_map_of_contains(self.entries@, key@);
        }
        false
    }

    /// Stores `value` under button `key`, keeping every other flag.
    pub fn insert(&mut self, key: &String, value: bool)
        requires
            old(self).wf(),
        ensures
            final(self).wf(),
            final(self)@ == old(self)@.insert(key@, value),
    {
        let n = self.entries.len();
        let mut idx: usize = 0;
        while idx < n
            invariant
                n == self.entries.len(),
                self.entries@ == old(self).entries@,
                keys_distinct(self.entries@),
                forall|k: int| 0 <= k < idx ==> self.entries@[k].0@ != key@,
            decreases n - idx,
        {
            if self.entries[idx].0 == *key {
                let k2 = self.entries[idx].0.clone();
                let ghost s_old = self.entries@;
                self.entries.set(idx, (k2, value));
                proof {
                    assert(self.entries@ == s_old.update(idx as int, (s_old[idx as int].0, value)));
                    lemma_map_of_update(s_old, idx as int, value);
                }
                return ;
            }
            idx += 1;
        }
        proof {
            lemma_map_of_contains(self.entries@, key@);
        }
        let ghost s_old = self.entries@;
        self.entries.push((key.clone(), value));
        proof {
            lemma_map_of_push(s_old, (*key, value));
            assert(self.entries@ == s_old.push((*key, value)));
            assert forall|i: int, j: int|
                0 <= i < j < self.entries@.len() implies self.entries@[i].0@
                != self.entries@[j].0@ by {
                if j < s_old.len() {
                    assert(self.entries@[i] == s_old[i]);
                    assert(self.entries@[j] == s_old[j]);
                } else {
                    assert(self.entries@[i] == s_old[i]);
                    assert(self.entries@[j].0@ == key@);
                }
            }
        }
    }

    /// One frame's transition of button `key`, given whether its button was
    /// clicked and whether the pointer hovers it. Returns whether the click
    /// starts a download: a click while the button is busy starts none.
    pub fn button_step(&mut self, key: &String, clicked: bool, hovered: bool) -> (fired: bool)
        requires
            old(self).wf(),
        ensures
            final(self).wf(),
            fired == spec_button_fires(old(self)@, key@, clicked),
            final(self)@ == spec_button_step(old(self)@, key@, clicked, hovered),
    {
        let busy = self.get(key);
        if clicked && !busy {
            self.insert(key, true);
            true
        } else if busy && !hovered {
            self.insert(key, false);
            false
        } else {
            false
        }
    }
}

} // verus!
