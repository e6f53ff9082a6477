//! The result of an extraction: a mapping from field names to rendered
//! texts that remembers the order in which the names came.

use vstd::prelude::*;
use vstd::string::StringExecFns;

verus! {

/// Whether some pair carries the name.
pub open spec fn holds_name(pairs: Seq<(Seq<char>, Seq<char>)>, name: Seq<char>) -> bool {
    exists|i: int| 0 <= i < pairs.len() && #[trigger] pairs[i].0 == name
}

/// A position at which the name stands, where some pair carries it.
pub open spec fn position_of(pairs: Seq<(Seq<char>, Seq<char>)>, name: Seq<char>) -> int {
    choose|i: int| 0 <= i < pairs.len() && #[trigger] pairs[i].0 == name
}

/// No name occurs in two pairs.
pub open spec fn distinct_names(pairs: Seq<(Seq<char>, Seq<char>)>) -> bool {
    forall|i: int, j: int|
        0 <= i < j < pairs.len() ==> #[trigger] pairs[i].0 != #[trigger] pairs[j].0
}

/// The pairs after `name` is given the text `text`: the pair that carries
/// the name has its text replaced and keeps its place; a new name goes to
/// the end.
pub open spec fn upsert(
    pairs: Seq<(Seq<char>, Seq<char>)>,
    name: Seq<char>,
    text: Seq<char>,
) -> Seq<(Seq<char>, Seq<char>)> {
    if holds_name(pairs, name) {
        pairs.update(position_of(pairs, name), (name, text))
    } else {
        pairs.push((name, text))
    }
}

/// The mapping that sends each name carried by a pair to the text beside it.
pub open spec fn mapping_of(pairs: Seq<(Seq<char>, Seq<char>)>) -> Map<Seq<char>, Seq<char>> {
    Map::new(
        |name: Seq<char>| holds_name(pairs, name),
        |name: Seq<char>| pairs[position_of(pairs, name)].1,
    )
}

/// Giving a name a text keeps the names distinct, and changes the mapping
/// at that name alone.
pub proof fn lemma_upsert(pairs: Seq<(Seq<char>, Seq<char>)>, name: Seq<char>, text: Seq<char>)
    requires
        distinct_names(pairs),
    ensures
        distinct_names(upsert(pairs, name, text)),
        mapping_of(upsert(pairs, name, text)) == mapping_of(pairs).insert(name, text),
{
    let after = upsert(pairs, name, text);
    let at = if holds_name(pairs, name) {
        position_of(pairs, name)
    } else {
        pairs.len() as int
    };
    assert(0 <= at < after.len() && after[at] == (name, text));
    assert forall|i: int| 0 <= i < after.len() && i != at implies after[i] == pairs[i] && pairs[i].0
        != name by {
        if holds_name(pairs, name) {
            if i < at {
                assert(pairs[i].0 != pairs[at].0);
            } else {
                assert(pairs[at].0 != pairs[i].0);
            }
        }
    }
    assert(distinct_names(after)) by {
        assert forall|i: int, j: int| 0 <= i < j < after.len() implies after[i].0 != after[j].0 by {
            if i != at && j != at {
                assert(pairs[i].0 != pairs[j].0);
            }
        }
    }
    let wanted = mapping_of(pairs).insert(name, text);
    assert forall|key: Seq<char>| holds_name(after, key) <==> wanted.contains_key(key) by {
        if holds_name(after, key) {
            let i = position_of(after, key);
            if i != at {
                assert(pairs[i].0 == key);
            }
        }
        if key == name {
            assert(after[at].0 == key);
        } else if holds_name(pairs, key) {
            let i = position_of(pairs, key);
            assert(after[i].0 == key);
        }
    }
    assert forall|key: Seq<char>| holds_name(after, key) implies mapping_of(after)[key]
        == wanted[key] by {
        let i = position_of(after, key);
        if key == name {
            if i != at {
                assert(pairs[i].0 != name);
            }
        } else {
            assert(i != at);
            assert(pairs[i].0 == key);
            let j = position_of(pairs, key);
            if i < j {
                assert(pairs[i].0 != pairs[j].0);
            } else if j < i {
                assert(pairs[j].0 != pairs[i].0);
            }
        }
    }
    assert(mapping_of(after) =~= wanted);
}

/// The texts of a list of pairs of strings.
pub open spec fn owned_pairs(pairs: Seq<(String, String)>) -> Seq<(Seq<char>, Seq<char>)> {
    pairs.map_values(|pair: (String, String)| (pair.0@, pair.1@))
}

/// An insertion-ordered mapping from field names to texts.
#[derive(Clone, Debug)]
pub struct FieldMap {
    entries: Vec<(String, String)>,
}

impl View for FieldMap {
    type V = Map<Seq<char>, Seq<char>>;

    /// The mapping, without the order.
    open spec fn view(&self) -> Map<Seq<char>, Seq<char>> {
        mapping_of(self.pairs())
    }
}

impl FieldMap {
    /// The name/text pairs, in the order in which the names first came.
    pub closed spec fn pairs(&self) -> Seq<(Seq<char>, Seq<char>)> {
        owned_pairs(self.entries@)
    }

    /// The invariant of the type: no name stands in two pairs.
    pub open spec fn wf(&self) -> bool {
        distinct_names(self.pairs())
    }

    /// The empty mapping.
    pub fn new() -> (empty: Self)
        ensures
            empty.wf(),
            empty.pairs() == Seq::<(Seq<char>, Seq<char>)>::empty(),
            empty@ == Map::<Seq<char>, Seq<char>>::empty(),
    {
        let empty = FieldMap { entries: Vec::new() };
        assert(empty.pairs() =~= Seq::<(Seq<char>, Seq<char>)>::empty());
        assert(empty@ =~= Map::<Seq<char>, Seq<char>>::empty());
        empty
    }

    /// The number of names.
    pub fn len(&self) -> (n: usize)
        requires
            self.wf(),
        ensures
            n == self.pairs().len(),
            n == self@.len(),
    {
        proof {
            lemma_mapping_len(self.pairs());
        }
        self.entries.len()
    }

    /// Whether the mapping holds no name.
    pub fn is_empty(&self) -> (empty: bool)
        ensures
            empty == (self.pairs().len() == 0),
            empty == (self@ == Map::<Seq<char>, Seq<char>>::empty()),
    {
        proof {
            if self.pairs().len() == 0 {
                assert(self@ =~= Map::<Seq<char>, Seq<char>>::empty());
            } else {
                assert(self.pairs()[0].0 == self.pairs()[0].0);
                assert(self@.contains_key(self.pairs()[0].0));
            }
        }
        self.entries.len() == 0
    }

    /// The position of a name among the pairs.
    fn find(&self, name: &String) -> (found: Option<usize>)
        requires
            self.wf(),
        ensures
            match found {
                Some(at) => holds_name(self.pairs(), name@) && at == position_of(
                    self.pairs(),
                    name@,
                ),
                None => !holds_name(self.pairs(), name@),
            },
    {
        let mut i: usize = 0;
        while i < self.entries.len()
            invariant
                i <= self.entries.len(),
                distinct_names(self.pairs()),
                forall|k: int| 0 <= k < i ==> (#[trigger] self.pairs()[k]).0 != name@,
            decreases self.entries.len() - i,
        {
            if self.entries[i].0 == *name {
                proof {
                    assert(self.pairs()[i as int].0 == name@);
                    let j = position_of(self.pairs(), name@);
                    if j < i {
                        assert(self.pairs()[j].0 != self.pairs()[i as int].0);
                    } else if i < j {
                        assert(self.pairs()[i as int].0 != self.pairs()[j].0);
                    }
                }
                return Some(i);
            }
            i = i + 1;
        }
        None
    }

    /// Whether the mapping holds the name.
    pub fn contains_key(&self, name: &str) -> (held: bool)
        requires
            self.wf(),
        ensures
            held == self@.contains_key(name@),
    {
        self.find(&String::from_str(name)).is_some()
    }

    /// The text that the name is mapped to.
    pub fn get(&self, name: &str) -> (text: Option<&String>)
        requires
            self.wf(),
        ensures
            match text {
                Some(t) => self@.contains_key(name@) && self@[name@] == t@,
                None => !self@.contains_key(name@),
            },
    {
        match self.find(&String::from_str(name)) {
            Some(at) => Some(&self.entries[at].1),
            None => None,
        }
    }

    /// Maps `name` to `text`. A name that is already held keeps its place
    /// and has its text replaced; a new name goes to the end.
    pub fn insert(&mut self, name: String, text: String)
        requires
            old(self).wf(),
        ensures
            final(self).wf(),
            final(self).pairs() == upsert(old(self).pairs(), name@, text@),
            final(self)@ == old(self)@.insert(name@, text@),
    {
        proof {
            lemma_upsert(self.pairs(), name@, text@);
        }
        let found = self.find(&name);
        let ghost before = self.pairs();
        match found {
            Some(at) => {
                self.entries.set(at, (name, text));
            },
            None => {
                self.entries.push((name, text));
            },
        }
        assert(self.pairs() =~= upsert(before, name@, text@));
    }

    /// The name/text pairs, in the order in which the names first came.
    pub fn entries(&self) -> (entries: &Vec<(String, String)>)
        ensures
            owned_pairs(entries@) == self.pairs(),
    {
        &self.entries
    }
}

/// A mapping has as many names as the pairs it is made of, where no name
/// occurs in two pairs.
pub proof fn lemma_mapping_len(pairs: Seq<(Seq<char>, Seq<char>)>)
    requires
        distinct_names(pairs),
    ensures
        mapping_of(pairs).dom().finite(),
        mapping_of(pairs).len() == pairs.len(),
    decreases pairs.len(),
{
    if pairs.len() == 0 {
        assert(mapping_of(pairs) =~= Map::<Seq<char>, Seq<char>>::empty());
    } else {
        let init = pairs.drop_last();
        let last = pairs.last();
        assert(distinct_names(init)) by {
            assert forall|i: int, j: int| 0 <= i < j < init.len() implies init[i].0 != init[j].0 by {
                assert(pairs[i].0 != pairs[j].0);
            }
        }
        lemma_mapping_len(init);
        assert(!holds_name(init, last.0)) by {
            if holds_name(init, last.0) {
                let i = position_of(init, last.0);
                assert(pairs[i].0 != pairs[pairs.len() - 1].0);
            }
        }
        lemma_upsert(init, last.0, last.1);
        assert(upsert(init, last.0, last.1) =~= pairs);
        assert(!mapping_of(init).contains_key(last.0));
    }
}

} // verus!
