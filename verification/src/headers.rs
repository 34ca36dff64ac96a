//! Header fields: an ordered mapping from names to values in which no name
//! occurs twice.

use vstd::prelude::*;

verus! {

/// One header field.
#[derive(Debug, Clone, PartialEq, Eq)]
struct Header {
    name: String,
    value: String,
}

/// Header fields in the order in which their names first came.
#[derive(Debug, Clone, PartialEq, Eq)]
pub struct Headers {
    entries: Vec<Header>,
}

/// The index of the first field with the given name; the length of the
/// sequence when there is none.
pub open spec fn position(fields: Seq<(Seq<char>, Seq<char>)>, name: Seq<char>) -> int
    decreases fields.len(),
{
    if fields.len() == 0 {
        0
    } else {
        let before = position(fields.drop_last(), name);
        if before < fields.len() - 1 {
            before
        } else if fields.last().0 == name {
            fields.len() - 1
        } else {
            fields.len() as int
        }
    }
}

/// The value of the field with the given name.
pub open spec fn lookup(fields: Seq<(Seq<char>, Seq<char>)>, name: Seq<char>) -> Option<Seq<char>> {
    let at = position(fields, name);
    if at < fields.len() {
        Some(fields[at].1)
    } else {
        None
    }
}

/// The fields after `name` was given `value`: a field of that name keeps
/// its place and takes the new value; a new name goes to the end.
pub open spec fn put(fields: Seq<(Seq<char>, Seq<char>)>, name: Seq<char>, value: Seq<char>) -> Seq<
    (Seq<char>, Seq<char>),
> {
    let at = position(fields, name);
    if at < fields.len() {
        fields.update(at, (name, value))
    } else {
        fields.push((name, value))
    }
}

/// No name occurs twice.
pub open spec fn distinct_names(fields: Seq<(Seq<char>, Seq<char>)>) -> bool {
    forall|i: int, j: int| 0 <= i < j < fields.len() ==> (#[trigger] fields[i]).0 != (
    #[trigger] fields[j]).0
}

/// The fields that come of putting each pair in turn.
pub open spec fn collect(pairs: Seq<(Seq<char>, Seq<char>)>) -> Seq<(Seq<char>, Seq<char>)>
    decreases pairs.len(),
{
    if pairs.len() == 0 {
        Seq::empty()
    } else {
        put(collect(pairs.drop_last()), pairs.last().0, pairs.last().1)
    }
}

/// What `position` finds: the first field of that name, if there is one.
pub proof fn lemma_position(fields: Seq<(Seq<char>, Seq<char>)>, name: Seq<char>)
    ensures
        0 <= position(fields, name) <= fields.len(),
        position(fields, name) < fields.len() ==> fields[position(fields, name)].0 == name,
        forall|i: int| 0 <= i < position(fields, name) ==> (#[trigger] fields[i]).0 != name,
    decreases fields.len(),
{
    if fields.len() > 0 {
        lemma_position(fields.drop_last(), name);
        assert forall|i: int| 0 <= i < position(fields, name) implies (#[trigger] fields[i]).0
            != name by {
            if i < fields.len() - 1 {
                assert(fields.drop_last()[i] == fields[i]);
            }
        }
    }
}

/// The first field of a name is where `position` says.
pub proof fn lemma_position_is(fields: Seq<(Seq<char>, Seq<char>)>, name: Seq<char>, at: int)
    requires
        0 <= at <= fields.len(),
        at < fields.len() ==> fields[at].0 == name,
        forall|i: int| 0 <= i < at ==> (#[trigger] fields[i]).0 != name,
    ensures
        position(fields, name) == at,
{
    lemma_position(fields, name);
    let found = position(fields, name);
    if found < at {
        assert(fields[found].0 != name);
    }
}

/// Putting a field keeps the names distinct.
pub proof fn lemma_put_distinct(fields: Seq<(Seq<char>, Seq<char>)>, name: Seq<char>, value: Seq<char>)
    requires
        distinct_names(fields),
    ensures
        distinct_names(put(fields, name, value)),
        put(fields, name, value).len() == if position(fields, name) < fields.len() {
            fields.len()
        } else {
            fields.len() + 1
        },
{
    lemma_position(fields, name);
    let at = position(fields, name);
    let after = put(fields, name, value);
    assert forall|i: int, j: int| 0 <= i < j < after.len() implies (#[trigger] after[i]).0 != (
    #[trigger] after[j]).0 by {
        if at < fields.len() {
            assert(after[i].0 == fields[i].0);
            assert(after[j].0 == fields[j].0);
        } else if j == fields.len() {
            assert(after[i] == fields[i]);
        } else {
            assert(after[i] == fields[i]);
            assert(after[j] == fields[j]);
        }
    }
}

/// Collecting pairs yields distinct names.
pub proof fn lemma_collect_distinct(pairs: Seq<(Seq<char>, Seq<char>)>)
    ensures
        distinct_names(collect(pairs)),
    decreases pairs.len(),
{
    if pairs.len() > 0 {
        lemma_collect_distinct(pairs.drop_last());
        lemma_put_distinct(collect(pairs.drop_last()), pairs.last().0, pairs.last().1);
    }
}

/// Collecting pairs whose names are distinct changes nothing.
pub proof fn lemma_collect_of_distinct(pairs: Seq<(Seq<char>, Seq<char>)>)
    requires
        distinct_names(pairs),
    ensures
        collect(pairs) == pairs,
    decreases pairs.len(),
{
    if pairs.len() > 0 {
        let before = pairs.drop_last();
        assert forall|i: int, j: int| 0 <= i < j < before.len() implies (#[trigger] before[i]).0
            != (#[trigger] before[j]).0 by {
            assert(before[i] == pairs[i]);
            assert(before[j] == pairs[j]);
        }
        lemma_collect_of_distinct(before);
        assert forall|i: int| 0 <= i < before.len() implies (#[trigger] before[i]).0
            != pairs.last().0 by {
            assert(before[i] == pairs[i]);
            assert(pairs[pairs.len() - 1] == pairs.last());
        }
        lemma_position_is(before, pairs.last().0, before.len() as int);
        assert(before.push(pairs.last()) =~= pairs);
    } else {
        assert(pairs =~= Seq::empty());
    }
}

impl View for Headers {
    type V = Seq<(Seq<char>, Seq<char>)>;

    closed spec fn view(&self) -> Seq<(Seq<char>, Seq<char>)> {
        Seq::new(self.entries@.len(), |i: int| (self.entries@[i].name@, self.entries@[i].value@))
    }
}

impl Headers {
    /// No fields.
    pub fn new() -> (r: Headers)
        ensures
            r@ == Seq::<(Seq<char>, Seq<char>)>::empty(),
    {
        let r = Headers { entries: Vec::new() };
        assert(r@ =~= Seq::<(Seq<char>, Seq<char>)>::empty());
        r
    }

    /// The number of fields.
    pub fn len(&self) -> (r: usize)
        ensures
            r == self@.len(),
    {
        self.entries.len()
    }

    /// Whether there is no field.
    pub fn is_empty(&self) -> (r: bool)
        ensures
            r == (self@.len() == 0),
    {
        self.entries.len() == 0
    }

    /// The name of the field at `index`.
    pub fn name_at(&self, index: usize) -> (r: &String)
        requires
            index < self@.len(),
        ensures
            r@ == self@[index as int].0,
    {
        &self.entries[index].name
    }

    /// The value of the field at `index`.
    pub fn value_at(&self, index: usize) -> (r: &String)
        requires
            index < self@.len(),
        ensures
            r@ == self@[index as int].1,
    {
        &self.entries[index].value
    }

    fn find(&self, name: &String) -> (r: usize)
        ensures
            r == position(self@, name@),
    {
        let mut i: usize = 0;
        while i < self.entries.len()
            invariant
                i <= self.entries.len(),
                forall|j: int| 0 <= j < i ==> (#[trigger] self@[j]).0 != name@,
            decreases self.entries.len() - i,
        {
            if self.entries[i].name == *name {
                proof {
                    lemma_position_is(self@, name@, i as int);
                }
                return i;
            }
            i = i + 1;
        }
        proof {
            lemma_position_is(self@, name@, i as int);
        }
        i
    }

    /// The value of the field with the given name.
    pub fn get(&self, name: &String) -> (r: Option<&String>)
        ensures
            match r {
                Some(value) => lookup(self@, name@) == Some(value@),
                None => lookup(self@, name@) is None,
            },
    {
        let at = self.find(name);
        if at < self.entries.len() {
            Some(&self.entries[at].value)
        } else {
            None
        }
    }

    /// Gives `name` the value `value`. A field of that name keeps its place;
    /// a new name goes to the end.
    pub fn insert(&mut self, name: String, value: String)
        ensures
            final(self)@ == put(old(self)@, name@, value@),
            distinct_names(old(self)@) ==> distinct_names(final(self)@),
    {
        let at = self.find(&name);
        let ghost before = self@;
        let ghost name_text = name@;
        let ghost value_text = value@;
        if at < self.entries.len() {
            self.entries.set(at, Header { name, value });
        } else {
            self.entries.push(Header { name, value });
        }
        proof {
            assert(self@ =~= put(before, name_text, value_text));
            if distinct_names(before) {
                lemma_put_distinct(before, name_text, value_text);
            }
        }
    }

    /// The fields that come of inserting each pair in turn.
    pub fn from_pairs(pairs: Vec<(String, String)>) -> (r: Headers)
        ensures
            r@ == collect(Seq::new(pairs@.len(), |i: int| (pairs@[i].0@, pairs@[i].1@))),
            distinct_names(r@),
    {
        let ghost all = Seq::new(pairs@.len(), |i: int| (pairs@[i].0@, pairs@[i].1@));
        let mut headers = Headers::new();
        let mut i: usize = 0;
        while i < pairs.len()
            invariant
                i <= pairs.len(),
                all == Seq::new(pairs@.len(), |i: int| (pairs@[i].0@, pairs@[i].1@)),
                headers@ == collect(all.take(i as int)),
            decreases pairs.len() - i,
        {
            proof {
                assert(all.take(i + 1).drop_last() =~= all.take(i as int));
                assert(all.take(i + 1).last() == all[i as int]);
            }
            headers.insert(pairs[i].0.clone(), pairs[i].1.clone());
            i = i + 1;
        }
        proof {
            assert(all.take(pairs@.len() as int) =~= all);
            lemma_collect_distinct(all);
        }
        headers
    }

    /// The fields as pairs of name and value, in order.
    pub fn to_pairs(&self) -> (r: Vec<(String, String)>)
        ensures
            Seq::new(r@.len(), |i: int| (r@[i].0@, r@[i].1@)) == self@,
    {
        let mut pairs: Vec<(String, String)> = Vec::new();
        let mut i: usize = 0;
        while i < self.entries.len()
            invariant
                i <= self.entries.len(),
                pairs@.len() == i,
                forall|j: int| 0 <= j < i ==> (#[trigger] pairs@[j]).0@ == self@[j].0 && pairs@[j].1@
                    == self@[j].1,
            decreases self.entries.len() - i,
        {
            pairs.push((self.entries[i].name.clone(), self.entries[i].value.clone()));
            i = i + 1;
        }
        assert(Seq::new(pairs@.len(), |i: int| (pairs@[i].0@, pairs@[i].1@)) =~= self@);
        pairs
    }
}

} // verus!
