//! The tags of an object.

use crate::s3::form::{append_pair, form_text, Pairs};
use crate::s3::order::{before, law_before_is_a_total_order, place, Place};
use vstd::prelude::*;

verus! {

/// Whether the names are in strictly ascending order, so that no name occurs twice.
pub open spec fn ascending(pairs: Pairs) -> bool {
    forall|i: int, j: int|
        0 <= i < j < pairs.len() ==> before((#[trigger] pairs[i]).0, (#[trigger] pairs[j]).0)
}

/// The values by name, where the last of several values of one name counts.
pub open spec fn collected(pairs: Pairs) -> Map<Seq<char>, Seq<char>>
    decreases pairs.len(),
{
    if pairs.len() == 0 {
        Map::empty()
    } else {
        collected(pairs.drop_last()).insert(pairs.last().0, pairs.last().1)
    }
}

/// Ascending pairs without the last are ascending.
proof fn lemma_prefix_ascending(pairs: Pairs)
    requires
        ascending(pairs),
        pairs.len() > 0,
    ensures
        ascending(pairs.drop_last()),
{
    let rest = pairs.drop_last();
    assert forall|i: int, j: int| 0 <= i < j < rest.len() implies before(
        (#[trigger] rest[i]).0,
        (#[trigger] rest[j]).0,
    ) by {
        assert(before(pairs[i].0, pairs[j].0));
    }
}

proof fn lemma_collected_of_ascending(pairs: Pairs)
    requires
        ascending(pairs),
    ensures
        forall|i: int| #![trigger pairs[i]]
            0 <= i < pairs.len() ==> collected(pairs).contains_pair(pairs[i].0, pairs[i].1),
        forall|name: Seq<char>| #[trigger]
            collected(pairs).contains_key(name) ==> exists|i: int|
                0 <= i < pairs.len() && (#[trigger] pairs[i]).0 == name,
    decreases pairs.len(),
{
    if pairs.len() > 0 {
        let rest = pairs.drop_last();
        lemma_prefix_ascending(pairs);
        lemma_collected_of_ascending(rest);
        assert forall|i: int| #![trigger pairs[i]] 0 <= i < pairs.len() implies collected(
            pairs,
        ).contains_pair(pairs[i].0, pairs[i].1) by {
            if i < pairs.len() - 1 {
                assert(rest[i] == pairs[i]);
                assert(before(pairs[i].0, pairs.last().0));
                law_before_is_a_total_order(pairs[i].0, pairs.last().0, pairs.last().0);
            }
        }
        assert forall|name: Seq<char>| #[trigger] collected(pairs).contains_key(
            name,
        ) implies exists|i: int| 0 <= i < pairs.len() && (#[trigger] pairs[i]).0 == name by {
            if name == pairs.last().0 {
                assert(pairs[pairs.len() - 1].0 == name);
            } else {
                assert(collected(rest).contains_key(name));
                let i = choose|i: int| 0 <= i < rest.len() && (#[trigger] rest[i]).0 == name;
                assert(pairs[i].0 == name);
            }
        }
    }
}

/// Two ascending sequences of pairs with the same values by name are equal.
pub proof fn law_ascending_pairs_are_determined(a: Pairs, b: Pairs)
    requires
        ascending(a),
        ascending(b),
        collected(a) == collected(b),
    ensures
        a == b,
    decreases a.len(),
{
    lemma_collected_of_ascending(a);
    lemma_collected_of_ascending(b);
    if a.len() == 0 {
        if b.len() > 0 {
            assert(collected(b).contains_pair(b[0].0, b[0].1));
        }
        assert(a =~= b);
    } else {
        let last = a.len() - 1;
        assert(collected(b).contains_key(a[last].0));
        let k = choose|k: int| 0 <= k < b.len() && (#[trigger] b[k]).0 == a[last].0;
        let end = b.len() - 1;
        assert(collected(a).contains_pair(b[end].0, b[end].1));
        let m = choose|m: int| 0 <= m < a.len() && (#[trigger] a[m]).0 == b[end].0;
        // The greatest name of one side is on the other side, so both are the same.
        if k < end {
            assert(before(b[k].0, b[end].0));
            if m < last {
                assert(before(a[m].0, a[last].0));
            }
            law_before_is_a_total_order(a[last].0, b[end].0, a[last].0);
        }
        assert(collected(a).contains_pair(a[last].0, a[last].1));
        assert(collected(b).contains_pair(b[end].0, b[end].1));
        let x = a.drop_last();
        let y = b.drop_last();
        lemma_prefix_ascending(a);
        lemma_prefix_ascending(b);
        lemma_collected_of_ascending(x);
        lemma_collected_of_ascending(y);
        lemma_last_name_is_new(a);
        lemma_last_name_is_new(b);
        assert(collected(x) =~= collected(a).remove(a[last].0));
        assert(collected(y) =~= collected(b).remove(b[end].0));
        law_ascending_pairs_are_determined(x, y);
        assert(a =~= x.push(a[last]));
        assert(b =~= y.push(b[end]));
    }
}

proof fn lemma_last_name_is_new(pairs: Pairs)
    requires
        ascending(pairs),
        pairs.len() > 0,
    ensures
        !collected(pairs.drop_last()).contains_key(pairs.last().0),
{
    let rest = pairs.drop_last();
    let name = pairs.last().0;
    lemma_prefix_ascending(pairs);
    lemma_collected_of_ascending(rest);
    if collected(rest).contains_key(name) {
        let i = choose|i: int| 0 <= i < rest.len() && (#[trigger] rest[i]).0 == name;
        assert(before(pairs[i].0, pairs[pairs.len() - 1].0));
        law_before_is_a_total_order(name, name, name);
    }
}

/// The text of pairs.
pub open spec fn pair_texts(pairs: Seq<(String, String)>) -> Pairs {
    pairs.map_values(|pair: (String, String)| (pair.0@, pair.1@))
}

/// The tags of an object: values by name, in ascending order of the names.
#[derive(Debug)]
pub struct S3Tags {
    pairs: Vec<(String, String)>,
}

impl S3Tags {
    /// The tags in their order.
    pub closed spec fn pairs(self) -> Pairs {
        pair_texts(self.pairs@)
    }

    /// The values by name.
    pub open spec fn values(self) -> Map<Seq<char>, Seq<char>> {
        collected(self.pairs())
    }

    #[verifier::type_invariant]
    spec fn wf(self) -> bool {
        ascending(self.pairs())
    }

    /// No tags.
    pub fn new() -> (tags: S3Tags)
        ensures
            tags.pairs() == Pairs::empty(),
            ascending(tags.pairs()),
    {
        let tags = S3Tags { pairs: Vec::new() };
        assert(tags.pairs() =~= Pairs::empty());
        tags
    }

    /// Sets the value of a name, over any value that the name had.
    pub fn insert(&mut self, name: String, value: String)
        ensures
            ascending(final(self).pairs()),
            final(self).values() == old(self).values().insert(name@, value@),
            forall|n: Seq<char>, v: Seq<char>| #[trigger]
                final(self).pairs().contains((n, v)) <==> (if n == name@ {
                    v == value@
                } else {
                    old(self).pairs().contains((n, v))
                }),
    {
        proof {
            use_type_invariant(&*self);
        }
        let ghost texts = self.pairs();
        let mut pairs: Vec<(String, String)> = Vec::new();
        std::mem::swap(&mut pairs, &mut self.pairs);
        let (i, present) = position(&pairs, name.as_str());
        let ghost pair = (name@, value@);
        if present {
            pairs[i] = (name, value);
            proof {
                assert(pair_texts(pairs@) =~= texts.update(i as int, pair));
                lemma_update(texts, i as int, pair);
            }
        } else {
            pairs.insert(i, (name, value));
            proof {
                assert(pair_texts(pairs@) =~= texts.insert(i as int, pair));
                lemma_insert(texts, i as int, pair);
            }
        }
        self.pairs = pairs;
        proof {
            assert forall|n: Seq<char>, v: Seq<char>| #[trigger]
                self.pairs().contains((n, v)) <==> (if n == pair.0 {
                    v == pair.1
                } else {
                    texts.contains((n, v))
                }) by {
                law_insert_sets_one_name(texts, self.pairs(), pair.0, pair.1, n, v);
            }
        }
    }

    /// The tags with these values, where the last of several values of one name counts.
    pub fn from_pairs(pairs: Vec<(String, String)>) -> (tags: S3Tags)
        ensures
            ascending(tags.pairs()),
            tags.values() == collected(pair_texts(pairs@)),
    {
        let mut tags = S3Tags::new();
        let ghost texts = pair_texts(pairs@);
        let mut i: usize = 0;
        while i < pairs.len()
            invariant
                i <= pairs@.len(),
                texts == pair_texts(pairs@),
                ascending(tags.pairs()),
                tags.values() == collected(texts.take(i as int)),
            decreases pairs@.len() - i,
        {
            tags.insert(pairs[i].0.clone(), pairs[i].1.clone());
            i = i + 1;
            assert(texts.take(i as int).drop_last() =~= texts.take(i - 1));
        }
        assert(texts.take(i as int) =~= texts);
        tags
    }

    /// The tags as the text of a form, in the order of their names.
    pub fn tagging(&self) -> (text: String)
        ensures
            text@ == form_text(self.pairs()),
            ascending(self.pairs()),
    {
        proof {
            use_type_invariant(self);
        }
        let ghost texts = self.pairs();
        let mut text = String::new();
        let mut i: usize = 0;
        assert(texts.take(0) =~= Pairs::empty());
        while i < self.pairs.len()
            invariant
                i <= self.pairs@.len(),
                texts == pair_texts(self.pairs@),
                text@ == form_text(texts.take(i as int)),
            decreases self.pairs@.len() - i,
        {
            text = append_pair(text, self.pairs[i].0.as_str(), self.pairs[i].1.as_str());
            i = i + 1;
            assert(texts.take(i as int).drop_last() =~= texts.take(i - 1));
        }
        assert(texts.take(i as int) =~= texts);
        text
    }
}

impl Clone for S3Tags {
    fn clone(&self) -> (copy: S3Tags)
        ensures
            copy.pairs() == self.pairs(),
    {
        proof {
            use_type_invariant(self);
        }
        let mut pairs: Vec<(String, String)> = Vec::new();
        let mut i: usize = 0;
        while i < self.pairs.len()
            invariant
                i <= self.pairs@.len(),
                pair_texts(pairs@) =~= pair_texts(self.pairs@).take(i as int),
            decreases self.pairs@.len() - i,
        {
            let ghost copied = pairs@;
            let ghost text = pair_texts(self.pairs@)[i as int];
            pairs.push((self.pairs[i].0.clone(), self.pairs[i].1.clone()));
            i = i + 1;
            proof {
                assert(pair_texts(pairs@) =~= pair_texts(copied).push(text));
                assert(pair_texts(self.pairs@).take(i as int) =~= pair_texts(self.pairs@).take(
                    i - 1,
                ).push(text));
            }
        }
        assert(pair_texts(pairs@) =~= pair_texts(self.pairs@));
        S3Tags { pairs }
    }
}

/// Finds the position at which a name stands, or at which it belongs.
fn position(pairs: &Vec<(String, String)>, name: &str) -> (result: (usize, bool))
    requires
        ascending(pair_texts(pairs@)),
    ensures
        result.0 <= pairs@.len(),
        forall|j: int| 0 <= j < result.0 ==> before((#[trigger] pair_texts(pairs@)[j]).0, name@),
        result.1 ==> result.0 < pairs@.len() && pair_texts(pairs@)[result.0 as int].0 == name@,
        !result.1 && result.0 < pairs@.len() ==> before(
            name@,
            pair_texts(pairs@)[result.0 as int].0,
        ),
{
    let mut i: usize = 0;
    while i < pairs.len()
        invariant
            i <= pairs@.len(),
            forall|j: int| 0 <= j < i ==> before((#[trigger] pair_texts(pairs@)[j]).0, name@),
        decreases pairs@.len() - i,
    {
        match place(pairs[i].0.as_str(), name) {
            Place::Before => {
                i = i + 1;
            },
            Place::Same => {
                return (i, true);
            },
            Place::After => {
                return (i, false);
            },
        }
    }
    (i, false)
}

proof fn lemma_update(pairs: Pairs, i: int, pair: (Seq<char>, Seq<char>))
    requires
        ascending(pairs),
        0 <= i < pairs.len(),
        pairs[i].0 == pair.0,
    ensures
        ascending(pairs.update(i, pair)),
        collected(pairs.update(i, pair)) == collected(pairs).insert(pair.0, pair.1),
{
    let updated = pairs.update(i, pair);
    lemma_collected_of_ascending(pairs);
    assert forall|j: int, k: int| 0 <= j < k < updated.len() implies before(
        (#[trigger] updated[j]).0,
        (#[trigger] updated[k]).0,
    ) by {
        assert(before(pairs[j].0, pairs[k].0));
    }
    lemma_collected_of_ascending(updated);
    let expected = collected(pairs).insert(pair.0, pair.1);
    assert forall|name: Seq<char>|
        #![trigger expected.contains_key(name)]
        #![trigger expected[name]]
        #![trigger collected(updated)[name]]
        collected(updated).contains_key(name) == expected.contains_key(name) && (
        expected.contains_key(name) ==> collected(updated)[name] == expected[name]) by {
        if expected.contains_key(name) {
            if name == pair.0 {
                assert(updated[i] == pair);
            } else {
                let j = choose|j: int| 0 <= j < pairs.len() && (#[trigger] pairs[j]).0 == name;
                assert(updated[j] == pairs[j]);
            }
        }
        if collected(updated).contains_key(name) {
            let j = choose|j: int| 0 <= j < updated.len() && (#[trigger] updated[j]).0 == name;
            assert(pairs[j].0 == name);
        }
    }
    assert(collected(updated) =~= expected);
}

proof fn lemma_insert(pairs: Pairs, i: int, pair: (Seq<char>, Seq<char>))
    requires
        ascending(pairs),
        0 <= i <= pairs.len(),
        forall|j: int| 0 <= j < i ==> before((#[trigger] pairs[j]).0, pair.0),
        i < pairs.len() ==> before(pair.0, pairs[i].0),
    ensures
        ascending(pairs.insert(i, pair)),
        collected(pairs.insert(i, pair)) == collected(pairs).insert(pair.0, pair.1),
{
    let longer = pairs.insert(i, pair);
    lemma_collected_of_ascending(pairs);
    assert forall|j: int| i <= j < pairs.len() implies before(pair.0, (#[trigger] pairs[j]).0) by {
        if i < j {
            assert(before(pairs[i].0, pairs[j].0));
            law_before_is_a_total_order(pair.0, pairs[i].0, pairs[j].0);
        }
    }
    assert forall|j: int, k: int| 0 <= j < k < longer.len() implies before(
        (#[trigger] longer[j]).0,
        (#[trigger] longer[k]).0,
    ) by {
        if j < i {
            assert(longer[j] == pairs[j]);
        } else if j > i {
            assert(longer[j] == pairs[j - 1]);
        }
        if k < i {
            assert(longer[k] == pairs[k]);
            assert(before(pairs[j].0, pairs[k].0));
        } else if k > i {
            assert(longer[k] == pairs[k - 1]);
            if j < i {
                assert(before(pairs[j].0, pairs[k - 1].0));
            } else if j > i {
                assert(before(pairs[j - 1].0, pairs[k - 1].0));
            }
        }
    }
    lemma_collected_of_ascending(longer);
    let expected = collected(pairs).insert(pair.0, pair.1);
    assert forall|name: Seq<char>|
        #![trigger expected.contains_key(name)]
        #![trigger expected[name]]
        #![trigger collected(longer)[name]]
        collected(longer).contains_key(name) == expected.contains_key(name) && (
        expected.contains_key(name) ==> collected(longer)[name] == expected[name]) by {
        if expected.contains_key(name) {
            if name == pair.0 {
                assert(longer[i] == pair);
            } else {
                let j = choose|j: int| 0 <= j < pairs.len() && (#[trigger] pairs[j]).0 == name;
                if j < i {
                    assert(longer[j] == pairs[j]);
                } else {
                    assert(longer[j + 1] == pairs[j]);
                }
            }
        }
        if collected(longer).contains_key(name) {
            let j = choose|j: int| 0 <= j < longer.len() && (#[trigger] longer[j]).0 == name;
            if j < i {
                assert(longer[j] == pairs[j]);
            } else if j > i {
                assert(longer[j] == pairs[j - 1]);
            }
        }
    }
    assert(collected(longer) =~= expected);
}

/// The value of a name is the last that is given for it.
pub proof fn law_last_value_counts(pairs: Pairs, name: Seq<char>, value: Seq<char>)
    ensures
        collected(pairs).contains_pair(name, value) <==> exists|i: int|
            0 <= i < pairs.len() && (#[trigger] pairs[i]) == (name, value) && forall|j: int|
                i < j < pairs.len() ==> (#[trigger] pairs[j]).0 != name,
    decreases pairs.len(),
{
    if pairs.len() > 0 {
        let rest = pairs.drop_last();
        let last = pairs.len() - 1;
        law_last_value_counts(rest, name, value);
        assert(pairs[last] == pairs.last());
        if pairs.last().0 != name {
            if exists|i: int|
                0 <= i < rest.len() && (#[trigger] rest[i]) == (name, value) && forall|j: int|
                    i < j < rest.len() ==> (#[trigger] rest[j]).0 != name {
                let i = choose|i: int|
                    0 <= i < rest.len() && (#[trigger] rest[i]) == (name, value) && forall|j: int|
                        i < j < rest.len() ==> (#[trigger] rest[j]).0 != name;
                assert(pairs[i] == (name, value));
                assert forall|j: int| i < j < pairs.len() implies (#[trigger] pairs[j]).0
                    != name by {
                    if j < last {
                        assert(rest[j] == pairs[j]);
                    }
                }
            }
            if exists|i: int|
                0 <= i < pairs.len() && (#[trigger] pairs[i]) == (name, value) && forall|j: int|
                    i < j < pairs.len() ==> (#[trigger] pairs[j]).0 != name {
                let i = choose|i: int|
                    0 <= i < pairs.len() && (#[trigger] pairs[i]) == (name, value) && forall|
                        j: int,
                    |
                        i < j < pairs.len() ==> (#[trigger] pairs[j]).0 != name;
                assert(rest[i] == (name, value));
                assert forall|j: int| i < j < rest.len() implies (#[trigger] rest[j]).0 != name by {
                    assert(pairs[j].0 != name);
                }
            }
        }
    }
}

/// Ascending pairs hold exactly the values by name.
proof fn lemma_ascending_pairs_hold_the_values(pairs: Pairs, name: Seq<char>, value: Seq<char>)
    requires
        ascending(pairs),
    ensures
        pairs.contains((name, value)) <==> collected(pairs).contains_pair(name, value),
{
    lemma_collected_of_ascending(pairs);
    if pairs.contains((name, value)) {
        let i = choose|i: int| 0 <= i < pairs.len() && pairs[i] == (name, value);
        assert(collected(pairs).contains_pair(pairs[i].0, pairs[i].1));
    }
    if collected(pairs).contains_pair(name, value) {
        assert(collected(pairs).contains_key(name));
        let i = choose|i: int| 0 <= i < pairs.len() && (#[trigger] pairs[i]).0 == name;
        assert(collected(pairs).contains_pair(pairs[i].0, pairs[i].1));
        assert(pairs[i] == (name, value));
    }
}

/// Tags that are made from pairs are, for each name that is given, that name with the last value
/// that is given for it, and nothing else. They are in ascending order of the names, so that no
/// name occurs twice.
pub proof fn law_tags_are_the_last_values(
    given: Vec<(String, String)>,
    tags: S3Tags,
    name: Seq<char>,
    value: Seq<char>,
)
    requires
        call_ensures(S3Tags::from_pairs, (given,), tags),
    ensures
        tags.pairs().contains((name, value)) <==> exists|i: int|
            0 <= i < given@.len() && (#[trigger] given@[i]).0@ == name && given@[i].1@ == value
                && forall|j: int| i < j < given@.len() ==> (#[trigger] given@[j]).0@ != name,
        forall|i: int, j: int|
            0 <= i < j < tags.pairs().len() ==> before(
                (#[trigger] tags.pairs()[i]).0,
                (#[trigger] tags.pairs()[j]).0,
            ) && tags.pairs()[i].0 != tags.pairs()[j].0,
{
    let texts = pair_texts(given@);
    assert forall|i: int| 0 <= i < given@.len() implies #[trigger] texts[i] == (
        given@[i].0@,
        given@[i].1@,
    ) by {}
    lemma_ascending_pairs_hold_the_values(tags.pairs(), name, value);
    law_last_value_counts(texts, name, value);
    if tags.pairs().contains((name, value)) {
        let i = choose|i: int|
            0 <= i < texts.len() && (#[trigger] texts[i]) == (name, value) && forall|j: int|
                i < j < texts.len() ==> (#[trigger] texts[j]).0 != name;
        assert(given@[i].0@ == name);
        assert forall|j: int| i < j < given@.len() implies (#[trigger] given@[j]).0@ != name by {
            assert(texts[j].0 != name);
        }
    }
    if exists|i: int|
        0 <= i < given@.len() && (#[trigger] given@[i]).0@ == name && given@[i].1@ == value
            && forall|j: int| i < j < given@.len() ==> (#[trigger] given@[j]).0@ != name {
        let i = choose|i: int|
            0 <= i < given@.len() && (#[trigger] given@[i]).0@ == name && given@[i].1@ == value
                && forall|j: int| i < j < given@.len() ==> (#[trigger] given@[j]).0@ != name;
        assert(texts[i] == (name, value));
        assert forall|j: int| i < j < texts.len() implies (#[trigger] texts[j]).0 != name by {
            assert(given@[j].0@ != name);
        }
    }
    assert forall|i: int, j: int| 0 <= i < j < tags.pairs().len() implies before(
        (#[trigger] tags.pairs()[i]).0,
        (#[trigger] tags.pairs()[j]).0,
    ) && tags.pairs()[i].0 != tags.pairs()[j].0 by {
        law_before_is_a_total_order(
            tags.pairs()[i].0,
            tags.pairs()[j].0,
            tags.pairs()[j].0,
        );
    }
}

/// To set a name adds it with its value, over any value that it had, and leaves the other names as
/// they were.
pub proof fn law_insert_sets_one_name(
    old_pairs: Pairs,
    new_pairs: Pairs,
    name: Seq<char>,
    value: Seq<char>,
    n: Seq<char>,
    v: Seq<char>,
)
    requires
        ascending(old_pairs),
        ascending(new_pairs),
        collected(new_pairs) == collected(old_pairs).insert(name, value),
    ensures
        new_pairs.contains((n, v)) <==> (if n == name {
            v == value
        } else {
            old_pairs.contains((n, v))
        }),
{
    lemma_ascending_pairs_hold_the_values(old_pairs, n, v);
    lemma_ascending_pairs_hold_the_values(new_pairs, n, v);
}

} // verus!
