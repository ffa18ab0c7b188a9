//! Names that occur in a list, each once.

use crate::text::{optional, str_eq, texts};
use vstd::prelude::*;

verus! {

/// The names in a list that has a name at some of its places: each once, in the order in
/// which they first occur.
pub open spec fn distinct_names(names: Seq<Option<Seq<char>>>) -> Seq<Seq<char>>
    decreases names.len(),
{
    if names.len() == 0 {
        Seq::empty()
    } else {
        let before = distinct_names(names.drop_last());
        match names.last() {
            Some(name) => if before.contains(name) {
                before
            } else {
                before.push(name)
            },
            None => before,
        }
    }
}

/// The contents of a list of optional strings.
pub open spec fn optionals(names: Seq<Option<String>>) -> Seq<Option<Seq<char>>> {
    names.map_values(|name: Option<String>| optional(name))
}

/// A name that occurs in the list occurs once among its distinct names, and no other name
/// does.
pub proof fn law_distinct_names(names: Seq<Option<Seq<char>>>)
    ensures
        distinct_names(names).no_duplicates(),
        forall|name: Seq<char>| #[trigger]
            distinct_names(names).contains(name) <==> names.contains(Some(name)),
    decreases names.len(),
{
    if names.len() > 0 {
        let rest = names.drop_last();
        law_distinct_names(rest);
        let before = distinct_names(rest);
        assert forall|name: Seq<char>| #[trigger]
            distinct_names(names).contains(name) <==> names.contains(Some(name)) by {
            if rest.contains(Some(name)) {
                let i = choose|i: int| 0 <= i < rest.len() && rest[i] == Some(name);
                assert(names[i] == Some(name));
            }
            if names.contains(Some(name)) {
                let i = choose|i: int| 0 <= i < names.len() && names[i] == Some(name);
                if i < rest.len() {
                    assert(rest[i] == Some(name));
                }
            }
            match names.last() {
                Some(last) => {
                    assert(names[names.len() - 1] == Some(last));
                    if !before.contains(last) {
                        let pushed = before.push(last);
                        if before.contains(name) {
                            let i = choose|i: int| 0 <= i < before.len() && before[i] == name;
                            assert(pushed[i] == name);
                        }
                        assert(pushed[pushed.len() - 1] == last);
                        if pushed.contains(name) {
                            let i = choose|i: int| 0 <= i < pushed.len() && pushed[i] == name;
                            if i < before.len() {
                                assert(before[i] == name);
                            }
                        }
                    }
                },
                None => {},
            }
        }
    }
}

/// What is in a sequence after a value was put at its end.
pub proof fn lemma_contains_push<A>(s: Seq<A>, last: A, x: A)
    ensures
        s.push(last).contains(x) <==> s.contains(x) || x == last,
{
    let pushed = s.push(last);
    assert(pushed[s.len() as int] == last);
    if s.contains(x) {
        let i = choose|i: int| 0 <= i < s.len() && s[i] == x;
        assert(pushed[i] == x);
    }
    if pushed.contains(x) {
        let i = choose|i: int| 0 <= i < pushed.len() && pushed[i] == x;
        if i < s.len() {
            assert(s[i] == x);
        }
    }
}

/// The last value of a sequence without duplicates is not among the others.
pub proof fn lemma_no_duplicates_push<A>(s: Seq<A>)
    requires
        s.no_duplicates(),
        s.len() > 0,
    ensures
        s == s.drop_last().push(s.last()),
        s.drop_last().no_duplicates(),
        !s.drop_last().contains(s.last()),
{
    let rest = s.drop_last();
    assert(s =~= rest.push(s.last()));
    assert forall|i: int| 0 <= i < rest.len() implies rest[i] != s.last() by {
        assert(s[i] != s[s.len() - 1]);
    }
}

fn holds_name(names: &Vec<String>, name: &str) -> (found: bool)
    ensures
        found == texts(names@).contains(name@),
{
    let mut i: usize = 0;
    while i < names.len()
        invariant
            i <= names@.len(),
            forall|j: int| 0 <= j < i ==> (#[trigger] names@[j])@ != name@,
        decreases names@.len() - i,
    {
        if str_eq(names[i].as_str(), name) {
            assert(texts(names@)[i as int] == name@);
            return true;
        }
        i += 1;
    }
    assert forall|j: int| 0 <= j < names@.len() implies texts(names@)[j] != name@ by {
        assert(names@[j]@ != name@);
    }
    false
}

/// The names in a list, each once, in the order in which they first occur.
pub fn distinct_names_of(names: &Vec<Option<String>>) -> (distinct: Vec<String>)
    ensures
        texts(distinct@) == distinct_names(optionals(names@)),
{
    let mut distinct: Vec<String> = Vec::new();
    let mut i: usize = 0;
    assert(texts(distinct@) =~= distinct_names(optionals(names@).take(0)));
    while i < names.len()
        invariant
            i <= names@.len(),
            texts(distinct@) == distinct_names(optionals(names@).take(i as int)),
        decreases names@.len() - i,
    {
        let ghost before = distinct@;
        assert(optionals(names@).take(i + 1).drop_last() =~= optionals(names@).take(i as int));
        assert(optionals(names@).take(i + 1).last() == optional(names@[i as int]));
        if let Some(name) = &names[i] {
            if !holds_name(&distinct, name.as_str()) {
                distinct.push(name.clone());
                assert(texts(distinct@) =~= texts(before).push(name@));
            }
        }
        i += 1;
    }
    assert(optionals(names@).take(names@.len() as int) =~= optionals(names@));
    distinct
}

/// Distinct names stand in the order in which they first occur.
pub proof fn law_distinct_names_keep_order(names: Seq<Option<Seq<char>>>, i: int, j: int)
    requires
        0 <= i < j < distinct_names(names).len(),
    ensures
        exists|p: int|
            {
                &&& 0 <= p < names.len()
                &&& #[trigger] names[p] == Some(distinct_names(names)[i])
                &&& forall|q: int|
                    0 <= q < names.len() && #[trigger] names[q] == Some(distinct_names(names)[j])
                        ==> p < q
            },
    decreases names.len(),
{
    let rest = names.drop_last();
    let before = distinct_names(rest);
    let all = distinct_names(names);
    law_distinct_names(rest);
    if j < before.len() {
        law_distinct_names_keep_order(rest, i, j);
        let p = choose|p: int|
            {
                &&& 0 <= p < rest.len()
                &&& #[trigger] rest[p] == Some(before[i])
                &&& forall|q: int|
                    0 <= q < rest.len() && #[trigger] rest[q] == Some(before[j]) ==> p < q
            };
        assert(names[p] == Some(all[i]));
        assert forall|q: int|
            0 <= q < names.len() && #[trigger] names[q] == Some(all[j]) implies p < q by {
            if q < rest.len() {
                assert(rest[q] == Some(before[j]));
            }
        }
    } else {
        assert(before.contains(before[i]));
        let p = choose|p: int| 0 <= p < rest.len() && rest[p] == Some(before[i]);
        assert(names[p] == Some(all[i]));
        assert forall|q: int|
            0 <= q < names.len() && #[trigger] names[q] == Some(all[j]) implies p < q by {
            if q < rest.len() {
                assert(rest[q] == Some(all[j]));
                assert(rest.contains(Some(all[j])));
                assert(before.contains(all[j]));
            }
        }
    }
}

} // verus!
