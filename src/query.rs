//! Values bound in a URL query string.

use vstd::prelude::*;
use crate::text::{chars_of, chars_equal};

verus! {

/// The name/value pairs that form-urlencoded decoding reads from a query
/// string, in order.
pub uninterp spec fn form_pairs(query: Seq<char>) -> Seq<(Seq<char>, Seq<char>)>;

pub open spec fn pairs_view(pairs: Seq<(String, String)>) -> Seq<(Seq<char>, Seq<char>)> {
    pairs.map_values(|p: (String, String)| (p.0@, p.1@))
}

/// Relies on `url::form_urlencoded::parse` (with `into_owned`): the
/// percent-decoded name/value pairs of the query, in order; an empty query
/// has none.
#[verifier::external_body]
fn decode_pairs(query: &str) -> (r: Vec<(String, String)>)
    ensures
        pairs_view(r@) == form_pairs(query@),
        query@.len() == 0 ==> r@.len() == 0,
{
    url::form_urlencoded::parse(query.as_bytes()).into_owned().collect()
}

/// The value of the first pair named `key`, or the empty string if none is.
pub open spec fn first_value(pairs: Seq<(Seq<char>, Seq<char>)>, key: Seq<char>) -> Seq<char>
    decreases pairs.len(),
{
    if pairs.len() == 0 {
        seq![]
    } else if pairs[0].0 == key {
        pairs[0].1
    } else {
        first_value(pairs.drop_first(), key)
    }
}

/// A key bound nowhere yields the empty string; a key bound one or more
/// times yields the value of its first binding, whatever follows it.
pub proof fn lemma_first_value(pairs: Seq<(Seq<char>, Seq<char>)>, key: Seq<char>)
    ensures
        (forall|i: int| 0 <= i < pairs.len() ==> (#[trigger] pairs[i]).0 != key)
            ==> first_value(pairs, key) == Seq::<char>::empty(),
        forall|i: int|
            0 <= i < pairs.len() && (#[trigger] pairs[i]).0 == key && (forall|j: int|
                0 <= j < i ==> pairs[j].0 != key) ==> first_value(pairs, key) == pairs[i].1,
    decreases pairs.len(),
{
    if pairs.len() > 0 {
        let rest = pairs.drop_first();
        lemma_first_value(rest, key);
        assert forall|i: int| 0 <= i < rest.len() implies rest[i] == pairs[i + 1] by {}
        if (forall|i: int| 0 <= i < pairs.len() ==> (#[trigger] pairs[i]).0 != key) {
            assert(pairs[0].0 != key);
            assert forall|i: int| 0 <= i < rest.len() implies (#[trigger] rest[i]).0 != key by {
                assert(pairs[i + 1].0 != key);
            }
        }
        assert forall|i: int|
            0 <= i < pairs.len() && (#[trigger] pairs[i]).0 == key && (forall|j: int|
                0 <= j < i ==> pairs[j].0 != key) implies first_value(pairs, key) == pairs[i].1 by {
            if i > 0 {
                assert(pairs[0].0 != key);
                assert forall|j: int| 0 <= j < i - 1 implies rest[j].0 != key by {
                    assert(pairs[j + 1].0 != key);
                }
                assert(rest[i - 1].0 == key);
            }
        }
    }
}

proof fn lemma_first_value_skip(pairs: Seq<(Seq<char>, Seq<char>)>, key: Seq<char>, i: int)
    requires
        0 <= i < pairs.len(),
        pairs[i].0 != key,
    ensures
        first_value(pairs.subrange(i, pairs.len() as int), key) == first_value(
            pairs.subrange(i + 1, pairs.len() as int),
            key,
        ),
{
    let s = pairs.subrange(i, pairs.len() as int);
    assert(s.drop_first() =~= pairs.subrange(i + 1, pairs.len() as int));
}

/// The value of the first pair in `pairs` named `key`, or the empty string.
pub fn lookup_first(pairs: &Vec<(String, String)>, key: &str) -> (r: String)
    ensures
        r@ == first_value(pairs_view(pairs@), key@),
{
    let ghost ps = pairs_view(pairs@);
    let key_chars = chars_of(key);
    let mut i: usize = 0;
    assert(ps.subrange(0, ps.len() as int) =~= ps);
    while i < pairs.len()
        invariant
            i <= pairs@.len(),
            ps == pairs_view(pairs@),
            ps.len() == pairs@.len(),
            key_chars@ == key@,
            first_value(ps, key@) == first_value(ps.subrange(i as int, ps.len() as int), key@),
        decreases pairs@.len() - i,
    {
        let name = chars_of(pairs[i].0.as_str());
        if chars_equal(&name, &key_chars) {
            let ghost rest = ps.subrange(i as int, ps.len() as int);
            assert(rest[0] == ps[i as int]);
            return pairs[i].1.clone();
        }
        proof {
            lemma_first_value_skip(ps, key@, i as int);
        }
        i = i + 1;
    }
    assert(ps.subrange(i as int, ps.len() as int).len() == 0);
    String::new()
}

/// The first value bound to `key` in the form-urlencoded `query`, decoded,
/// or the empty string if `key` is not bound.
pub fn get_query_value(query: &str, key: &str) -> (r: String)
    ensures
        r@ == first_value(form_pairs(query@), key@),
{
    let pairs = decode_pairs(query);
    lookup_first(&pairs, key)
}

} // verus!
