//! Objects that are mappings: each key names one decoded value.
//!
//! A mapping is held as its entries in the order in which the keys were first
//! reported, no key twice.

use crate::error::DecodeErrorView;
use crate::value::{lookup, str_eq, MemberView, ValueView};
use vstd::prelude::*;

verus! {

/// Whether an entry of `entries` has the key `key`.
pub open spec fn has_key<T>(entries: Seq<(Seq<char>, T)>, key: Seq<char>) -> bool {
    exists|i: int| 0 <= i < entries.len() && (#[trigger] entries[i]).0 == key
}

/// What stands under `key`: the value of the first entry with that key.
pub open spec fn entry<T>(entries: Seq<(Seq<char>, T)>, key: Seq<char>) -> Option<T>
    decreases entries.len(),
{
    if entries.len() == 0 {
        None
    } else if entries[0].0 == key {
        Some(entries[0].1)
    } else {
        entry(entries.drop_first(), key)
    }
}

/// Whether no key stands twice in `entries`.
pub open spec fn distinct_keys<T>(entries: Seq<(Seq<char>, T)>) -> bool {
    forall|i: int, j: int|
        0 <= i < j < entries.len() ==> (#[trigger] entries[i]).0 != (#[trigger] entries[j]).0
}

/// The mapping that an object holds. The members are decoded in order, and
/// the first that fails gives the error. A member whose key has stood before
/// is decoded and then left out: each key keeps the value of its first
/// member.
pub open spec fn spec_entries<T>(
    members: Seq<MemberView>,
    decode: spec_fn(ValueView) -> Result<T, DecodeErrorView>,
) -> Result<Seq<(Seq<char>, T)>, DecodeErrorView>
    decreases members.len(),
{
    if members.len() == 0 {
        Ok(Seq::empty())
    } else {
        match spec_entries(members.drop_last(), decode) {
            Err(e) => Err(e),
            Ok(done) => match decode(members.last().value) {
                Err(e) => Err(e),
                Ok(item) => if has_key(done, members.last().key) {
                    Ok(done)
                } else {
                    Ok(done.push((members.last().key, item)))
                },
            },
        }
    }
}

/// An error among the first `k` members is the error of the whole.
pub proof fn lemma_entries_prefix_error<T>(
    members: Seq<MemberView>,
    decode: spec_fn(ValueView) -> Result<T, DecodeErrorView>,
    k: int,
)
    requires
        0 <= k <= members.len(),
        spec_entries(members.take(k), decode) is Err,
    ensures
        spec_entries(members, decode) == spec_entries(members.take(k), decode),
    decreases members.len() - k,
{
    if k < members.len() {
        assert(members.take(k + 1).drop_last() =~= members.take(k));
        lemma_entries_prefix_error(members, decode, k + 1);
    } else {
        assert(members.take(k) =~= members);
    }
}

/// A decoded mapping holds no key twice.
pub proof fn law_entries_distinct<T>(
    members: Seq<MemberView>,
    decode: spec_fn(ValueView) -> Result<T, DecodeErrorView>,
)
    ensures
        spec_entries(members, decode) matches Ok(entries) ==> distinct_keys(entries),
    decreases members.len(),
{
    if members.len() > 0 {
        law_entries_distinct(members.drop_last(), decode);
    }
}

/// An entry stands under a key exactly where the key is held.
pub proof fn lemma_entry_has_key<T>(entries: Seq<(Seq<char>, T)>, key: Seq<char>)
    ensures
        has_key(entries, key) <==> entry(entries, key) is Some,
    decreases entries.len(),
{
    if entries.len() > 0 {
        let rest = entries.drop_first();
        lemma_entry_has_key(rest, key);
        if entries[0].0 != key {
            if has_key(entries, key) {
                let i = choose|i: int| 0 <= i < entries.len() && (#[trigger] entries[i]).0 == key;
                assert(rest[i - 1] == entries[i]);
            }
            if has_key(rest, key) {
                let i = choose|i: int| 0 <= i < rest.len() && (#[trigger] rest[i]).0 == key;
                assert(entries[i + 1] == rest[i]);
            }
        }
    }
}

/// What stands under a key after one more entry: what stood there, or else
/// the new entry where it has that key.
pub proof fn lemma_entry_push<T>(entries: Seq<(Seq<char>, T)>, last: (Seq<char>, T), key: Seq<char>)
    ensures
        entry(entries.push(last), key) == match entry(entries, key) {
            Some(held) => Some(held),
            None => if last.0 == key {
                Some(last.1)
            } else {
                None
            },
        },
    decreases entries.len(),
{
    if entries.len() == 0 {
        assert(entries.push(last).drop_first() =~= entries);
    } else {
        assert(entries.push(last).drop_first() =~= entries.drop_first().push(last));
        lemma_entry_push(entries.drop_first(), last, key);
    }
}

/// What a key finds after one more member: what it found, or else the new
/// member where it has that key.
pub proof fn lemma_lookup_push(members: Seq<MemberView>, last: MemberView, key: Seq<char>)
    ensures
        lookup(members.push(last), key) == match lookup(members, key) {
            Some(held) => Some(held),
            None => if last.key == key {
                Some(last.value)
            } else {
                None
            },
        },
    decreases members.len(),
{
    if members.len() == 0 {
        assert(members.push(last).drop_first() =~= members);
    } else {
        assert(members.push(last).drop_first() =~= members.drop_first().push(last));
        lemma_lookup_push(members.drop_first(), last, key);
    }
}

/// A decoded mapping holds exactly the keys of the object, and under each
/// key what the first member of that key decodes to.
pub proof fn law_entries_follow_lookup<T>(
    members: Seq<MemberView>,
    decode: spec_fn(ValueView) -> Result<T, DecodeErrorView>,
    key: Seq<char>,
)
    ensures
        spec_entries(members, decode) matches Ok(entries) ==> match lookup(members, key) {
            None => entry(entries, key) is None,
            Some(v) => decode(v) is Ok && entry(entries, key) == Some(decode(v)->Ok_0),
        },
    decreases members.len(),
{
    if members.len() > 0 {
        let front = members.drop_last();
        let last = members.last();
        law_entries_follow_lookup(front, decode, key);
        assert(front.push(last) =~= members);
        lemma_lookup_push(front, last, key);
        if spec_entries(members, decode) is Ok {
            let done = spec_entries(front, decode)->Ok_0;
            let item = decode(last.value)->Ok_0;
            lemma_entry_has_key(done, last.key);
            if !has_key(done, last.key) {
                lemma_entry_push(done, (last.key, item), key);
            }
        }
    }
}

/// Whether `entries` holds the key `key`.
pub fn contains_key<T: DeepView>(entries: &Vec<(String, T)>, key: &str) -> (held: bool)
    ensures
        held == has_key(entries.deep_view(), key@),
{
    let mut i: usize = 0;
    while i < entries.len()
        invariant
            i <= entries.len(),
            forall|j: int| 0 <= j < i ==> (#[trigger] entries.deep_view()[j]).0 != key@,
        decreases entries.len() - i,
    {
        assert(entries.deep_view()[i as int] == entries@[i as int].deep_view());
        if str_eq(entries[i].0.as_str(), key) {
            return true;
        }
        i += 1;
    }
    false
}

/// The value under `key`, if `entries` holds the key.
pub fn get_entry<'a, T: DeepView>(entries: &'a Vec<(String, T)>, key: &str) -> (found: Option<&'a T>)
    ensures
        found.deep_view() == entry(entries.deep_view(), key@),
{
    let ghost all = entries.deep_view();
    let mut i: usize = 0;
    assert(all.skip(0) =~= all);
    while i < entries.len()
        invariant
            i <= entries.len(),
            all == entries.deep_view(),
            entry(all, key@) == entry(all.skip(i as int), key@),
        decreases entries.len() - i,
    {
        assert(all.skip(i as int).drop_first() =~= all.skip(i as int + 1));
        assert(all.skip(i as int)[0] == entries@[i as int].deep_view());
        if str_eq(entries[i].0.as_str(), key) {
            return Some(&entries[i].1);
        }
        i += 1;
    }
    None
}

} // verus!
