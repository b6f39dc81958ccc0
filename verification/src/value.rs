//! The generic tree in which a reply reaches the decoders.

use crate::error::Kind;
use vstd::prelude::*;

verus! {

/// A number as the wire carries it.
#[derive(Debug, Clone, Copy, PartialEq, Eq)]
pub enum Number {
    /// A whole number.
    Int(i64),
    /// A number written with a fraction or an exponent, held as the bits of
    /// its IEEE 754 double. The decoders carry it and never compute with it.
    Real(u64),
}

impl DeepView for Number {
    type V = Number;

    open spec fn deep_view(&self) -> Number {
        *self
    }
}

/// A reply, or a part of one.
#[derive(Debug, PartialEq, Eq)]
pub enum Value {
    Null,
    Bool(bool),
    Number(Number),
    Str(String),
    Array(Vec<Value>),
    /// The members in the order in which they were reported. A key that
    /// stands twice is read at its first member.
    Object(Vec<Member>),
}

/// One key of an object, with what stands under it.
#[derive(Debug, PartialEq, Eq)]
pub struct Member {
    pub key: String,
    pub value: Value,
}

/// The mathematical model of a [`Value`].
pub enum ValueView {
    Null,
    Bool(bool),
    Number(Number),
    Str(Seq<char>),
    Array(Seq<ValueView>),
    Object(Seq<MemberView>),
}

/// The mathematical model of a [`Member`].
pub struct MemberView {
    pub key: Seq<char>,
    pub value: ValueView,
}

/// The model of `v`: the same tree, with each string and each vector
/// replaced by the sequence that it holds.
pub open spec fn value_view(v: Value) -> ValueView
    decreases v,
{
    match v {
        Value::Null => ValueView::Null,
        Value::Bool(b) => ValueView::Bool(b),
        Value::Number(n) => ValueView::Number(n),
        Value::Str(s) => ValueView::Str(s@),
        Value::Array(items) => ValueView::Array(values_view(items@)),
        Value::Object(members) => ValueView::Object(members_view(members@)),
    }
}

/// The models of `items`, in their order.
pub open spec fn values_view(items: Seq<Value>) -> Seq<ValueView>
    decreases items,
{
    if items.len() == 0 {
        Seq::empty()
    } else {
        values_view(items.drop_last()).push(value_view(items.last()))
    }
}

/// The models of `members`, in their order.
pub open spec fn members_view(members: Seq<Member>) -> Seq<MemberView>
    decreases members,
{
    if members.len() == 0 {
        Seq::empty()
    } else {
        members_view(members.drop_last()).push(
            MemberView { key: members.last().key@, value: value_view(members.last().value) },
        )
    }
}

impl DeepView for Value {
    type V = ValueView;

    open spec fn deep_view(&self) -> ValueView {
        value_view(*self)
    }
}

impl DeepView for Member {
    type V = MemberView;

    open spec fn deep_view(&self) -> MemberView {
        MemberView { key: self.key@, value: self.value.deep_view() }
    }
}

proof fn lemma_values_view(items: Seq<Value>)
    ensures
        values_view(items) == Seq::new(items.len(), |i: int| items[i].deep_view()),
    decreases items.len(),
{
    if items.len() > 0 {
        lemma_values_view(items.drop_last());
    }
    assert(values_view(items) =~= Seq::new(items.len(), |i: int| items[i].deep_view()));
}

proof fn lemma_members_view(members: Seq<Member>)
    ensures
        members_view(members) == Seq::new(members.len(), |i: int| members[i].deep_view()),
    decreases members.len(),
{
    if members.len() > 0 {
        lemma_members_view(members.drop_last());
    }
    assert(members_view(members) =~= Seq::new(members.len(), |i: int| members[i].deep_view()));
}

/// The view of an array is the sequence of the views of its items.
pub proof fn lemma_array_view(items: Vec<Value>)
    ensures
        Value::Array(items).deep_view() == ValueView::Array(items.deep_view()),
{
    lemma_values_view(items@);
}

/// The view of an object is the sequence of the views of its members.
pub proof fn lemma_object_view(members: Vec<Member>)
    ensures
        Value::Object(members).deep_view() == ValueView::Object(members.deep_view()),
{
    lemma_members_view(members@);
}

/// The kind of a value.
pub open spec fn kind_of(v: ValueView) -> Kind {
    match v {
        ValueView::Null => Kind::Null,
        ValueView::Bool(_) => Kind::Bool,
        ValueView::Number(Number::Int(_)) => Kind::Int,
        ValueView::Number(Number::Real(_)) => Kind::Real,
        ValueView::Str(_) => Kind::Str,
        ValueView::Array(_) => Kind::Array,
        ValueView::Object(_) => Kind::Object,
    }
}

/// The value under the first member of `members` whose key is `key`.
pub open spec fn lookup(members: Seq<MemberView>, key: Seq<char>) -> Option<ValueView>
    decreases members.len(),
{
    if members.len() == 0 {
        None
    } else if members[0].key == key {
        Some(members[0].value)
    } else {
        lookup(members.drop_first(), key)
    }
}

/// Compares two strings with `==` of `str`, which is `<str as PartialEq>::eq`.
/// Claimed of it and not proved: it gives `true` exactly where the two hold
/// the same characters.
#[verifier::external_body]
pub(crate) fn str_eq(a: &str, b: &str) -> (same: bool)
    ensures
        same == (a@ == b@),
{
    a == b
}

impl Value {
    /// The kind of this value.
    pub fn kind(&self) -> (kind: Kind)
        ensures
            kind == kind_of(self.deep_view()),
    {
        match self {
            Value::Null => Kind::Null,
            Value::Bool(_) => Kind::Bool,
            Value::Number(Number::Int(_)) => Kind::Int,
            Value::Number(Number::Real(_)) => Kind::Real,
            Value::Str(_) => Kind::Str,
            Value::Array(_) => Kind::Array,
            Value::Object(_) => Kind::Object,
        }
    }
}

impl Clone for Value {
    /// A copy that holds what this value holds.
    fn clone(&self) -> (copy: Value)
        ensures
            copy.deep_view() == self.deep_view(),
        decreases self,
    {
        match self {
            Value::Null => Value::Null,
            Value::Bool(b) => Value::Bool(*b),
            Value::Number(n) => Value::Number(*n),
            Value::Str(s) => Value::Str(s.clone()),
            Value::Array(items) => {
                let mut out: Vec<Value> = Vec::new();
                let mut i: usize = 0;
                while i < items.len()
                    invariant
                        *self == Value::Array(*items),
                        i <= items.len(),
                        out.len() == i,
                        forall|k: int|
                            0 <= k < i ==> (#[trigger] out[k]).deep_view() == items[k].deep_view(),
                    decreases items.len() - i,
                {
                    proof {
                        vstd::std_specs::vec::axiom_vec_index_decreases(*items, i as int);
                        assert(self->Array_0 == *items);
                        assert(decreases_to!(*self => self->Array_0));
                    }
                    let item = items[i].clone();
                    out.push(item);
                    i += 1;
                }
                proof {
                    lemma_array_view(out);
                    lemma_array_view(*items);
                    assert(out.deep_view() =~= items.deep_view());
                }
                Value::Array(out)
            },
            Value::Object(members) => {
                let mut out: Vec<Member> = Vec::new();
                let mut i: usize = 0;
                while i < members.len()
                    invariant
                        *self == Value::Object(*members),
                        i <= members.len(),
                        out.len() == i,
                        forall|k: int|
                            0 <= k < i ==> (#[trigger] out[k]).deep_view() == members[k].deep_view(),
                    decreases members.len() - i,
                {
                    proof {
                        vstd::std_specs::vec::axiom_vec_index_decreases(*members, i as int);
                        assert(self->Object_0 == *members);
                        assert(decreases_to!(*self => self->Object_0));
                        assert(decreases_to!(members[i as int] => members[i as int].value));
                    }
                    let key = members[i].key.clone();
                    let value = members[i].value.clone();
                    out.push(Member { key, value });
                    i += 1;
                }
                proof {
                    lemma_object_view(out);
                    lemma_object_view(*members);
                    assert(out.deep_view() =~= members.deep_view());
                }
                Value::Object(out)
            },
        }
    }
}

impl Clone for Member {
    /// A copy that holds what this member holds.
    fn clone(&self) -> (copy: Member)
        ensures
            copy.deep_view() == self.deep_view(),
    {
        Member { key: self.key.clone(), value: self.value.clone() }
    }
}

/// The value under the first member named `key`, if there is one.
pub fn find<'a>(members: &'a Vec<Member>, key: &str) -> (found: Option<&'a Value>)
    ensures
        found.deep_view() == lookup(members.deep_view(), key@),
{
    let ghost all = members.deep_view();
    let mut i: usize = 0;
    assert(all.skip(0) =~= all);
    while i < members.len()
        invariant
            i <= members.len(),
            all == members.deep_view(),
            lookup(all, key@) == lookup(all.skip(i as int), key@),
        decreases members.len() - i,
    {
        assert(all.skip(i as int).drop_first() =~= all.skip(i as int + 1));
        assert(all.skip(i as int)[0] == members[i as int].deep_view());
        if str_eq(members[i].key.as_str(), key) {
            return Some(&members[i].value);
        }
        i += 1;
    }
    None
}

} // verus!
