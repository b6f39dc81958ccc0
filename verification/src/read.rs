//! Reading one value of a reply as the kind that its place asks for.

use crate::error::{agrees, DecodeError, DecodeErrorView, Entity, Expected};
use crate::value::{
    find, kind_of, lemma_array_view, lemma_object_view, lookup, Member, MemberView, Number, Value,
    ValueView,
};
use vstd::prelude::*;

verus! {

/// The error for a value `v` that does not meet `expected`.
pub open spec fn mismatch(
    v: ValueView,
    entity: Entity,
    field: Seq<char>,
    expected: Expected,
) -> DecodeErrorView {
    DecodeErrorView::TypeMismatch { entity, field, expected, actual: kind_of(v) }
}

/// `v` read as a truth value.
pub open spec fn spec_bool(v: ValueView, entity: Entity, field: Seq<char>) -> Result<
    bool,
    DecodeErrorView,
> {
    match v {
        ValueView::Bool(b) => Ok(b),
        _ => Err(mismatch(v, entity, field, Expected::Bool)),
    }
}

/// `v` read as a whole number from `min` to `max`.
pub open spec fn spec_int(
    v: ValueView,
    entity: Entity,
    field: Seq<char>,
    min: i64,
    max: i64,
) -> Result<i64, DecodeErrorView> {
    match v {
        ValueView::Number(Number::Int(n)) if min <= n <= max => Ok(n),
        _ => Err(mismatch(v, entity, field, Expected::Int { min, max })),
    }
}

/// `v` read as a number, whole or not.
pub open spec fn spec_number(v: ValueView, entity: Entity, field: Seq<char>) -> Result<
    Number,
    DecodeErrorView,
> {
    match v {
        ValueView::Number(n) => Ok(n),
        _ => Err(mismatch(v, entity, field, Expected::Number)),
    }
}

/// `v` read as a string.
pub open spec fn spec_text(v: ValueView, entity: Entity, field: Seq<char>) -> Result<
    Seq<char>,
    DecodeErrorView,
> {
    match v {
        ValueView::Str(s) => Ok(s),
        _ => Err(mismatch(v, entity, field, Expected::Str)),
    }
}

/// `v` read as an array: its items.
pub open spec fn spec_array(v: ValueView, entity: Entity, field: Seq<char>) -> Result<
    Seq<ValueView>,
    DecodeErrorView,
> {
    match v {
        ValueView::Array(items) => Ok(items),
        _ => Err(mismatch(v, entity, field, Expected::Array)),
    }
}

/// `v` read as an object: its members.
pub open spec fn spec_object(v: ValueView, entity: Entity, field: Seq<char>) -> Result<
    Seq<MemberView>,
    DecodeErrorView,
> {
    match v {
        ValueView::Object(members) => Ok(members),
        _ => Err(mismatch(v, entity, field, Expected::Object)),
    }
}

/// The member `field` that an entity must have.
pub open spec fn spec_required(members: Seq<MemberView>, entity: Entity, field: Seq<char>) -> Result<
    ValueView,
    DecodeErrorView,
> {
    match lookup(members, field) {
        Some(v) => Ok(v),
        None => Err(DecodeErrorView::MissingField { entity, field }),
    }
}

/// The member `field` that an entity may have: a member that is absent and
/// one that holds null both read as none.
pub open spec fn spec_optional(members: Seq<MemberView>, field: Seq<char>) -> Option<ValueView> {
    match lookup(members, field) {
        Some(ValueView::Null) => None,
        found => found,
    }
}

/// Reads a value as a truth value.
pub fn as_bool(v: &Value, entity: Entity, field: &'static str) -> (r: Result<bool, DecodeError>)
    ensures
        agrees(r, spec_bool(v.deep_view(), entity, field@)),
{
    match v {
        Value::Bool(b) => Ok(*b),
        _ => Err(DecodeError::TypeMismatch { entity, field, expected: Expected::Bool, actual: v.kind() }),
    }
}

/// Reads a value as a whole number from `min` to `max`.
pub fn as_int(v: &Value, entity: Entity, field: &'static str, min: i64, max: i64) -> (r: Result<
    i64,
    DecodeError,
>)
    ensures
        agrees(r, spec_int(v.deep_view(), entity, field@, min, max)),
{
    if let Value::Number(Number::Int(n)) = v {
        if min <= *n && *n <= max {
            return Ok(*n);
        }
    }
    Err(
        DecodeError::TypeMismatch {
            entity,
            field,
            expected: Expected::Int { min, max },
            actual: v.kind(),
        },
    )
}

/// Reads a value as a number, whole or not.
pub fn as_number(v: &Value, entity: Entity, field: &'static str) -> (r: Result<Number, DecodeError>)
    ensures
        agrees(r, spec_number(v.deep_view(), entity, field@)),
{
    match v {
        Value::Number(n) => Ok(*n),
        _ => Err(
            DecodeError::TypeMismatch { entity, field, expected: Expected::Number, actual: v.kind() },
        ),
    }
}

/// Reads a value as a string, and copies it.
pub fn as_text(v: &Value, entity: Entity, field: &'static str) -> (r: Result<String, DecodeError>)
    ensures
        agrees(r, spec_text(v.deep_view(), entity, field@)),
{
    match v {
        Value::Str(s) => Ok(s.clone()),
        _ => Err(DecodeError::TypeMismatch { entity, field, expected: Expected::Str, actual: v.kind() }),
    }
}

/// Reads a value as an array, and gives its items.
pub fn as_array<'a>(v: &'a Value, entity: Entity, field: &'static str) -> (r: Result<
    &'a Vec<Value>,
    DecodeError,
>)
    ensures
        agrees(r, spec_array(v.deep_view(), entity, field@)),
{
    match v {
        Value::Array(items) => {
            proof {
                lemma_array_view(*items);
            }
            Ok(items)
        },
        _ => Err(
            DecodeError::TypeMismatch { entity, field, expected: Expected::Array, actual: v.kind() },
        ),
    }
}

/// Reads a value as an object, and gives its members.
pub fn as_object<'a>(v: &'a Value, entity: Entity, field: &'static str) -> (r: Result<
    &'a Vec<Member>,
    DecodeError,
>)
    ensures
        agrees(r, spec_object(v.deep_view(), entity, field@)),
{
    match v {
        Value::Object(members) => {
            proof {
                lemma_object_view(*members);
            }
            Ok(members)
        },
        _ => Err(
            DecodeError::TypeMismatch { entity, field, expected: Expected::Object, actual: v.kind() },
        ),
    }
}

/// Finds the member `field` that `entity` must have.
pub fn required<'a>(members: &'a Vec<Member>, entity: Entity, field: &'static str) -> (r: Result<
    &'a Value,
    DecodeError,
>)
    ensures
        agrees(r, spec_required(members.deep_view(), entity, field@)),
{
    match find(members, field) {
        Some(v) => Ok(v),
        None => Err(DecodeError::MissingField { entity, field }),
    }
}

/// Finds the member `field` that may be absent: one that holds null counts
/// as absent.
pub fn optional<'a>(members: &'a Vec<Member>, field: &'static str) -> (found: Option<&'a Value>)
    ensures
        found.deep_view() == spec_optional(members.deep_view(), field@),
{
    match find(members, field) {
        Some(Value::Null) => None,
        found => found,
    }
}

/// The required member `field`, read as a truth value.
pub open spec fn spec_bool_field(members: Seq<MemberView>, entity: Entity, field: Seq<char>) -> Result<
    bool,
    DecodeErrorView,
> {
    match spec_required(members, entity, field) {
        Ok(v) => spec_bool(v, entity, field),
        Err(e) => Err(e),
    }
}

/// The required member `field`, read as a whole number from `min` to `max`.
pub open spec fn spec_int_field(
    members: Seq<MemberView>,
    entity: Entity,
    field: Seq<char>,
    min: i64,
    max: i64,
) -> Result<i64, DecodeErrorView> {
    match spec_required(members, entity, field) {
        Ok(v) => spec_int(v, entity, field, min, max),
        Err(e) => Err(e),
    }
}

/// The required member `field`, read as a number.
pub open spec fn spec_number_field(
    members: Seq<MemberView>,
    entity: Entity,
    field: Seq<char>,
) -> Result<Number, DecodeErrorView> {
    match spec_required(members, entity, field) {
        Ok(v) => spec_number(v, entity, field),
        Err(e) => Err(e),
    }
}

/// The required member `field`, read as a string.
pub open spec fn spec_text_field(members: Seq<MemberView>, entity: Entity, field: Seq<char>) -> Result<
    Seq<char>,
    DecodeErrorView,
> {
    match spec_required(members, entity, field) {
        Ok(v) => spec_text(v, entity, field),
        Err(e) => Err(e),
    }
}

/// The required member `field`, read as an array.
pub open spec fn spec_array_field(
    members: Seq<MemberView>,
    entity: Entity,
    field: Seq<char>,
) -> Result<Seq<ValueView>, DecodeErrorView> {
    match spec_required(members, entity, field) {
        Ok(v) => spec_array(v, entity, field),
        Err(e) => Err(e),
    }
}

/// The required member `field`, read as an array of exactly two whole numbers
/// from `min` to `max`.
pub open spec fn spec_pair_field(
    members: Seq<MemberView>,
    entity: Entity,
    field: Seq<char>,
    min: i64,
    max: i64,
) -> Result<(i64, i64), DecodeErrorView> {
    match spec_required(members, entity, field) {
        Err(e) => Err(e),
        Ok(v) => match v {
            ValueView::Array(items) if items.len() == 2 => {
                let first = spec_int(items[0], entity, field, min, max);
                let second = spec_int(items[1], entity, field, min, max);
                if first is Err {
                    Err(first->Err_0)
                } else if second is Err {
                    Err(second->Err_0)
                } else {
                    Ok((first->Ok_0, second->Ok_0))
                }
            },
            _ => Err(mismatch(v, entity, field, Expected::Tuple { len: 2 })),
        },
    }
}

/// The required member `field`, read as an array of exactly four whole
/// numbers from `min` to `max`.
pub open spec fn spec_quad_field(
    members: Seq<MemberView>,
    entity: Entity,
    field: Seq<char>,
    min: i64,
    max: i64,
) -> Result<(i64, i64, i64, i64), DecodeErrorView> {
    match spec_required(members, entity, field) {
        Err(e) => Err(e),
        Ok(v) => match v {
            ValueView::Array(items) if items.len() == 4 => {
                let first = spec_int(items[0], entity, field, min, max);
                let second = spec_int(items[1], entity, field, min, max);
                let third = spec_int(items[2], entity, field, min, max);
                let fourth = spec_int(items[3], entity, field, min, max);
                if first is Err {
                    Err(first->Err_0)
                } else if second is Err {
                    Err(second->Err_0)
                } else if third is Err {
                    Err(third->Err_0)
                } else if fourth is Err {
                    Err(fourth->Err_0)
                } else {
                    Ok((first->Ok_0, second->Ok_0, third->Ok_0, fourth->Ok_0))
                }
            },
            _ => Err(mismatch(v, entity, field, Expected::Tuple { len: 4 })),
        },
    }
}

/// The member `field` that may be absent, read as a string where it is
/// there.
pub open spec fn spec_optional_text_field(
    members: Seq<MemberView>,
    entity: Entity,
    field: Seq<char>,
) -> Result<Option<Seq<char>>, DecodeErrorView> {
    match spec_optional(members, field) {
        None => Ok(None),
        Some(v) => match spec_text(v, entity, field) {
            Ok(text) => Ok(Some(text)),
            Err(e) => Err(e),
        },
    }
}

/// Every item of `items` decoded by `decode`, in order; the error of the
/// first item that fails, if one does.
pub open spec fn spec_each<T>(
    items: Seq<ValueView>,
    decode: spec_fn(ValueView) -> Result<T, DecodeErrorView>,
) -> Result<Seq<T>, DecodeErrorView>
    decreases items.len(),
{
    if items.len() == 0 {
        Ok(Seq::empty())
    } else {
        match decode(items[0]) {
            Err(e) => Err(e),
            Ok(first) => match spec_each(items.drop_first(), decode) {
                Err(e) => Err(e),
                Ok(rest) => Ok(seq![first] + rest),
            },
        }
    }
}

/// `rest` with `done` put in front of what it holds.
pub open spec fn after<T>(done: Seq<T>, rest: Result<Seq<T>, DecodeErrorView>) -> Result<
    Seq<T>,
    DecodeErrorView,
> {
    match rest {
        Ok(more) => Ok(done + more),
        Err(e) => Err(e),
    }
}

/// Nothing is decoded yet: the whole is what remains.
pub proof fn lemma_each_start<T>(
    items: Seq<ValueView>,
    decode: spec_fn(ValueView) -> Result<T, DecodeErrorView>,
)
    ensures
        spec_each(items, decode) == after(Seq::<T>::empty(), spec_each(items.skip(0), decode)),
{
    assert(items.skip(0) =~= items);
    match spec_each(items, decode) {
        Ok(all) => {
            assert(Seq::<T>::empty() + all =~= all);
        },
        Err(_) => {},
    }
}

/// One more item decoded: what remained is that item, then what remains now.
pub proof fn lemma_each_step<T>(
    items: Seq<ValueView>,
    decode: spec_fn(ValueView) -> Result<T, DecodeErrorView>,
    done: Seq<T>,
    i: int,
)
    requires
        0 <= i < items.len(),
    ensures
        match decode(items[i]) {
            Err(e) => after(done, spec_each(items.skip(i), decode)) == Err::<Seq<T>, DecodeErrorView>(e),
            Ok(item) => after(done, spec_each(items.skip(i), decode)) == after(
                done.push(item),
                spec_each(items.skip(i + 1), decode),
            ),
        },
{
    assert(items.skip(i).drop_first() =~= items.skip(i + 1));
    assert(items.skip(i)[0] == items[i]);
    if let Ok(item) = decode(items[i]) {
        if let Ok(rest) = spec_each(items.skip(i + 1), decode) {
            assert(done + (seq![item] + rest) =~= done.push(item) + rest);
        }
    }
}

/// Everything is decoded: nothing remains.
pub proof fn lemma_each_end<T>(
    items: Seq<ValueView>,
    decode: spec_fn(ValueView) -> Result<T, DecodeErrorView>,
    done: Seq<T>,
)
    ensures
        after(done, spec_each(items.skip(items.len() as int), decode)) == Ok::<
            Seq<T>,
            DecodeErrorView,
        >(done),
{
    assert(done + Seq::<T>::empty() =~= done);
}

/// Decoding keeps the number and the order of the items: where it succeeds,
/// item `i` of the result is what item `i` of the array decodes to.
pub proof fn law_each_keeps_order<T>(
    items: Seq<ValueView>,
    decode: spec_fn(ValueView) -> Result<T, DecodeErrorView>,
)
    ensures
        spec_each(items, decode) matches Ok(out) ==> {
            &&& out.len() == items.len()
            &&& forall|i: int|
                0 <= i < items.len() ==> decode(#[trigger] items[i]) == Ok::<T, DecodeErrorView>(
                    out[i],
                )
        },
    decreases items.len(),
{
    if items.len() > 0 {
        law_each_keeps_order(items.drop_first(), decode);
        if let Ok(out) = spec_each(items, decode) {
            let rest = spec_each(items.drop_first(), decode)->Ok_0;
            assert forall|i: int| 0 <= i < items.len() implies decode(#[trigger] items[i]) == Ok::<
                T,
                DecodeErrorView,
            >(out[i]) by {
                if i > 0 {
                    assert(items[i] == items.drop_first()[i - 1]);
                    assert(out[i] == rest[i - 1]);
                }
            }
        }
    }
}

/// Decoding fails exactly when an item fails, and then with the error of the
/// first item that does.
pub proof fn law_each_first_error<T>(
    items: Seq<ValueView>,
    decode: spec_fn(ValueView) -> Result<T, DecodeErrorView>,
)
    ensures
        spec_each(items, decode) matches Err(e) ==> exists|i: int|
            {
                &&& 0 <= i < items.len()
                &&& #[trigger] decode(items[i]) == Err::<T, DecodeErrorView>(e)
                &&& forall|j: int| 0 <= j < i ==> (#[trigger] decode(items[j])) is Ok
            },
    decreases items.len(),
{
    if items.len() > 0 {
        if let Err(e) = spec_each(items, decode) {
            if decode(items[0]) is Err {
                assert(decode(items[0]) == Err::<T, DecodeErrorView>(e));
            } else {
                law_each_first_error(items.drop_first(), decode);
                let rest = items.drop_first();
                let k = choose|k: int|
                    {
                        &&& 0 <= k < rest.len()
                        &&& #[trigger] decode(rest[k]) == Err::<T, DecodeErrorView>(e)
                        &&& forall|j: int| 0 <= j < k ==> (#[trigger] decode(rest[j])) is Ok
                    };
                assert(rest[k] == items[k + 1]);
                assert forall|j: int| 0 <= j < k + 1 implies (#[trigger] decode(items[j])) is Ok by {
                    if j > 0 {
                        assert(items[j] == rest[j - 1]);
                    }
                }
                assert(decode(items[k + 1]) == Err::<T, DecodeErrorView>(e));
            }
        }
    }
}

/// Reads the required member `field` as a truth value.
pub fn bool_field(members: &Vec<Member>, entity: Entity, field: &'static str) -> (r: Result<
    bool,
    DecodeError,
>)
    ensures
        agrees(r, spec_bool_field(members.deep_view(), entity, field@)),
{
    as_bool(required(members, entity, field)?, entity, field)
}

/// Reads the required member `field` as a whole number from `min` to `max`.
pub fn int_field(
    members: &Vec<Member>,
    entity: Entity,
    field: &'static str,
    min: i64,
    max: i64,
) -> (r: Result<i64, DecodeError>)
    ensures
        agrees(r, spec_int_field(members.deep_view(), entity, field@, min, max)),
{
    as_int(required(members, entity, field)?, entity, field, min, max)
}

/// Reads the required member `field` as a number.
pub fn number_field(members: &Vec<Member>, entity: Entity, field: &'static str) -> (r: Result<
    Number,
    DecodeError,
>)
    ensures
        agrees(r, spec_number_field(members.deep_view(), entity, field@)),
{
    as_number(required(members, entity, field)?, entity, field)
}

/// Reads the required member `field` as a string.
pub fn text_field(members: &Vec<Member>, entity: Entity, field: &'static str) -> (r: Result<
    String,
    DecodeError,
>)
    ensures
        agrees(r, spec_text_field(members.deep_view(), entity, field@)),
{
    as_text(required(members, entity, field)?, entity, field)
}

/// Reads the required member `field` as an array.
pub fn array_field<'a>(members: &'a Vec<Member>, entity: Entity, field: &'static str) -> (r: Result<
    &'a Vec<Value>,
    DecodeError,
>)
    ensures
        agrees(r, spec_array_field(members.deep_view(), entity, field@)),
{
    as_array(required(members, entity, field)?, entity, field)
}

/// Reads the required member `field` as two whole numbers from `min` to
/// `max`.
pub fn pair_field(
    members: &Vec<Member>,
    entity: Entity,
    field: &'static str,
    min: i64,
    max: i64,
) -> (r: Result<(i64, i64), DecodeError>)
    ensures
        agrees(r, spec_pair_field(members.deep_view(), entity, field@, min, max)),
{
    let v = required(members, entity, field)?;
    if let Value::Array(items) = v {
        if items.len() == 2 {
            proof {
                lemma_array_view(*items);
            }
            let first = as_int(&items[0], entity, field, min, max)?;
            let second = as_int(&items[1], entity, field, min, max)?;
            return Ok((first, second));
        }
    }
    proof {
        if let Value::Array(items) = v {
            lemma_array_view(*items);
        }
    }
    Err(
        DecodeError::TypeMismatch {
            entity,
            field,
            expected: Expected::Tuple { len: 2 },
            actual: v.kind(),
        },
    )
}

/// Reads the required member `field` as four whole numbers from `min` to
/// `max`.
pub fn quad_field(
    members: &Vec<Member>,
    entity: Entity,
    field: &'static str,
    min: i64,
    max: i64,
) -> (r: Result<(i64, i64, i64, i64), DecodeError>)
    ensures
        agrees(r, spec_quad_field(members.deep_view(), entity, field@, min, max)),
{
    let v = required(members, entity, field)?;
    if let Value::Array(items) = v {
        if items.len() == 4 {
            proof {
                lemma_array_view(*items);
            }
            let first = as_int(&items[0], entity, field, min, max)?;
            let second = as_int(&items[1], entity, field, min, max)?;
            let third = as_int(&items[2], entity, field, min, max)?;
            let fourth = as_int(&items[3], entity, field, min, max)?;
            return Ok((first, second, third, fourth));
        }
    }
    proof {
        if let Value::Array(items) = v {
            lemma_array_view(*items);
        }
    }
    Err(
        DecodeError::TypeMismatch {
            entity,
            field,
            expected: Expected::Tuple { len: 4 },
            actual: v.kind(),
        },
    )
}

/// Reads the member `field` as a string where it is there.
pub fn optional_text_field(members: &Vec<Member>, entity: Entity, field: &'static str) -> (r: Result<
    Option<String>,
    DecodeError,
>)
    ensures
        agrees(r, spec_optional_text_field(members.deep_view(), entity, field@)),
{
    match optional(members, field) {
        None => Ok(None),
        Some(v) => {
            let text = as_text(v, entity, field)?;
            Ok(Some(text))
        },
    }
}

} // verus!
