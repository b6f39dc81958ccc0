//! Options of the compositor, asked for by name.
//!
//! The wire answers with all three candidate values at once and does not say
//! which one is meant. The caller knows what kind the option was declared
//! with, and says so.

use crate::error::{
    agrees, DecodeError, DecodeErrorView, Discriminant, DiscriminantView, Entity,
};
use crate::read::{
    as_object, int_field, number_field, spec_int_field, spec_number_field, spec_object,
    spec_text_field, text_field,
};
use crate::value::{str_eq, Number, Value, ValueView};
use vstd::prelude::*;

verus! {

/// An option as the wire shapes it: the name, and a value of each kind.
#[derive(Debug, Clone, PartialEq, Eq)]
pub struct OptionRaw {
    pub option: String,
    /// The wire member `int`.
    pub int_value: i64,
    /// The wire member `float`.
    pub float_value: Number,
    /// The wire member `str`.
    pub str_value: String,
}

/// The mathematical model of an [`OptionRaw`].
pub struct OptionRawView {
    pub option: Seq<char>,
    pub int_value: i64,
    pub float_value: Number,
    pub str_value: Seq<char>,
}

impl DeepView for OptionRaw {
    type V = OptionRawView;

    open spec fn deep_view(&self) -> OptionRawView {
        OptionRawView {
            option: self.option@,
            int_value: self.int_value,
            float_value: self.float_value,
            str_value: self.str_value@,
        }
    }
}

/// The kind that an option was declared with.
#[derive(Debug, Clone, Copy, PartialEq, Eq)]
pub enum OptionKind {
    Int,
    Float,
    String,
}

/// The value of an option.
#[derive(Debug, Clone, PartialEq, Eq)]
pub enum OptionValue {
    Int(i64),
    Float(Number),
    String(String),
}

/// The mathematical model of an [`OptionValue`].
pub enum OptionValueView {
    Int(i64),
    Float(Number),
    String(Seq<char>),
}

impl DeepView for OptionValue {
    type V = OptionValueView;

    open spec fn deep_view(&self) -> OptionValueView {
        match self {
            OptionValue::Int(n) => OptionValueView::Int(*n),
            OptionValue::Float(x) => OptionValueView::Float(*x),
            OptionValue::String(s) => OptionValueView::String(s@),
        }
    }
}

/// An option with its value.
#[derive(Debug, Clone, PartialEq, Eq)]
pub struct Keyword {
    /// The name of the option.
    pub option: String,
    pub value: OptionValue,
}

/// The mathematical model of a [`Keyword`].
pub struct KeywordView {
    pub option: Seq<char>,
    pub value: OptionValueView,
}

impl DeepView for Keyword {
    type V = KeywordView;

    open spec fn deep_view(&self) -> KeywordView {
        KeywordView { option: self.option@, value: self.value.deep_view() }
    }
}

impl DeepView for OptionKind {
    type V = OptionKind;

    open spec fn deep_view(&self) -> OptionKind {
        *self
    }
}

/// The kind that a selector names. A selector is the name of the wire member
/// that holds the value: `int`, `float` or `str`.
pub open spec fn spec_option_kind(selector: Seq<char>) -> Result<OptionKind, DecodeErrorView> {
    if selector == "int"@ {
        Ok(OptionKind::Int)
    } else if selector == "float"@ {
        Ok(OptionKind::Float)
    } else if selector == "str"@ {
        Ok(OptionKind::String)
    } else {
        Err(
            DecodeErrorView::UnknownVariant {
                entity: Entity::Keyword,
                field: ""@,
                value: DiscriminantView::Tag(selector),
            },
        )
    }
}

/// An option as an object holds it: `option`, `int`, `float`, `str`, all of
/// them required.
pub open spec fn spec_option_raw(v: ValueView) -> Result<OptionRawView, DecodeErrorView> {
    let entity = Entity::Keyword;
    let object = spec_object(v, entity, ""@);
    let members = object->Ok_0;
    let option = spec_text_field(members, entity, "option"@);
    let int_value = spec_int_field(members, entity, "int"@, i64::MIN, i64::MAX);
    let float_value = spec_number_field(members, entity, "float"@);
    let str_value = spec_text_field(members, entity, "str"@);
    if object is Err {
        Err(object->Err_0)
    } else if option is Err {
        Err(option->Err_0)
    } else if int_value is Err {
        Err(int_value->Err_0)
    } else if float_value is Err {
        Err(float_value->Err_0)
    } else if str_value is Err {
        Err(str_value->Err_0)
    } else {
        Ok(
            OptionRawView {
                option: option->Ok_0,
                int_value: int_value->Ok_0,
                float_value: float_value->Ok_0,
                str_value: str_value->Ok_0,
            },
        )
    }
}

/// The keyword that a wire option stands for when it was declared with
/// `kind`: the name, and the one value of that kind.
pub open spec fn spec_keyword_from(raw: OptionRawView, kind: OptionKind) -> KeywordView {
    KeywordView {
        option: raw.option,
        value: match kind {
            OptionKind::Int => OptionValueView::Int(raw.int_value),
            OptionKind::Float => OptionValueView::Float(raw.float_value),
            OptionKind::String => OptionValueView::String(raw.str_value),
        },
    }
}

/// The reply to a request for an option that was declared with `kind`.
pub open spec fn spec_keyword(v: ValueView, kind: OptionKind) -> Result<KeywordView, DecodeErrorView> {
    match spec_option_raw(v) {
        Err(e) => Err(e),
        Ok(raw) => Ok(spec_keyword_from(raw, kind)),
    }
}

/// Reads a selector as the kind of an option.
pub fn decode_option_kind(selector: &str) -> (r: Result<OptionKind, DecodeError>)
    ensures
        agrees(r, spec_option_kind(selector@)),
        r is Ok <==> selector@ == "int"@ || selector@ == "float"@ || selector@ == "str"@,
{
    if str_eq(selector, "int") {
        Ok(OptionKind::Int)
    } else if str_eq(selector, "float") {
        Ok(OptionKind::Float)
    } else if str_eq(selector, "str") {
        Ok(OptionKind::String)
    } else {
        Err(
            DecodeError::UnknownVariant {
                entity: Entity::Keyword,
                field: "",
                value: Discriminant::Tag(selector.to_owned()),
            },
        )
    }
}

/// Reads an object as a wire option.
pub fn decode_option_raw(v: &Value) -> (r: Result<OptionRaw, DecodeError>)
    ensures
        agrees(r, spec_option_raw(v.deep_view())),
{
    let entity = Entity::Keyword;
    let members = as_object(v, entity, "")?;
    let option = text_field(members, entity, "option")?;
    let int_value = int_field(members, entity, "int", i64::MIN, i64::MAX)?;
    let float_value = number_field(members, entity, "float")?;
    let str_value = text_field(members, entity, "str")?;
    Ok(OptionRaw { option, int_value, float_value, str_value })
}

impl Keyword {
    /// Turns a wire option into a keyword, keeping the value of kind `kind`
    /// and no other.
    pub fn from(raw: OptionRaw, kind: OptionKind) -> (keyword: Keyword)
        ensures
            keyword.deep_view() == spec_keyword_from(raw.deep_view(), kind),
    {
        let value = match kind {
            OptionKind::Int => OptionValue::Int(raw.int_value),
            OptionKind::Float => OptionValue::Float(raw.float_value),
            OptionKind::String => OptionValue::String(raw.str_value),
        };
        Keyword { option: raw.option, value }
    }
}

/// Decodes the reply to a request for an option that was declared with
/// `kind`.
pub fn decode_keyword(payload: &Value, kind: OptionKind) -> (r: Result<Keyword, DecodeError>)
    ensures
        agrees(r, spec_keyword(payload.deep_view(), kind)),
{
    let raw = decode_option_raw(payload)?;
    Ok(Keyword::from(raw, kind))
}

} // verus!
