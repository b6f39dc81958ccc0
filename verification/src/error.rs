//! What a decoder reports when a reply does not have the shape it asks for.

use vstd::prelude::*;

verus! {

/// The entity that was being read when decoding failed.
#[derive(Debug, Clone, Copy, PartialEq, Eq)]
pub enum Entity {
    Monitors,
    Monitor,
    WorkspaceBasic,
    Workspaces,
    Workspace,
    Clients,
    Client,
    Layers,
    LayerDisplay,
    LayerClient,
    Devices,
    Mouse,
    Keyboard,
    Tablet,
    TabletBelongsTo,
    Version,
    Keyword,
}

/// The kinds of value that a reply is made of.
#[derive(Debug, Clone, Copy, PartialEq, Eq)]
pub enum Kind {
    Null,
    Bool,
    Int,
    Real,
    Str,
    Array,
    Object,
}

/// What a place in a reply asks of the value that stands there.
#[derive(Debug, Clone, Copy, PartialEq, Eq)]
pub enum Expected {
    Bool,
    /// A whole number from `min` to `max`, both included.
    Int { min: i64, max: i64 },
    /// A number, whole or not.
    Number,
    Str,
    Array,
    /// An array of exactly `len` items.
    Tuple { len: usize },
    Object,
}

/// A discriminant as it was found on the wire.
#[derive(Debug, Clone, PartialEq, Eq)]
pub enum Discriminant {
    Code(i64),
    Tag(String),
}

/// The mathematical model of a [`Discriminant`].
pub enum DiscriminantView {
    Code(i64),
    Tag(Seq<char>),
}

impl DeepView for Discriminant {
    type V = DiscriminantView;

    open spec fn deep_view(&self) -> DiscriminantView {
        match self {
            Discriminant::Code(code) => DiscriminantView::Code(*code),
            Discriminant::Tag(tag) => DiscriminantView::Tag(tag@),
        }
    }
}

/// Why a reply could not be decoded.
///
/// `field` is the key as the wire spells it; it is empty where the value at
/// fault is the one handed to the decoder of `entity`, not one of its members.
#[derive(Debug, Clone, PartialEq, Eq)]
pub enum DecodeError {
    /// The object of `entity` has no member `field`.
    MissingField { entity: Entity, field: &'static str },
    /// The value at `field` is of kind `actual` and does not meet `expected`.
    TypeMismatch { entity: Entity, field: &'static str, expected: Expected, actual: Kind },
    /// A workspace id that is neither the marker of the special workspace nor
    /// the number of a regular one.
    UnrepresentableSentinel { value: i64 },
    /// The discriminant at `field` names none of the known variants.
    UnknownVariant { entity: Entity, field: &'static str, value: Discriminant },
}

/// The mathematical model of a [`DecodeError`].
pub enum DecodeErrorView {
    MissingField { entity: Entity, field: Seq<char> },
    TypeMismatch { entity: Entity, field: Seq<char>, expected: Expected, actual: Kind },
    UnrepresentableSentinel { value: i64 },
    UnknownVariant { entity: Entity, field: Seq<char>, value: DiscriminantView },
}

impl DeepView for DecodeError {
    type V = DecodeErrorView;

    open spec fn deep_view(&self) -> DecodeErrorView {
        match self {
            DecodeError::MissingField { entity, field } => DecodeErrorView::MissingField {
                entity: *entity,
                field: field@,
            },
            DecodeError::TypeMismatch {
                entity,
                field,
                expected,
                actual,
            } => DecodeErrorView::TypeMismatch {
                entity: *entity,
                field: field@,
                expected: *expected,
                actual: *actual,
            },
            DecodeError::UnrepresentableSentinel { value } => {
                DecodeErrorView::UnrepresentableSentinel { value: *value }
            },
            DecodeError::UnknownVariant { entity, field, value } => DecodeErrorView::UnknownVariant {
                entity: *entity,
                field: field@,
                value: value.deep_view(),
            },
        }
    }
}

/// Whether an executable result is the one that a spec function gives, the
/// value and the error each taken by its deep view.
pub open spec fn agrees<T: DeepView>(
    got: Result<T, DecodeError>,
    spec: Result<T::V, DecodeErrorView>,
) -> bool {
    match got {
        Ok(value) => spec == Ok::<T::V, DecodeErrorView>(value.deep_view()),
        Err(error) => spec == Err::<T::V, DecodeErrorView>(error.deep_view()),
    }
}

} // verus!
