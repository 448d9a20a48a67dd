//! The compile-time description of a type fed to the generator: a record or
//! a tagged union, its fields, and the annotation attached to each field.
//!
//! Shapes exist only while an implementation is generated; they leave no
//! runtime trace.  A field annotation is either absent (the field is
//! measured), the exclusion marker carrying a justification string (the
//! field is left out of the summation), or a bare exclusion marker, which is
//! rejected at generation time rather than represented as a valid outcome.

use vstd::prelude::*;

verus! {

/// The payload of one attribute attached to a field.
pub enum AttrValue {
    /// The attribute carries no value at all: `#[name]`.
    Bare,
    /// The attribute carries a parenthesised list: `#[name(...)]`.
    List,
    /// The attribute carries an explicit string value: `#[name = "why"]`.
    Str(String),
}

/// One attribute attached to a field, as the generator sees it.
pub struct AttrShape {
    /// The attribute's name.
    pub name: String,
    /// The attribute's payload.
    pub value: AttrValue,
}

/// One field of a record or of a tagged-union variant.
pub struct FieldShape {
    /// The declared field name, or `None` for a positional field.
    pub name: Option<String>,
    /// True when the field's declared type is a fixed-size array, which the
    /// generator expands element by element.
    pub is_array: bool,
    /// The attributes attached to the field, in source order.
    pub attrs: Vec<AttrShape>,
}

/// The fields of a record or of one variant: either named or positional.
pub struct Fields {
    /// True for named (brace) fields, false for positional (parenthesised)
    /// fields; a variant with no fields at all is a unit variant.
    pub named: bool,
    /// The fields in declaration order.
    pub list: Vec<FieldShape>,
}

/// One variant of a tagged union.
pub struct VariantShape {
    /// The variant's name.
    pub name: String,
    /// The variant's fields.
    pub fields: Fields,
}

/// Whether the type is a record or a tagged union.
pub enum ShapeKind {
    /// A record: a single implicit variant.
    Record(Fields),
    /// A tagged union: one variant per declared case.
    TaggedUnion(Vec<VariantShape>),
}

/// The full compile-time description of one type definition.
pub struct TypeShape {
    /// The type's name.
    pub name: String,
    /// The type's generic parameter names, in declaration order.  Each one
    /// must itself satisfy the measurement capability in the generated
    /// implementation.
    pub params: Vec<String>,
    /// The record's fields, or the union's variants.
    pub kind: ShapeKind,
}

} // verus!
