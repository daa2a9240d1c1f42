//! The input of generation: a type definition as the generator receives it.

use vstd::prelude::*;
use crate::type_expr::TypeExpr;

verus! {

/// A named field of a record: its name and its declared type.
#[derive(Debug, PartialEq, Eq)]
pub struct Field {
    /// The name of the field.
    pub name: String,
    /// The type the field was declared with.
    pub ty: TypeExpr,
}

/// The top-level shape of a type definition.
#[derive(Debug, PartialEq, Eq)]
pub enum ItemShape {
    /// A struct with named fields, in declaration order.
    Record(Vec<Field>),
    /// A struct with unnamed fields, such as `struct Pair(u8, u8);`.
    TupleStruct,
    /// A struct without fields, such as `struct Marker;`.
    UnitStruct,
    /// An enum.
    Enum,
    /// A union.
    Union,
}

/// A type definition: its name and its shape.
#[derive(Debug, PartialEq, Eq)]
pub struct DeriveInput {
    /// The name of the defined type.
    pub name: String,
    /// What kind of definition it is, with the fields of a record.
    pub shape: ItemShape,
}

} // verus!
