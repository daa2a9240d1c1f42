//! The field classifier: decides whether a declared type makes a field
//! optional or required.

use vstd::prelude::*;
use vstd::string::StringExecFns;
use crate::type_expr::{GenericArgument, PathArguments, PathSegment, TypeExpr, TypeShape};

verus! {

/// Whether a field has to be set before the record can be assembled.
#[derive(Clone, Copy, Debug, PartialEq, Eq, Structural)]
pub enum FieldKind {
    /// The field must have been set.
    Required,
    /// The field may be left unset.
    Optional,
}

/// What the classifier says of a declared type.
#[derive(Debug, PartialEq, Eq)]
pub enum Classification<'a> {
    /// The declared type is `Option` applied to the carried inner type.
    Optional(&'a TypeExpr),
    /// Any other type; the carried expression is the declared type itself.
    Required(&'a TypeExpr),
}

impl<'a> Classification<'a> {
    /// The kind of field that this classification stands for.
    pub open spec fn spec_kind(self) -> FieldKind {
        match self {
            Classification::Optional(_) => FieldKind::Optional,
            Classification::Required(_) => FieldKind::Required,
        }
    }

    /// The type of the values that the field takes: the inner type of an
    /// optional field, the declared type of a required one.
    pub open spec fn spec_value_type(self) -> TypeExpr {
        match self {
            Classification::Optional(inner) => *inner,
            Classification::Required(declared) => *declared,
        }
    }

    /// The kind of field that this classification stands for.
    pub fn kind(&self) -> (kind: FieldKind)
        ensures
            kind == self.spec_kind(),
    {
        match self {
            Classification::Optional(_) => FieldKind::Optional,
            Classification::Required(_) => FieldKind::Required,
        }
    }

    /// The type of the values that the field takes.
    pub fn value_type(&self) -> (ty: &'a TypeExpr)
        ensures
            *ty == self.spec_value_type(),
    {
        match self {
            Classification::Optional(inner) => inner,
            Classification::Required(declared) => declared,
        }
    }
}

impl PathSegment {
    /// The `T` of a segment `Option<T>`: the segment is named `Option` and
    /// carries exactly one argument in angle brackets, which is a type.
    pub open spec fn option_argument(&self) -> Option<TypeExpr> {
        if self.ident@ == "Option"@ {
            match self.arguments {
                PathArguments::AngleBracketed(args) => {
                    if args@.len() == 1 {
                        match args@[0] {
                            GenericArgument::Type(inner) => Some(inner),
                            GenericArgument::Other => None,
                        }
                    } else {
                        None
                    }
                },
                _ => None,
            }
        } else {
            None
        }
    }
}

impl TypeExpr {
    /// The inner type `T` when this expression is `Option<T>`: a path
    /// without a qualified self type and without a leading `::` whose first
    /// segment is `Option<T>`. Only the first segment is looked at.
    pub open spec fn option_argument(&self) -> Option<TypeExpr> {
        match self.shape {
            TypeShape::Path(path) => {
                if !path.qualified_self && !path.leading_colon && path.segments@.len() > 0 {
                    path.segments@[0].option_argument()
                } else {
                    None
                }
            },
            TypeShape::Other => None,
        }
    }

    /// The classification of a field declared with this type.
    pub open spec fn classification(&self) -> Classification<'_> {
        match self.option_argument() {
            Some(inner) => Classification::Optional(&inner),
            None => Classification::Required(self),
        }
    }
}

/// Extracts the inner type of an `Option<T>` type expression.
///
/// Returns the inner type exactly when the expression is an unqualified path
/// without a leading `::` whose first segment is named `Option` and carries
/// one angle-bracketed argument that is a type. Every other expression gives
/// nothing.
pub fn get_generic_from_opt<'a>(ty: &'a TypeExpr) -> (inner: Option<&'a TypeExpr>)
    ensures
        match inner {
            Some(found) => ty.option_argument() == Some(*found),
            None => ty.option_argument() is None,
        },
{
    match &ty.shape {
        TypeShape::Path(path) => {
            if path.qualified_self {
                return None;
            }
            if path.leading_colon {
                return None;
            }
            if path.segments.len() == 0 {
                return None;
            }
            let segment = &path.segments[0];
            if segment.ident != String::from_str("Option") {
                return None;
            }
            match &segment.arguments {
                PathArguments::AngleBracketed(args) => {
                    if args.len() != 1 {
                        None
                    } else {
                        match &args[0] {
                            GenericArgument::Type(inner) => Some(inner),
                            GenericArgument::Other => None,
                        }
                    }
                },
                _ => None,
            }
        },
        TypeShape::Other => None,
    }
}

/// Classifies a declared type.
///
/// The result is `Optional` with the inner type for `Option<T>` as
/// [`get_generic_from_opt`] recognizes it, and `Required` with the declared
/// type itself in every other case.
pub fn classify<'a>(ty: &'a TypeExpr) -> (class: Classification<'a>)
    ensures
        class == ty.classification(),
{
    match get_generic_from_opt(ty) {
        Some(inner) => Classification::Optional(inner),
        None => Classification::Required(ty),
    }
}

/// `Option<T>`, written as the single segment `Option` with the one type
/// argument `T`, without qualified self type and without leading `::`, is
/// classified optional with inner type `T`.
pub proof fn lemma_plain_option_is_optional(ty: TypeExpr, inner: TypeExpr)
    requires
        ({
            &&& ty.shape matches TypeShape::Path(path)
            &&& !path.qualified_self
            &&& !path.leading_colon
            &&& path.segments@.len() == 1
            &&& path.segments@[0].ident@ == "Option"@
            &&& path.segments@[0].arguments matches PathArguments::AngleBracketed(args)
            &&& args@ == seq![GenericArgument::Type(inner)]
        }),
    ensures
        ty.classification() == Classification::Optional(&inner),
{
}

/// A qualified path is classified required, with the declared type
/// unchanged, whatever its last segment is, so also when it ends in
/// `Option<T>`: a path with a qualified self type, a path with a leading
/// `::`, and a path of several segments unless its first segment is itself
/// `Option<T>`.
pub proof fn lemma_qualified_path_is_required(ty: TypeExpr)
    requires
        ({
            &&& ty.shape matches TypeShape::Path(path)
            &&& {
                ||| path.qualified_self
                ||| path.leading_colon
                ||| path.segments@.len() >= 2 && path.segments@[0].option_argument() is None
            }
        }),
    ensures
        ty.classification() == Classification::Required(&ty),
{
}

/// `Option` with no argument, with empty angle brackets or with two or more
/// arguments is classified required, with the declared type unchanged.
pub proof fn lemma_option_needs_one_argument(ty: TypeExpr)
    requires
        ({
            &&& ty.shape matches TypeShape::Path(path)
            &&& path.segments@.len() == 1
            &&& path.segments@[0].arguments matches PathArguments::AngleBracketed(args)
                ==> args@.len() != 1
        }),
    ensures
        ty.classification() == Classification::Required(&ty),
{
}

} // verus!
