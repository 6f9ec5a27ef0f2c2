//! Type definitions, as the derivation reads them.
//!
//! A definition holds what the declaration of a type says about its shape: its name, whether
//! it is a `struct`, an `enum` or a `union`, and its fields in the order in which they are
//! declared.

use vstd::prelude::*;
use crate::meta::Type;

verus! {

/// A field as a type definition declares it.
#[derive(Clone, Copy, Debug, PartialEq, Eq)]
pub struct FieldDef {
    /// The name of the field, or `None` for a positional field.
    pub ident: Option<&'static str>,
    /// The type information of the field's type, where that type has any.
    pub ty: Option<&'static Type>,
}

/// The fields of a `struct` or of an `enum` variant, as declared.
#[derive(Clone, Debug, PartialEq, Eq)]
pub enum FieldsDef {
    /// Fields in braces, each with a name.
    Named(Vec<FieldDef>),
    /// Fields in parentheses, told apart by their position.
    Unnamed(Vec<FieldDef>),
    /// No fields and no field syntax.
    Unit,
}

/// A variant of an `enum`, as declared.
#[derive(Clone, Debug, PartialEq, Eq)]
pub struct VariantDef {
    /// The name of the variant.
    pub ident: &'static str,
    /// The fields of the variant.
    pub fields: FieldsDef,
}

/// What a definition declares besides its name.
#[derive(Clone, Debug, PartialEq, Eq)]
pub enum DataDef {
    /// A `struct` with its fields.
    Struct(FieldsDef),
    /// An `enum` with its variants, in declaration order.
    Enum(Vec<VariantDef>),
    /// A `union` with its fields, all of which are named.
    Union(Vec<FieldDef>),
}

/// A type parameter of a definition, with the bounds it declares.
#[derive(Clone, Debug, PartialEq, Eq)]
pub struct TypeParamDef {
    /// The name of the parameter.
    pub ident: &'static str,
    /// The bounds on the parameter, each as a path, in the order in which they are written.
    pub bounds: Vec<&'static str>,
}

/// The definition of a type.
#[derive(Clone, Debug, PartialEq, Eq)]
pub struct TypeDef {
    /// The name of the type.
    pub ident: &'static str,
    /// The type parameters of the definition, in declaration order.
    pub type_params: Vec<TypeParamDef>,
    /// The shape of the type.
    pub data: DataDef,
}

/// Every field of the list has a name, and no two of them have the same.
pub open spec fn all_named(fields: Seq<FieldDef>) -> bool {
    &&& forall|i: int| 0 <= i < fields.len() ==> (#[trigger] fields[i]).ident is Some
    &&& forall|i: int, j: int|
        0 <= i < j < fields.len() ==> (#[trigger] fields[i]).ident->0@ != (
        #[trigger] fields[j]).ident->0@
}

/// No field of the list has a name.
pub open spec fn all_unnamed(fields: Seq<FieldDef>) -> bool {
    forall|i: int| 0 <= i < fields.len() ==> (#[trigger] fields[i]).ident is None
}

impl FieldsDef {
    /// The declared fields as one sequence, in declaration order.
    pub open spec fn field_defs(&self) -> Seq<FieldDef> {
        match *self {
            FieldsDef::Named(fields) => fields@,
            FieldsDef::Unnamed(fields) => fields@,
            FieldsDef::Unit => Seq::empty(),
        }
    }

    /// The fields are what the syntax of their kind admits: named fields have names of their
    /// own, positional fields have none.
    pub open spec fn valid(&self) -> bool {
        match *self {
            FieldsDef::Named(fields) => all_named(fields@),
            FieldsDef::Unnamed(fields) => all_unnamed(fields@),
            FieldsDef::Unit => true,
        }
    }
}

impl DataDef {
    /// Every set of fields is valid, and the variants of an `enum` have names of their own.
    pub open spec fn valid(&self) -> bool {
        match *self {
            DataDef::Struct(fields) => fields.valid(),
            DataDef::Enum(variants) => {
                &&& forall|i: int|
                    0 <= i < variants@.len() ==> (#[trigger] variants@[i]).fields.valid()
                &&& forall|i: int, j: int|
                    0 <= i < j < variants@.len() ==> (#[trigger] variants@[i]).ident@ != (
                    #[trigger] variants@[j]).ident@
            },
            DataDef::Union(fields) => all_named(fields@),
        }
    }
}

impl TypeDef {
    /// The definition is one that the language admits.
    pub open spec fn valid(&self) -> bool {
        self.data.valid()
    }
}

} // verus!
