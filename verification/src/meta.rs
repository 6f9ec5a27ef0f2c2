//! The metadata model: an immutable description of a reflected type's shape.

use vstd::prelude::*;
use crate::field_id::{FieldId, FieldIdView};

verus! {

/// A globally unique identifier for a type.
pub type TypeId = std::any::TypeId;

/// `std::any::TypeId`, an opaque value that stands for one concrete type.
#[verifier::external_type_specification]
#[verifier::external_body]
pub struct ExTypeId(std::any::TypeId);

/// `Clone::clone` on a `TypeId`: the identifier is `Copy`, and its clone is the identifier itself.
pub assume_specification[ <std::any::TypeId as Clone>::clone ](id: &std::any::TypeId) -> (r:
    std::any::TypeId)
    ensures
        r == *id,
;

/// Type information for a type that implements `TypeInfo`.
#[derive(Clone, Debug, Eq, Hash, Ord, PartialEq, PartialOrd)]
pub struct Type {
    /// The globally unique identifier for this type.
    pub id: TypeId,
    /// The module in which this type was defined, in unrooted syntax such as `foo::bar`.
    pub module: &'static str,
    /// The identifier of this type within its module.
    pub ident: &'static str,
    /// Additional data about this type definition.
    pub data: Data,
}

/// Data associated with type information.
#[derive(Clone, Debug, Eq, Hash, Ord, PartialEq, PartialOrd)]
pub enum Data {
    /// The associated type is a primitive type.
    Primitive,
    /// The associated type is a `struct`.
    Struct(DataStruct),
    /// The associated type is an `enum`.
    Enum(DataEnum),
    /// The associated type is a `union`.
    Union(DataUnion),
}

/// Data associated with `struct` type information.
#[derive(Clone, Debug, Eq, Hash, Ord, PartialEq, PartialOrd)]
pub struct DataStruct {
    /// The fields that this `struct` consists of.
    pub fields: Fields,
}

/// Data associated with `enum` type information.
#[derive(Clone, Debug, Eq, Hash, Ord, PartialEq, PartialOrd)]
pub struct DataEnum {
    /// The variants that this `enum` consists of, in declaration order.
    pub variants: &'static [Variant],
}

/// Data associated with `union` type information.
#[derive(Clone, Debug, Eq, Hash, Ord, PartialEq, PartialOrd)]
pub struct DataUnion {
    /// The fields that this `union` consists of.
    pub fields: FieldsNamed,
}

/// A specific `enum` variant.
#[derive(Clone, Debug, Eq, Hash, Ord, PartialEq, PartialOrd)]
pub struct Variant {
    /// The identifier of the enum variant.
    pub ident: &'static str,
    /// The fields that are associated with a particular `enum` variant.
    pub fields: Fields,
}

/// A set of fields associated with a type or `enum` variant.
#[derive(Clone, Debug, Eq, Hash, Ord, PartialEq, PartialOrd)]
pub enum Fields {
    /// A set of named fields.
    Named(FieldsNamed),
    /// A set of index-addressed fields.
    Unnamed(FieldsUnnamed),
    /// The empty set of fields, applicable to unit structs or enum variants.
    Unit,
}

/// A set of named fields associated with a type or `enum` variant.
#[derive(Clone, Debug, Eq, Hash, Ord, PartialEq, PartialOrd)]
pub struct FieldsNamed {
    /// The related set of named fields, in declaration order.
    pub named: &'static [Field],
}

/// A set of unnamed fields associated with a type or `enum` variant.
#[derive(Clone, Debug, Eq, Hash, Ord, PartialEq, PartialOrd)]
pub struct FieldsUnnamed {
    /// The related set of unnamed fields, in declaration order.
    pub unnamed: &'static [Field],
}

/// A field that is associated with a type or `enum` variant.
#[derive(Clone, Debug, Eq, Hash, Ord, PartialEq, PartialOrd)]
pub struct Field {
    /// The type or variant local unique identifier for the field.
    pub id: FieldId<'static>,
    /// The field's identifier, if it is named.
    pub ident: Option<&'static str>,
    /// The type of the field, if it has any associated `TypeInfo`.
    pub ty: Option<&'static Type>,
}

impl Field {
    /// A named field carries its name twice: as its identifier and as `ident`.
    pub open spec fn is_named(&self) -> bool {
        match (self.id, self.ident) {
            (FieldId::Named(name), Some(ident)) => name@ == ident@,
            _ => false,
        }
    }

    /// A positional field carries its position as its identifier, and no name.
    pub open spec fn is_unnamed_at(&self, index: int) -> bool {
        &&& self.id@ == FieldIdView::Unnamed(index as usize)
        &&& index == index as usize
        &&& self.ident is None
    }
}

/// No two fields of the list carry the same identifier.
pub open spec fn distinct_ids(fields: Seq<Field>) -> bool {
    forall|i: int, j: int|
        0 <= i < j < fields.len() ==> (#[trigger] fields[i]).id@ != (#[trigger] fields[j]).id@
}

/// No two variants of the list are called the same.
pub open spec fn distinct_idents(variants: Seq<Variant>) -> bool {
    forall|i: int, j: int|
        0 <= i < j < variants.len() ==> (#[trigger] variants[i]).ident@ != (
        #[trigger] variants[j]).ident@
}

impl FieldsNamed {
    /// Every field is a named field, and no name occurs twice.
    pub open spec fn well_formed(&self) -> bool {
        &&& forall|i: int| 0 <= i < self.named@.len() ==> (#[trigger] self.named@[i]).is_named()
        &&& distinct_ids(self.named@)
    }
}

impl FieldsUnnamed {
    /// The field at each position is the positional field of that position.
    pub open spec fn well_formed(&self) -> bool {
        forall|i: int|
            0 <= i < self.unnamed@.len() ==> (#[trigger] self.unnamed@[i]).is_unnamed_at(i)
    }
}

impl Variant {
    /// The fields of the variant are consistent with their identifiers.
    pub open spec fn well_formed(&self) -> bool {
        self.fields.well_formed()
    }
}

impl Data {
    /// Every set of fields in the description is consistent with its identifiers, and the
    /// variants of an `enum` have names of their own.
    pub open spec fn well_formed(&self) -> bool {
        match *self {
            Data::Primitive => true,
            Data::Struct(data) => data.fields.well_formed(),
            Data::Enum(data) => {
                &&& forall|i: int|
                    0 <= i < data.variants@.len() ==> (#[trigger] data.variants@[i]).well_formed()
                &&& distinct_idents(data.variants@)
            },
            Data::Union(data) => data.fields.well_formed(),
        }
    }
}

impl Fields {
    /// The identifier of each field matches the place of the field in the set: the field at
    /// position `i` of an unnamed set is `Unnamed(i)`, and a field called `n` in a named set
    /// is `Named(n)`.
    pub open spec fn well_formed(&self) -> bool {
        match *self {
            Fields::Named(named) => named.well_formed(),
            Fields::Unnamed(unnamed) => unnamed.well_formed(),
            Fields::Unit => true,
        }
    }

    /// The fields as one sequence, whether they are named or unnamed.
    pub open spec fn field_seq(&self) -> Seq<Field> {
        match *self {
            Fields::Named(named) => named.named@,
            Fields::Unnamed(unnamed) => unnamed.unnamed@,
            Fields::Unit => Seq::empty(),
        }
    }

    /// Convenience method for getting all of the fields, ignoring whether they are named or
    /// unnamed.
    pub fn fields(&self) -> (r: &'static [Field])
        ensures
            r@ == self.field_seq(),
    {
        match *self {
            Fields::Unit => &[],
            Fields::Named(FieldsNamed { named, .. }) => named,
            Fields::Unnamed(FieldsUnnamed { unnamed, .. }) => unnamed,
        }
    }
}

impl Type {
    /// The description of the type's shape is consistent throughout.
    pub open spec fn well_formed(&self) -> bool {
        self.data.well_formed()
    }

    /// The fields of a `struct`, in declaration order; no fields for any other kind of type.
    pub open spec fn field_seq(&self) -> Seq<Field> {
        match self.data {
            Data::Struct(data) => data.fields.field_seq(),
            _ => Seq::empty(),
        }
    }

    /// The variants of an `enum`, in declaration order; no variants for any other kind of type.
    pub open spec fn variant_seq(&self) -> Seq<Variant> {
        match self.data {
            Data::Enum(data) => data.variants@,
            _ => Seq::empty(),
        }
    }

    /// Convenience method for getting all of the struct fields of this type.
    pub fn fields(&self) -> (r: &'static [Field])
        ensures
            r@ == self.field_seq(),
    {
        match self.data {
            Data::Struct(DataStruct { ref fields, .. }) => fields.fields(),
            _ => &[],
        }
    }

    /// Convenience method for getting all of the enum variants of this type.
    pub fn variants(&self) -> (r: &'static [Variant])
        ensures
            r@ == self.variant_seq(),
    {
        match self.data {
            Data::Enum(DataEnum { ref variants, .. }) => variants,
            _ => &[],
        }
    }
}

} // verus!
