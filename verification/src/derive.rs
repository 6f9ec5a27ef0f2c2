//! Derivation of type information from a type definition.
//!
//! The functions of this module build the description of a type from its definition, part by
//! part: each field, each set of fields, each variant, and the type as a whole. What is built
//! lists the fields and variants in declaration order, and identifies each field by its name
//! or, where it has none, by its position.
//!
//! A description holds its fields and variants in `'static` slices, which are allocated here
//! and never freed: type information is built once for a type and lives as long as the
//! program.

use vstd::prelude::*;
use crate::definition::{all_named, DataDef, FieldDef, FieldsDef, TypeDef, VariantDef};
use crate::field_id::FieldId;
use crate::meta::{
    Data, DataEnum, DataStruct, DataUnion, Field, Fields, FieldsNamed, FieldsUnnamed, Type,
    TypeId, Variant,
};

verus! {

/// Gives the contents of a vector the `'static` lifetime, with `Vec::leak`. The slice holds the
/// elements of the vector, in their order.
#[verifier::external_body]
fn leak<T: 'static>(items: Vec<T>) -> (r: &'static [T])
    ensures
        r@ == items@,
{
    items.leak()
}

/// The description of the field declared as `field` at position `idx`.
///
/// A field with a name is identified by its name, a positional field by its position. The
/// type information of the field's type is handed on as it is.
pub open spec fn field_built(idx: int, field: FieldDef) -> Field {
    match field.ident {
        Some(ident) => Field { id: FieldId::Named(ident), ident: Some(ident), ty: field.ty },
        None => Field { id: FieldId::Unnamed(idx as usize), ident: None, ty: field.ty },
    }
}

/// The descriptions of the fields declared as `fields`, in declaration order.
pub open spec fn fields_built(fields: Seq<FieldDef>) -> Seq<Field> {
    Seq::new(fields.len(), |i: int| field_built(i, fields[i]))
}

/// Builds the description of the field declared as `field` at position `idx`.
pub fn build_field(idx: usize, field: &FieldDef) -> (r: Field)
    ensures
        r == field_built(idx as int, *field),
{
    match field.ident {
        Some(ident) => Field { id: FieldId::Named(ident), ident: Some(ident), ty: field.ty },
        None => Field { id: FieldId::Unnamed(idx), ident: None, ty: field.ty },
    }
}

/// Builds the descriptions of a list of declared fields, in declaration order.
fn build_field_list(fields: &Vec<FieldDef>) -> (r: &'static [Field])
    ensures
        r@ == fields_built(fields@),
{
    let mut built: Vec<Field> = Vec::new();
    let mut i: usize = 0;
    while i < fields.len()
        invariant
            i <= fields.len(),
            built@ == fields_built(fields@).take(i as int),
        decreases fields.len() - i,
    {
        built.push(build_field(i, &fields[i]));
        i += 1;
        assert(built@ == fields_built(fields@).take(i as int));
    }
    leak(built)
}

/// Builds the description of a set of named fields.
pub fn build_fields_named(fields: &Vec<FieldDef>) -> (r: FieldsNamed)
    ensures
        r.named@ == fields_built(fields@),
{
    FieldsNamed { named: build_field_list(fields) }
}

/// Builds the description of a set of positional fields.
pub fn build_fields_unnamed(fields: &Vec<FieldDef>) -> (r: FieldsUnnamed)
    ensures
        r.unnamed@ == fields_built(fields@),
{
    FieldsUnnamed { unnamed: build_field_list(fields) }
}

impl Fields {
    /// Whether this set of fields is the description of the declared fields `def`: it is of
    /// the same kind and holds the description of each declared field, in declaration order.
    pub open spec fn describes(&self, def: FieldsDef) -> bool {
        match (*self, def) {
            (Fields::Named(named), FieldsDef::Named(fields)) => named.named@ == fields_built(
                fields@,
            ),
            (Fields::Unnamed(unnamed), FieldsDef::Unnamed(fields)) => unnamed.unnamed@
                == fields_built(fields@),
            (Fields::Unit, FieldsDef::Unit) => true,
            _ => false,
        }
    }
}

/// Builds the description of the fields of a `struct` or of an `enum` variant.
pub fn build_fields(fields: &FieldsDef) -> (r: Fields)
    ensures
        r.describes(*fields),
        fields.valid() ==> r.well_formed(),
{
    let built = match fields {
        FieldsDef::Named(named) => Fields::Named(build_fields_named(named)),
        FieldsDef::Unnamed(unnamed) => Fields::Unnamed(build_fields_unnamed(unnamed)),
        FieldsDef::Unit => Fields::Unit,
    };
    proof {
        if fields.valid() {
            lemma_fields_well_formed(built, *fields);
        }
    }
    built
}

impl Variant {
    /// Whether this is the description of the declared variant `def`: it has the name of the
    /// variant and describes its fields.
    pub open spec fn describes(&self, def: VariantDef) -> bool {
        &&& self.ident == def.ident
        &&& self.fields.describes(def.fields)
    }
}

/// Builds the description of an `enum` variant.
pub fn build_variant(variant: &VariantDef) -> (r: Variant)
    ensures
        r.describes(*variant),
{
    Variant { ident: variant.ident, fields: build_fields(&variant.fields) }
}

impl Data {
    /// Whether this is the description of the declared shape `def`: it is of the same kind, and
    /// it describes each field and each variant of the declaration, in declaration order.
    pub open spec fn describes(&self, def: DataDef) -> bool {
        match (*self, def) {
            (Data::Struct(data), DataDef::Struct(fields)) => data.fields.describes(fields),
            (Data::Enum(data), DataDef::Enum(variants)) => {
                &&& data.variants@.len() == variants@.len()
                &&& forall|i: int|
                    0 <= i < variants@.len() ==> (#[trigger] data.variants@[i]).describes(
                        variants@[i],
                    )
            },
            (Data::Union(data), DataDef::Union(fields)) => data.fields.named@ == fields_built(
                fields@,
            ),
            _ => false,
        }
    }
}

/// Builds the description of a `struct` from its declared fields.
pub fn build_data_struct(fields: &FieldsDef) -> (r: DataStruct)
    ensures
        r.fields.describes(*fields),
{
    DataStruct { fields: build_fields(fields) }
}

/// Builds the description of an `enum` from its declared variants.
pub fn build_data_enum(variants: &Vec<VariantDef>) -> (r: DataEnum)
    ensures
        Data::Enum(r).describes(DataDef::Enum(*variants)),
{
    let mut built: Vec<Variant> = Vec::new();
    let mut i: usize = 0;
    while i < variants.len()
        invariant
            i <= variants.len(),
            built@.len() == i,
            forall|k: int| 0 <= k < i ==> (#[trigger] built@[k]).describes(variants@[k]),
        decreases variants.len() - i,
    {
        built.push(build_variant(&variants[i]));
        i += 1;
    }
    DataEnum { variants: leak(built) }
}

/// Builds the description of a `union` from its declared fields.
pub fn build_data_union(fields: &Vec<FieldDef>) -> (r: DataUnion)
    ensures
        r.fields.named@ == fields_built(fields@),
{
    DataUnion { fields: build_fields_named(fields) }
}

/// Builds the description of the shape that a definition declares.
pub fn build_data(data: &DataDef) -> (r: Data)
    ensures
        r.describes(*data),
        data.valid() ==> r.well_formed(),
{
    let built = match data {
        DataDef::Struct(fields) => Data::Struct(build_data_struct(fields)),
        DataDef::Enum(variants) => Data::Enum(build_data_enum(variants)),
        DataDef::Union(fields) => Data::Union(build_data_union(fields)),
    };
    proof {
        if data.valid() {
            lemma_data_well_formed(built, *data);
        }
    }
    built
}

impl Type {
    /// Whether this is the type information of the type that `def` defines in module `module`
    /// and that `id` identifies.
    pub open spec fn describes(&self, def: TypeDef, id: TypeId, module: &'static str) -> bool {
        &&& self.id == id
        &&& self.module == module
        &&& self.ident == def.ident
        &&& self.data.describes(def.data)
    }
}

/// Builds the type information of the type that `def` defines.
///
/// `id` is the identifier of the type and `module` the path of the module that defines it.
pub fn build_type_info(def: &TypeDef, id: TypeId, module: &'static str) -> (r: Type)
    ensures
        r.describes(*def, id, module),
        def.valid() ==> r.well_formed(),
{
    Type { id, module, ident: def.ident, data: build_data(&def.data) }
}

/// The descriptions of named fields with names of their own are a well-formed set of named
/// fields.
pub proof fn lemma_named_well_formed(named: FieldsNamed, fields: Seq<FieldDef>)
    requires
        all_named(fields),
        named.named@ == fields_built(fields),
    ensures
        named.well_formed(),
{
    assert forall|i: int| 0 <= i < named.named@.len() implies (#[trigger] named.named@[i]).is_named() by {
        assert(fields[i].ident is Some);
    }
    assert forall|i: int, j: int| 0 <= i < j < named.named@.len() implies (
    #[trigger] named.named@[i]).id@ != (#[trigger] named.named@[j]).id@ by {
        assert(fields[i].ident is Some);
        assert(fields[j].ident is Some);
        assert(fields[i].ident->0@ != fields[j].ident->0@);
    }
}

/// The description of a valid set of declared fields is well-formed: each field carries the
/// identifier that its place in the declaration gives it.
pub proof fn lemma_fields_well_formed(built: Fields, def: FieldsDef)
    requires
        def.valid(),
        built.describes(def),
    ensures
        built.well_formed(),
{
    match (built, def) {
        (Fields::Named(named), FieldsDef::Named(fields)) => {
            lemma_named_well_formed(named, fields@);
        },
        (Fields::Unnamed(unnamed), FieldsDef::Unnamed(fields)) => {
            assert(fields@.len() == fields.len());
            assert forall|i: int| 0 <= i < unnamed.unnamed@.len() implies (
            #[trigger] unnamed.unnamed@[i]).is_unnamed_at(i) by {
                assert(fields@[i].ident is None);
            }
        },
        _ => {},
    }
}

/// The description of a valid shape is well-formed.
pub proof fn lemma_data_well_formed(built: Data, def: DataDef)
    requires
        def.valid(),
        built.describes(def),
    ensures
        built.well_formed(),
{
    match (built, def) {
        (Data::Struct(data), DataDef::Struct(fields)) => {
            lemma_fields_well_formed(data.fields, fields);
        },
        (Data::Enum(data), DataDef::Enum(variants)) => {
            assert forall|i: int| 0 <= i < data.variants@.len() implies (
            #[trigger] data.variants@[i]).well_formed() by {
                assert(data.variants@[i].describes(variants@[i]));
                assert(variants@[i].fields.valid());
                lemma_fields_well_formed(data.variants@[i].fields, variants@[i].fields);
            }
            assert forall|i: int, j: int| 0 <= i < j < data.variants@.len() implies (
            #[trigger] data.variants@[i]).ident@ != (#[trigger] data.variants@[j]).ident@ by {
                assert(data.variants@[i].describes(variants@[i]));
                assert(data.variants@[j].describes(variants@[j]));
                assert(variants@[i].ident@ != variants@[j].ident@);
            }
        },
        (Data::Union(data), DataDef::Union(fields)) => {
            lemma_named_well_formed(data.fields, fields@);
        },
        _ => {},
    }
}

/// The type information of a `struct` lists its fields as they are declared.
///
/// For a `struct` that declares the fields `f0, f1, ..` in this order, the fields of its type
/// information are as many, and the one at position `i` has the name of `fi`, or none if `fi`
/// is positional; is identified by that name, or by the position `i`; and has the type
/// information of the type of `fi`, where that type has any.
pub proof fn lemma_struct_round_trip(ty: Type, def: TypeDef, id: TypeId, module: &'static str)
    requires
        ty.describes(def, id, module),
        def.data is Struct,
    ensures
        ty.data is Struct,
        ty.field_seq().len() == def.data->Struct_0.field_defs().len(),
        forall|i: int|
            0 <= i < ty.field_seq().len() ==> {
                let built = #[trigger] ty.field_seq()[i];
                let declared = def.data->Struct_0.field_defs()[i];
                &&& built.ident == declared.ident
                &&& built.ty == declared.ty
                &&& built.id == match declared.ident {
                    Some(ident) => FieldId::Named(ident),
                    None => FieldId::Unnamed(i as usize),
                }
            },
{
}

/// The type information of a unit `struct` holds `Fields::Unit` and lists no fields.
pub proof fn lemma_unit_round_trip(ty: Type, def: TypeDef, id: TypeId, module: &'static str)
    requires
        ty.describes(def, id, module),
        def.data == DataDef::Struct(FieldsDef::Unit),
    ensures
        ty.data == Data::Struct(DataStruct { fields: Fields::Unit }),
        ty.field_seq().len() == 0,
{
}

} // verus!
