//! Detailed type information and reflection.
//!
//! A reflected type carries a [`Type`] descriptor that lays out its shape: whether it is a
//! `struct`, an `enum` or a `union`, which fields it declares and in what order, and, where a
//! field's own type is reflected too, that type's descriptor. The [`TypeInfo`] and
//! [`DynamicTypeInfo`] traits let a caller reach a field of a value through a [`FieldId`],
//! either downcast to a type that the caller names or as a type-erased handle.
//!
//! Which storage slot an identifier reaches is decided by [`Type::resolve`]. The descriptor and
//! the accessors of a type are derived from its definition by [`impl_type_info`], and the two
//! are proved to agree: an accessor hands out the field that the descriptor resolves the
//! identifier to.

pub mod access;
pub mod accessor;
pub mod definition;
pub mod derive;
pub mod field_id;
pub mod implement;
pub mod meta;
pub mod resolve;

pub use access::{AnyMut, AnyRef, DynamicTypeInfo, TryTypeInfo, TypeInfo};
pub use accessor::{
    binder_name, build_field_any_fn, build_field_any_mut_fn, build_field_fn, build_field_fn_body,
    build_field_fn_body_from_fields, build_field_fn_body_from_variants,
    build_field_fn_variant_field_match, build_field_mut_fn, build_variant_fn, fields_kind, Arm,
    FieldFn, FieldFnBody, FieldsKind, MetaBorrow, VariantArms, VariantName,
};
pub use definition::{DataDef, FieldDef, FieldsDef, TypeDef, TypeParamDef, VariantDef};
pub use derive::{
    build_data, build_data_enum, build_data_struct, build_data_union, build_field, build_fields,
    build_fields_named, build_fields_unnamed, build_type_info, build_variant,
};
pub use field_id::{decimal_text, FieldId, FieldIdView};
pub use implement::{add_static, impl_type_info, TypeInfoImpl, ANY_BOUND};
pub use meta::{
    Data, DataEnum, DataStruct, DataUnion, Field, Fields, FieldsNamed, FieldsUnnamed, Type, TypeId,
    Variant,
};
pub use resolve::position_in;
