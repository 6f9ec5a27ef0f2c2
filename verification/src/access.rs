//! The access protocol: reading and writing the fields of a value through its descriptor.

use vstd::prelude::*;
use crate::field_id::FieldId;
use crate::meta::{Data, DataStruct, Fields, Type};
use crate::resolve::{
    idents_of, ids_of, lemma_enum_resolves, lemma_position_of, lemma_position_of_absent,
    lemma_unit_struct, name_view,
};

verus! {

/// A shared handle on the storage of one field, with the field's type erased.
///
/// The handle wraps a `&dyn Any`; the caller recovers the field by a downcast of its own.
/// The verifier has no model of `dyn Any`, so the handle is opaque to it: verified code hands
/// it on and claims nothing of what is inside.
#[verifier::external_body]
pub struct AnyRef<'a>(pub &'a dyn std::any::Any);

/// An exclusive handle on the storage of one field, with the field's type erased.
///
/// The handle wraps a `&mut dyn Any`; the caller recovers the field by a downcast of its own.
/// The verifier has no model of `dyn Any`, so the handle is opaque to it: verified code hands
/// it on and claims nothing of what is inside.
#[verifier::external_body]
pub struct AnyMut<'a>(pub &'a mut dyn std::any::Any);

/// A type that has dynamic type information associated with it.
///
/// This trait is built to be compatible with being a trait object.
///
/// The contracts of the accessors speak of what `type_ref` and `variant` report of the same
/// value: `call_ensures(Self::variant, (this,), variant)` holds of every `variant` that
/// `this.variant()` may return. An implementation is held to them where it is verified, and
/// trusted to meet them where it is not.
pub trait DynamicTypeInfo {
    /// The statically known type information for the type of this value. It is the same
    /// descriptor for every value of the type.
    fn type_ref(&self) -> &'static Type;

    /// Get the identifier of the currently active variant of this value, or `None` if its type
    /// is not an `enum`.
    ///
    /// An identifier that is returned is that of a variant which the type information of the
    /// value declares.
    fn variant(&self) -> (v: Option<&str>)
        ensures
            v matches Some(ident) ==> forall|this: &Self, ty: &'static Type|
                this == self && #[trigger] call_ensures(Self::type_ref, (this,), ty)
                    ==> ty.variant_index(ident@) is Some,
    {
        None
    }

    /// Get a dynamic reference to the value of a field on this value with the given field id.
    ///
    /// This method will return a handle on the given field if possible, or `None` if the value
    /// currently has no such field: a handle is returned only for an identifier that the type
    /// information of the value resolves on the variant which the value inhabits.
    fn field_any(&self, id: FieldId) -> (r: Option<AnyRef<'_>>)
        ensures
            r is Some ==> forall|this: &Self, ty: &'static Type, variant: Option<&str>|
                this == self && #[trigger] call_ensures(Self::type_ref, (this,), ty)
                    && #[trigger] call_ensures(Self::variant, (this,), variant) ==> ty.slot_of(
                    name_view(variant),
                    id@,
                ) is Some,
    {
        None
    }

    /// Get a mutable dynamic reference to the value of a field on this value with the given
    /// field id.
    ///
    /// This method will return a handle on the given field if possible, or `None` if the value
    /// currently has no such field: a handle is returned only for an identifier that the type
    /// information of the value resolves on the variant which the value inhabits.
    fn field_any_mut(&mut self, id: FieldId) -> (r: Option<AnyMut<'_>>)
        ensures
            r is Some ==> forall|this: &Self, ty: &'static Type, variant: Option<&str>|
                this == &*old(self) && #[trigger] call_ensures(Self::type_ref, (this,), ty)
                    && #[trigger] call_ensures(Self::variant, (this,), variant) ==> ty.slot_of(
                    name_view(variant),
                    id@,
                ) is Some,
    {
        None
    }
}

/// A type that has compile-time static type information associated with it.
pub trait TypeInfo: DynamicTypeInfo {
    /// The constant statically known type information for this type.
    const TYPE: Type;

    /// Get a reference to the value of a field on this value with the given field id.
    ///
    /// This method will return the current value of the given field if possible, or `None` if
    /// the given field does not exist or does not have a type matching the supplied type.
    ///
    /// A reference is returned only for an identifier that `TYPE` resolves on the variant which
    /// the value inhabits.
    fn field<A>(&self, id: FieldId) -> (r: Option<&A>) where A: std::any::Any
        ensures
            r is Some ==> Self::TYPE.declares(id@),
            r is Some ==> forall|this: &Self, variant: Option<&str>|
                this == self && #[trigger] call_ensures(Self::variant, (this,), variant)
                    ==> Self::TYPE.slot_of(name_view(variant), id@) is Some,
            r is Some ==> forall|this: &Self, handle: Option<AnyRef<'_>>|
                this == self && #[trigger] call_ensures(Self::field_any, (this, id), handle)
                    ==> handle is Some,
    {
        None
    }

    /// Get a mutable reference to the value of a field on this value with the given field id.
    ///
    /// This method will return the current value of the given field if possible, or `None` if
    /// the given field does not exist or does not have a type matching the supplied type.
    ///
    /// A reference is returned only for an identifier that `TYPE` resolves on the variant which
    /// the value inhabits.
    fn field_mut<A>(&mut self, id: FieldId) -> (r: Option<&mut A>) where A: std::any::Any
        ensures
            r is Some ==> Self::TYPE.declares(id@),
            r is Some ==> forall|this: &Self, variant: Option<&str>|
                this == &*old(self) && #[trigger] call_ensures(Self::variant, (this,), variant)
                    ==> Self::TYPE.slot_of(name_view(variant), id@) is Some,
            r is Some ==> forall|this: &Self, handle: Option<AnyRef<'_>>|
                this == &*old(self) && #[trigger] call_ensures(Self::field_any, (this, id), handle)
                    ==> handle is Some,
    {
        None
    }
}

/// A value of a unit `struct` hands out no field, whatever the identifier and whatever the
/// type that is asked for.
pub proof fn lemma_unit_struct_field<T: TypeInfo, A: std::any::Any>(
    value: &T,
    id: FieldId,
    r: Option<&A>,
)
    requires
        T::TYPE.data == Data::Struct(DataStruct { fields: Fields::Unit }),
        call_ensures(T::field::<A>, (value, id), r),
    ensures
        r is None,
{
    lemma_unit_struct(T::TYPE, None, id@);
}

/// A value of a unit `struct` hands out no field to write to either.
pub proof fn lemma_unit_struct_field_mut<T: TypeInfo, A: std::any::Any>(
    value: &mut T,
    id: FieldId,
    r: Option<&mut A>,
)
    requires
        T::TYPE.data == Data::Struct(DataStruct { fields: Fields::Unit }),
        call_ensures(T::field_mut::<A>, (value, id), r),
    ensures
        r is None,
{
    lemma_unit_struct(T::TYPE, None, id@);
}

/// A value of a `struct` hands out no field for an identifier that none of the declared fields
/// carries.
pub proof fn lemma_struct_other_field<T: TypeInfo, A: std::any::Any>(
    value: &T,
    id: FieldId,
    r: Option<&A>,
)
    requires
        T::TYPE.data is Struct,
        forall|i: int|
            0 <= i < T::TYPE.field_seq().len() ==> (#[trigger] T::TYPE.field_seq()[i]).id@ != id@,
        call_ensures(T::field::<A>, (value, id), r),
    ensures
        r is None,
{
    let ids = ids_of(T::TYPE.field_seq());
    assert forall|j: int| 0 <= j < ids.len() implies ids[j] != id@ by {
        assert(T::TYPE.field_seq()[j].id@ != id@);
    }
    lemma_position_of_absent(ids, id@);
    assert forall|variant: Option<Seq<char>>| (#[trigger] T::TYPE.slot_of(variant, id@)) is None by {
        assert(T::TYPE.live_field_seq(variant) == T::TYPE.field_seq());
    }
}

/// A value of an `enum` hands out no field for an identifier that the variant it inhabits does
/// not declare, whether or not another variant declares a field with that identifier.
pub proof fn lemma_enum_other_field<T: TypeInfo, A: std::any::Any>(
    value: &T,
    ident: &str,
    k: int,
    id: FieldId,
    r: Option<&A>,
)
    requires
        T::TYPE.well_formed(),
        T::TYPE.data is Enum,
        0 <= k < T::TYPE.variant_seq().len(),
        T::TYPE.variant_seq()[k].ident@ == ident@,
        forall|i: int|
            0 <= i < T::TYPE.variant_seq()[k].fields.field_seq().len() ==> (
            #[trigger] T::TYPE.variant_seq()[k].fields.field_seq()[i]).id@ != id@,
        call_ensures(T::variant, (value,), Some(ident)),
        call_ensures(T::field::<A>, (value, id), r),
    ensures
        r is None,
{
    lemma_enum_resolves(T::TYPE, k, id@);
    assert(name_view(Some(ident)) == Some(T::TYPE.variant_seq()[k].ident@));
}

/// The identifier that a value of an `enum` gives for the variant it inhabits is that of a
/// variant which the type information declares, and an identifier is given for a value of
/// an `enum` alone.
pub proof fn lemma_variant_declared<T: DynamicTypeInfo>(value: &T, ty: &'static Type, ident: &str)
    requires
        call_ensures(T::type_ref, (value,), ty),
        call_ensures(T::variant, (value,), Some(ident)),
    ensures
        ty.data is Enum,
        exists|k: int|
            0 <= k < ty.variant_seq().len() && (#[trigger] ty.variant_seq()[k]).ident@ == ident@,
{
    lemma_position_of(idents_of(ty.variant_seq()), ident@);
    let k = ty.variant_index(ident@)->0;
    assert(ty.variant_seq()[k].ident@ == ident@);
}

/// A trait that says, for any type that is registered with it, whether the type exposes type
/// information.
///
/// A type that implements `TypeInfo` registers with `Some(&Self::TYPE)`. Any other type registers
/// with an empty implementation and keeps the default, `None`: a field of such a type is
/// described without type information of its own. The primitive types and the most common
/// types of the standard library are registered here, without type information.
pub trait TryTypeInfo {
    /// The constant statically known type information for this type, or `None` if the type does
    /// not implement `TypeInfo`.
    const TRY_TYPE: Option<&'static Type> = None;
}

impl TryTypeInfo for u8 {
}

impl TryTypeInfo for u16 {
}

impl TryTypeInfo for u32 {
}

impl TryTypeInfo for u64 {
}

impl TryTypeInfo for u128 {
}

impl TryTypeInfo for usize {
}

impl TryTypeInfo for i8 {
}

impl TryTypeInfo for i16 {
}

impl TryTypeInfo for i32 {
}

impl TryTypeInfo for i64 {
}

impl TryTypeInfo for i128 {
}

impl TryTypeInfo for isize {
}

impl TryTypeInfo for bool {
}

impl TryTypeInfo for char {
}

impl TryTypeInfo for String {
}

impl TryTypeInfo for &'static str {
}

impl TryTypeInfo for () {
}

impl<T> TryTypeInfo for Option<T> {
}

impl<T> TryTypeInfo for Vec<T> {
}

impl<T> TryTypeInfo for Box<T> {
}

} // verus!
