//! The implementation of the two traits that is derived for a type, as a whole.

use vstd::prelude::*;
use crate::accessor::{
    build_field_any_fn, build_field_any_mut_fn, build_field_fn, build_field_mut_fn,
    build_variant_fn, field_fn_described, lemma_accessors_agree, names_view, variant_fn_built,
    FieldFn, FieldFnBody, MetaBorrow, VariantName,
};
use crate::definition::{TypeDef, TypeParamDef};
use crate::derive::build_data;
use crate::field_id::FieldIdView;
use crate::meta::{Data, Type};

verus! {

/// The bound that every type parameter of a reflected type gets: fields are handed out
/// through `Any`, which wants their types to be `'static`.
pub const ANY_BOUND: &'static str = "::std::any::Any";

/// The type parameters of a definition, each with [`ANY_BOUND`] behind the bounds it declares.
pub open spec fn with_static(type_params: Seq<TypeParamDef>) -> Seq<(Seq<char>, Seq<&'static str>)> {
    Seq::new(
        type_params.len(),
        |i: int| (type_params[i].ident@, type_params[i].bounds@.push(ANY_BOUND)),
    )
}

/// The type parameters of a definition, as names with their bounds.
pub open spec fn params_view(type_params: Seq<TypeParamDef>) -> Seq<(Seq<char>, Seq<&'static str>)> {
    Seq::new(type_params.len(), |i: int| (type_params[i].ident@, type_params[i].bounds@))
}

/// Adds [`ANY_BOUND`] to every type parameter, behind the bounds that the parameter declares.
pub fn add_static(type_params: &mut Vec<TypeParamDef>)
    ensures
        params_view(final(type_params)@) == with_static(old(type_params)@),
{
    let mut i: usize = 0;
    while i < type_params.len()
        invariant
            i <= type_params.len(),
            type_params@.len() == old(type_params)@.len(),
            forall|k: int|
                0 <= k < i ==> (#[trigger] type_params@[k]).ident@ == old(type_params)@[k].ident@
                    && type_params@[k].bounds@ == old(type_params)@[k].bounds@.push(ANY_BOUND),
            forall|k: int| i <= k < type_params@.len() ==> type_params@[k] == old(type_params)@[k],
        decreases type_params.len() - i,
    {
        type_params[i].bounds.push(ANY_BOUND);
        i += 1;
    }
    assert(params_view(type_params@) =~= with_static(old(type_params)@));
}

/// The implementation of `TypeInfo` and `DynamicTypeInfo` that is derived for a type.
#[derive(Clone, Debug, PartialEq, Eq)]
pub struct TypeInfoImpl {
    /// The name of the type that the traits are implemented for.
    pub ident: &'static str,
    /// The type parameters of the implementation.
    pub type_params: Vec<TypeParamDef>,
    /// The shape that the `TYPE` constant describes.
    pub data: Data,
    /// The `field` accessor, or `None` where it is left as the trait provides it.
    pub field_fn: Option<FieldFn>,
    /// The `field_mut` accessor, or `None` where it is left as the trait provides it.
    pub field_mut_fn: Option<FieldFn>,
    /// The arms of the `variant` accessor, or `None` where it is left as the trait provides it.
    pub variant_fn: Option<Vec<VariantName>>,
    /// The `field_any` accessor, or `None` where it is left as the trait provides it.
    pub field_any_fn: Option<FieldFn>,
    /// The `field_any_mut` accessor, or `None` where it is left as the trait provides it.
    pub field_any_mut_fn: Option<FieldFn>,
}

impl TypeInfoImpl {
    /// Whether this is the implementation that is derived for the type that `def` defines: it
    /// is for that type, with `Any` required of every type parameter; its constant describes
    /// the shape of the definition; and its accessors are those derived for that shape.
    pub open spec fn describes(&self, def: TypeDef) -> bool {
        &&& self.ident == def.ident
        &&& params_view(self.type_params@) == with_static(def.type_params@)
        &&& self.data.describes(def.data)
        &&& field_fn_described(self.field_fn, def.data, MetaBorrow::Ref, false)
        &&& field_fn_described(self.field_mut_fn, def.data, MetaBorrow::Mut, false)
        &&& names_view(self.variant_fn) == variant_fn_built(def.data)
        &&& field_fn_described(self.field_any_fn, def.data, MetaBorrow::Ref, true)
        &&& field_fn_described(self.field_any_mut_fn, def.data, MetaBorrow::Mut, true)
    }
}

/// Derives the implementation of `TypeInfo` and `DynamicTypeInfo` for the type that `def`
/// defines.
pub fn impl_type_info(def: TypeDef) -> (r: TypeInfoImpl)
    ensures
        r.describes(def),
        def.valid() ==> r.data.well_formed(),
{
    let data = build_data(&def.data);
    let field_fn = build_field_fn(&def);
    let field_mut_fn = build_field_mut_fn(&def);
    let variant_fn = build_variant_fn(&def);
    let field_any_fn = build_field_any_fn(&def);
    let field_any_mut_fn = build_field_any_mut_fn(&def);
    let ident = def.ident;
    let mut type_params = def.type_params;
    add_static(&mut type_params);
    TypeInfoImpl {
        ident,
        type_params,
        data,
        field_fn,
        field_mut_fn,
        variant_fn,
        field_any_fn,
        field_any_mut_fn,
    }
}

/// The slot that a derived accessor hands out. An accessor that is left as the trait provides
/// it hands out nothing.
pub open spec fn accessor_select(
    accessor: Option<FieldFn>,
    variant: Option<Seq<char>>,
    id: FieldIdView,
) -> Option<int> {
    match accessor {
        Some(accessor) => accessor.body.select(variant, id),
        None => None,
    }
}

/// The four accessors of a derived implementation reach the same field.
///
/// For every identifier and every variant, `field`, `field_mut`, `field_any` and
/// `field_any_mut` hand out the field in one and the same slot, or all of them nothing; and
/// that slot is the one that the derived type information resolves the identifier to. So what
/// is written through `field_mut` is what `field` reads under the same identifier, and the
/// typed and the type-erased accessors do not differ in the field they reach.
pub proof fn lemma_accessors_same_slot(
    derived: TypeInfoImpl,
    def: TypeDef,
    ty: Type,
    variant: Option<Seq<char>>,
    id: FieldIdView,
)
    requires
        derived.describes(def),
        ty.data == derived.data,
    ensures
        accessor_select(derived.field_fn, variant, id) == ty.slot_of(variant, id),
        accessor_select(derived.field_mut_fn, variant, id) == ty.slot_of(variant, id),
        accessor_select(derived.field_any_fn, variant, id) == ty.slot_of(variant, id),
        accessor_select(derived.field_any_mut_fn, variant, id) == ty.slot_of(variant, id),
{
    lemma_accessor_agrees(derived.field_fn, def, ty, MetaBorrow::Ref, false, variant, id);
    lemma_accessor_agrees(derived.field_mut_fn, def, ty, MetaBorrow::Mut, false, variant, id);
    lemma_accessor_agrees(derived.field_any_fn, def, ty, MetaBorrow::Ref, true, variant, id);
    lemma_accessor_agrees(derived.field_any_mut_fn, def, ty, MetaBorrow::Mut, true, variant, id);
}

/// A derived accessor hands out the field that the derived type information resolves the
/// identifier to.
proof fn lemma_accessor_agrees(
    accessor: Option<FieldFn>,
    def: TypeDef,
    ty: Type,
    borrow: MetaBorrow,
    erased: bool,
    variant: Option<Seq<char>>,
    id: FieldIdView,
)
    requires
        field_fn_described(accessor, def.data, borrow, erased),
        ty.data.describes(def.data),
    ensures
        accessor_select(accessor, variant, id) == ty.slot_of(variant, id),
{
    let body: Option<FieldFnBody> = match accessor {
        Some(accessor) => Some(accessor.body),
        None => None,
    };
    lemma_accessors_agree(body, ty, def, variant, id);
}

} // verus!
