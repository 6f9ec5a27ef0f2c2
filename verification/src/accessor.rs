//! The accessors of a reflected type, as lists of match arms.
//!
//! The accessors that are derived for a type match on the identifier they are given, and, for
//! an `enum`, first on the variant that the value inhabits. This module lays those matches out
//! as data, one arm per field, and says which slot each of them hands out.

use vstd::prelude::*;
use vstd::string::StringExecFns;
use crate::definition::{DataDef, FieldDef, FieldsDef, TypeDef, VariantDef};
use crate::derive::{field_built, fields_built};
use crate::field_id::{decimal, decimal_text, same_text, FieldId, FieldIdView};
use crate::meta::{Data, Fields, Type};
use crate::resolve::{
    as_index, find_from, idents_of, ids_of, lemma_position_of, name_view, position_of,
};

verus! {

/// The syntax in which a set of fields is written, with the number of fields.
#[derive(Clone, Copy, Debug, PartialEq, Eq)]
pub enum FieldsKind {
    /// No fields and no field syntax.
    Unit,
    /// This many positional fields, in parentheses.
    Unnamed(usize),
    /// This many named fields, in braces.
    Named(usize),
}

/// One arm of a match on a field identifier: `id => the field in slot`.
#[derive(Clone, Copy, Debug, PartialEq, Eq)]
pub struct Arm {
    /// The identifier that the arm matches.
    pub id: FieldId<'static>,
    /// The position, in declaration order, of the field that the arm hands out.
    pub slot: usize,
}

/// The arm of a field accessor for one variant of an `enum`.
#[derive(Clone, Debug, PartialEq, Eq)]
pub struct VariantArms {
    /// The name of the variant that the arm matches.
    pub ident: &'static str,
    /// The syntax of the pattern that binds the fields of the variant.
    pub kind: FieldsKind,
    /// The match on the identifier, or `None` where the variant has no fields and the arm
    /// hands out nothing.
    pub arms: Option<Vec<Arm>>,
}

/// The body of a field accessor.
#[derive(Clone, Debug, PartialEq, Eq)]
pub enum FieldFnBody {
    /// A match on the identifier, for a `struct` or `union`.
    Fields(Vec<Arm>),
    /// A match on the variant that the value inhabits, for an `enum`.
    Variants(Vec<VariantArms>),
}

/// One arm of the accessor that names the variant a value inhabits.
#[derive(Clone, Copy, Debug, PartialEq, Eq)]
pub struct VariantName {
    /// The name of the variant, which the arm both matches and hands out.
    pub ident: &'static str,
    /// The syntax of the pattern that matches the variant.
    pub kind: FieldsKind,
}

/// The arm for the field declared as `field` at position `idx`.
pub open spec fn arm_built(idx: int, field: FieldDef) -> Arm {
    Arm { id: field_built(idx, field).id, slot: idx as usize }
}

/// The arms for the fields declared as `fields`, one for each, in declaration order.
pub open spec fn arms_built(fields: Seq<FieldDef>) -> Seq<Arm> {
    Seq::new(fields.len(), |i: int| arm_built(i, fields[i]))
}

/// The identifiers that a list of arms matches, in order.
pub open spec fn arm_ids(arms: Seq<Arm>) -> Seq<FieldIdView> {
    Seq::new(arms.len(), |i: int| arms[i].id@)
}

/// The slot that a match with these arms hands out for `id`: that of the first arm that
/// matches, or none where no arm does.
pub open spec fn arms_select(arms: Seq<Arm>, id: FieldIdView) -> Option<int> {
    match position_of(arm_ids(arms), id) {
        Some(k) => Some(arms[k].slot as int),
        None => None,
    }
}

/// Tells which slot a match with these arms hands out for `id`.
pub fn select_arm(arms: &Vec<Arm>, id: FieldId) -> (r: Option<usize>)
    ensures
        as_index(r) == arms_select(arms@, id@),
{
    let mut i: usize = 0;
    while i < arms.len()
        invariant
            i <= arms.len(),
            position_of(arm_ids(arms@), id@) == find_from(arm_ids(arms@), id@, i as int),
        decreases arms.len() - i,
    {
        if arms[i].id == id {
            return Some(arms[i].slot);
        }
        i += 1;
    }
    None
}

/// The syntax in which the declared fields `fields` are written.
pub open spec fn kind_of(fields: FieldsDef) -> FieldsKind {
    match fields {
        FieldsDef::Named(named) => FieldsKind::Named(named@.len() as usize),
        FieldsDef::Unnamed(unnamed) => FieldsKind::Unnamed(unnamed@.len() as usize),
        FieldsDef::Unit => FieldsKind::Unit,
    }
}

/// Tells in which syntax a set of declared fields is written, and how many there are.
pub fn fields_kind(fields: &FieldsDef) -> (r: FieldsKind)
    ensures
        r == kind_of(*fields),
{
    match fields {
        FieldsDef::Named(named) => FieldsKind::Named(named.len()),
        FieldsDef::Unnamed(unnamed) => FieldsKind::Unnamed(unnamed.len()),
        FieldsDef::Unit => FieldsKind::Unit,
    }
}

/// Builds the match on the identifier for the fields of a `struct` or `union`: one arm for each
/// declared field, in declaration order, which matches the identifier of the field and hands
/// out the field.
pub fn build_field_fn_body_from_fields(fields: &Vec<FieldDef>) -> (r: Vec<Arm>)
    ensures
        r@ == arms_built(fields@),
{
    let mut arms: Vec<Arm> = Vec::new();
    let mut i: usize = 0;
    while i < fields.len()
        invariant
            i <= fields.len(),
            arms@ == arms_built(fields@).take(i as int),
        decreases fields.len() - i,
    {
        let id = match fields[i].ident {
            Some(ident) => FieldId::Named(ident),
            None => FieldId::Unnamed(i),
        };
        arms.push(Arm { id, slot: i });
        i += 1;
        assert(arms@ == arms_built(fields@).take(i as int));
    }
    arms
}

/// The match on the identifier for the fields of one variant, or `None` for a variant that
/// declares no field.
pub open spec fn variant_match_built(fields: Seq<FieldDef>) -> Option<Seq<Arm>> {
    if fields.len() == 0 {
        None
    } else {
        Some(arms_built(fields))
    }
}

/// What a match on the identifier is, for the contracts: its arms in order.
pub open spec fn arms_view(arms: Option<Vec<Arm>>) -> Option<Seq<Arm>> {
    match arms {
        Some(arms) => Some(arms@),
        None => None,
    }
}

/// Builds the match on the identifier for the fields that the pattern of one variant binds.
///
/// A variant without fields gets no match: its arm hands out nothing.
pub fn build_field_fn_variant_field_match(fields: &Vec<FieldDef>) -> (r: Option<Vec<Arm>>)
    ensures
        arms_view(r) == variant_match_built(fields@),
{
    if fields.len() == 0 {
        None
    } else {
        Some(build_field_fn_body_from_fields(fields))
    }
}

/// The name under which the pattern of a variant binds the field in slot `slot`: an underscore
/// and the slot as a decimal numeral.
pub open spec fn binder(slot: nat) -> Seq<char> {
    seq!['_'] + decimal(slot)
}

/// Gives the name under which the pattern of a variant binds the field in slot `slot`, such as
/// `_0` for the first field.
pub fn binder_name(slot: usize) -> (r: String)
    ensures
        r@ == binder(slot as nat),
{
    proof {
        reveal_strlit("_");
    }
    let mut name = String::from_str("_");
    assert(name@ =~= seq!['_']);
    name.append(decimal_text(slot).as_str());
    name
}

impl VariantArms {
    /// Whether this is the arm for the declared variant `def`: it matches the variant by its
    /// name, binds its fields in the syntax of the declaration, and matches on the identifier
    /// with one arm for each of them.
    pub open spec fn describes(&self, def: VariantDef) -> bool {
        &&& self.ident == def.ident
        &&& self.kind == kind_of(def.fields)
        &&& arms_view(self.arms) == variant_match_built(def.fields.field_defs())
    }

    /// The slot that this arm hands out for `id`.
    pub open spec fn select(&self, id: FieldIdView) -> Option<int> {
        match self.arms {
            Some(arms) => arms_select(arms@, id),
            None => None,
        }
    }
}

/// The names of the variants that a list of arms matches, in order.
pub open spec fn arm_idents(arms: Seq<VariantArms>) -> Seq<Seq<char>> {
    Seq::new(arms.len(), |i: int| arms[i].ident@)
}

/// Whether `arms` holds the arm for each of the declared `variants`, in declaration order.
pub open spec fn variants_described(arms: Seq<VariantArms>, variants: Seq<VariantDef>) -> bool {
    &&& arms.len() == variants.len()
    &&& forall|k: int| 0 <= k < arms.len() ==> (#[trigger] arms[k]).describes(variants[k])
}

/// Builds the match on the inhabited variant for an `enum`: one arm for each declared variant,
/// in declaration order.
pub fn build_field_fn_body_from_variants(variants: &Vec<VariantDef>) -> (r: Vec<VariantArms>)
    ensures
        variants_described(r@, variants@),
{
    let mut built: Vec<VariantArms> = Vec::new();
    let mut i: usize = 0;
    while i < variants.len()
        invariant
            i <= variants.len(),
            built@.len() == i,
            forall|k: int| 0 <= k < i ==> (#[trigger] built@[k]).describes(variants@[k]),
        decreases variants.len() - i,
    {
        let variant = &variants[i];
        let arms = match &variant.fields {
            FieldsDef::Unit => None,
            FieldsDef::Unnamed(fields) => build_field_fn_variant_field_match(fields),
            FieldsDef::Named(fields) => build_field_fn_variant_field_match(fields),
        };
        built.push(VariantArms { ident: variant.ident, kind: fields_kind(&variant.fields), arms });
        i += 1;
    }
    built
}

/// No variant of the list declares a field.
pub open spec fn no_fields(variants: Seq<VariantDef>) -> bool {
    forall|k: int| 0 <= k < variants.len() ==> (#[trigger] variants[k]).fields.field_defs().len() == 0
}

/// Tells whether no variant of the list declares a field.
fn all_empty(variants: &Vec<VariantDef>) -> (r: bool)
    ensures
        r == no_fields(variants@),
{
    let mut i: usize = 0;
    while i < variants.len()
        invariant
            i <= variants.len(),
            forall|k: int| 0 <= k < i ==> (#[trigger] variants@[k]).fields.field_defs().len() == 0,
        decreases variants.len() - i,
    {
        let empty = match &variants[i].fields {
            FieldsDef::Unit => true,
            FieldsDef::Unnamed(fields) => fields.len() == 0,
            FieldsDef::Named(fields) => fields.len() == 0,
        };
        if !empty {
            return false;
        }
        i += 1;
    }
    true
}

impl FieldFnBody {
    /// The slot that an accessor with this body hands out for `id` on a value that inhabits
    /// `variant`.
    ///
    /// The accessor of a `struct` or `union` matches on the identifier alone. That of an `enum`
    /// takes the arm of the inhabited variant and matches on the identifier there.
    pub open spec fn select(&self, variant: Option<Seq<char>>, id: FieldIdView) -> Option<int> {
        match *self {
            FieldFnBody::Fields(arms) => arms_select(arms@, id),
            FieldFnBody::Variants(arms) => match variant {
                Some(ident) => match position_of(arm_idents(arms@), ident) {
                    Some(k) => arms@[k].select(id),
                    None => None,
                },
                None => None,
            },
        }
    }

    /// Tells which slot an accessor with this body hands out for `id` on a value that inhabits
    /// `variant`, or `None` where it hands out nothing.
    pub fn slot(&self, variant: Option<&str>, id: FieldId) -> (r: Option<usize>)
        ensures
            as_index(r) == self.select(name_view(variant), id@),
    {
        match self {
            FieldFnBody::Fields(arms) => select_arm(arms, id),
            FieldFnBody::Variants(arms) => match variant {
                Some(ident) => {
                    let mut i: usize = 0;
                    while i < arms.len()
                        invariant
                            i <= arms.len(),
                            *self == FieldFnBody::Variants(*arms),
                            variant == Some(ident),
                            position_of(arm_idents(arms@), ident@) == find_from(
                                arm_idents(arms@),
                                ident@,
                                i as int,
                            ),
                        decreases arms.len() - i,
                    {
                        if same_text(arms[i].ident, ident) {
                            assert(arm_idents(arms@)[i as int] == ident@);
                            return match &arms[i].arms {
                                Some(arms) => select_arm(arms, id),
                                None => None,
                            };
                        }
                        i += 1;
                    }
                    None
                },
                None => None,
            },
        }
    }
}

/// The slot that a derived accessor hands out. Where no body is derived the accessor is left
/// as the trait provides it, and hands out nothing.
pub open spec fn body_select(
    body: Option<FieldFnBody>,
    variant: Option<Seq<char>>,
    id: FieldIdView,
) -> Option<int> {
    match body {
        Some(body) => body.select(variant, id),
        None => None,
    }
}

/// Whether `body` is the body of the field accessors that are derived for the shape `data`.
///
/// No body is derived for a type without fields: a `struct` or `union` that declares none, or
/// an `enum` none of whose variants does.
pub open spec fn body_described(body: Option<FieldFnBody>, data: DataDef) -> bool {
    match data {
        DataDef::Struct(fields) => fields_body_described(body, fields.field_defs()),
        DataDef::Union(fields) => fields_body_described(body, fields@),
        DataDef::Enum(variants) => if no_fields(variants@) {
            body is None
        } else {
            match body {
                Some(FieldFnBody::Variants(arms)) => variants_described(arms@, variants@),
                _ => false,
            }
        },
    }
}

/// Whether `body` is the body derived for the declared fields of a `struct` or `union`.
pub open spec fn fields_body_described(body: Option<FieldFnBody>, fields: Seq<FieldDef>) -> bool {
    if fields.len() == 0 {
        body is None
    } else {
        match body {
            Some(FieldFnBody::Fields(arms)) => arms@ == arms_built(fields),
            _ => false,
        }
    }
}

/// Builds the body of the field accessors of the type that `def` defines, or `None` where the
/// type has no fields and the accessors are left as the traits provide them.
pub fn build_field_fn_body(def: &TypeDef) -> (r: Option<FieldFnBody>)
    ensures
        body_described(r, def.data),
{
    match &def.data {
        DataDef::Enum(variants) => {
            if all_empty(variants) {
                None
            } else {
                Some(FieldFnBody::Variants(build_field_fn_body_from_variants(variants)))
            }
        },
        DataDef::Struct(FieldsDef::Named(fields)) => fields_body(fields),
        DataDef::Struct(FieldsDef::Unnamed(fields)) => fields_body(fields),
        DataDef::Struct(FieldsDef::Unit) => None,
        DataDef::Union(fields) => fields_body(fields),
    }
}

/// Builds the body of the field accessors for the declared fields of a `struct` or `union`.
fn fields_body(fields: &Vec<FieldDef>) -> (r: Option<FieldFnBody>)
    ensures
        fields_body_described(r, fields@),
{
    if fields.len() == 0 {
        None
    } else {
        Some(FieldFnBody::Fields(build_field_fn_body_from_fields(fields)))
    }
}

/// How an accessor borrows the value it is called on.
#[derive(Clone, Copy, Debug, PartialEq, Eq)]
pub enum MetaBorrow {
    /// The accessor takes `&self` and hands out shared references.
    Ref,
    /// The accessor takes `&mut self` and hands out exclusive references.
    Mut,
}

/// A derived field accessor.
#[derive(Clone, Debug, PartialEq, Eq)]
pub struct FieldFn {
    /// How the accessor borrows the value.
    pub borrow: MetaBorrow,
    /// Whether the accessor hands the field out as a type-erased handle, rather than downcast
    /// to the type that the caller names.
    pub erased: bool,
    /// The match that picks the field.
    pub body: FieldFnBody,
}

/// Whether `accessor` is the accessor with the given borrow and erasure that is derived for
/// the shape `data`. None is derived for a type without fields.
pub open spec fn field_fn_described(
    accessor: Option<FieldFn>,
    data: DataDef,
    borrow: MetaBorrow,
    erased: bool,
) -> bool {
    match accessor {
        Some(accessor) => {
            &&& accessor.borrow == borrow
            &&& accessor.erased == erased
            &&& body_described(Some(accessor.body), data)
        },
        None => body_described(None, data),
    }
}

/// Builds the accessor with the given borrow and erasure around the derived body.
fn field_fn(def: &TypeDef, borrow: MetaBorrow, erased: bool) -> (r: Option<FieldFn>)
    ensures
        field_fn_described(r, def.data, borrow, erased),
{
    match build_field_fn_body(def) {
        Some(body) => Some(FieldFn { borrow, erased, body }),
        None => None,
    }
}

/// Builds `field`, the accessor that hands out a shared reference to a field, downcast to the
/// type that the caller names.
pub fn build_field_fn(def: &TypeDef) -> (r: Option<FieldFn>)
    ensures
        field_fn_described(r, def.data, MetaBorrow::Ref, false),
{
    field_fn(def, MetaBorrow::Ref, false)
}

/// Builds `field_mut`, the accessor that hands out an exclusive reference to a field, downcast
/// to the type that the caller names.
pub fn build_field_mut_fn(def: &TypeDef) -> (r: Option<FieldFn>)
    ensures
        field_fn_described(r, def.data, MetaBorrow::Mut, false),
{
    field_fn(def, MetaBorrow::Mut, false)
}

/// Builds `field_any`, the accessor that hands out a shared type-erased handle on a field.
pub fn build_field_any_fn(def: &TypeDef) -> (r: Option<FieldFn>)
    ensures
        field_fn_described(r, def.data, MetaBorrow::Ref, true),
{
    field_fn(def, MetaBorrow::Ref, true)
}

/// Builds `field_any_mut`, the accessor that hands out an exclusive type-erased handle on a
/// field.
pub fn build_field_any_mut_fn(def: &TypeDef) -> (r: Option<FieldFn>)
    ensures
        field_fn_described(r, def.data, MetaBorrow::Mut, true),
{
    field_fn(def, MetaBorrow::Mut, true)
}

/// The arm of the `variant` accessor for the declared variant `def`.
pub open spec fn variant_name_built(def: VariantDef) -> VariantName {
    VariantName { ident: def.ident, kind: kind_of(def.fields) }
}

/// What the arms of a derived `variant` accessor are, for the contracts: the arms in order,
/// or `None` where the accessor is left as the trait provides it.
pub open spec fn names_view(names: Option<Vec<VariantName>>) -> Option<Seq<VariantName>> {
    match names {
        Some(names) => Some(names@),
        None => None,
    }
}

/// The arms of the `variant` accessor that is derived for the shape `data`: one for each
/// variant of an `enum` that declares any, in declaration order. For any other type the
/// accessor is left as the trait provides it.
pub open spec fn variant_fn_built(data: DataDef) -> Option<Seq<VariantName>> {
    match data {
        DataDef::Enum(variants) => if variants@.len() == 0 {
            None
        } else {
            Some(Seq::new(variants@.len(), |k: int| variant_name_built(variants@[k])))
        },
        _ => None,
    }
}

/// Builds `variant`, the accessor that names the variant a value inhabits.
pub fn build_variant_fn(def: &TypeDef) -> (r: Option<Vec<VariantName>>)
    ensures
        names_view(r) == variant_fn_built(def.data),
{
    match &def.data {
        DataDef::Enum(variants) => {
            if variants.len() == 0 {
                return None;
            }
            let ghost built = variant_fn_built(def.data)->0;
            let mut names: Vec<VariantName> = Vec::new();
            let mut i: usize = 0;
            while i < variants.len()
                invariant
                    i <= variants.len(),
                    built == Seq::new(variants@.len(), |k: int| variant_name_built(variants@[k])),
                    names@ == built.take(i as int),
                decreases variants.len() - i,
            {
                let variant = &variants[i];
                names.push(VariantName { ident: variant.ident, kind: fields_kind(&variant.fields) });
                i += 1;
                assert(names@ == built.take(i as int));
            }
            Some(names)
        },
        _ => None,
    }
}

/// The arms built for a list of declared fields match the identifiers of the descriptions
/// built for them, and each hands out the field at its own position.
pub proof fn lemma_arms_select(fields: Seq<FieldDef>, id: FieldIdView)
    requires
        fields.len() <= usize::MAX,
    ensures
        arms_select(arms_built(fields), id) == position_of(ids_of(fields_built(fields)), id),
{
    assert(arm_ids(arms_built(fields)) =~= ids_of(fields_built(fields)));
    lemma_position_of(ids_of(fields_built(fields)), id);
}

/// The derived accessors agree with the derived type information.
///
/// For every identifier and every variant, the field that a derived accessor hands out is the
/// one that the type information resolves the identifier to; where the type information
/// resolves it to nothing, the accessor hands out nothing.
pub proof fn lemma_accessors_agree(
    body: Option<FieldFnBody>,
    ty: Type,
    def: TypeDef,
    variant: Option<Seq<char>>,
    id: FieldIdView,
)
    requires
        body_described(body, def.data),
        ty.data.describes(def.data),
    ensures
        body_select(body, variant, id) == ty.slot_of(variant, id),
{
    match (ty.data, def.data) {
        (Data::Struct(data), DataDef::Struct(fields)) => {
            lemma_fields_agree(body, data.fields, fields, variant, id);
        },
        (Data::Union(data), DataDef::Union(fields)) => {
            assert(fields@.len() == fields.len());
            lemma_arms_select(fields@, id);
        },
        (Data::Enum(data), DataDef::Enum(variants)) => {
            let built = data.variants@;
            if variant is Some {
                let ident = variant->0;
                if no_fields(variants@) {
                    match position_of(idents_of(built), ident) {
                        Some(k) => {
                            lemma_position_of(idents_of(built), ident);
                            assert(built[k].describes(variants@[k]));
                            assert(variants@[k].fields.field_defs().len() == 0);
                            lemma_described_fields(built[k].fields, variants@[k].fields);
                        },
                        None => {},
                    }
                } else {
                    let arms = body->0->Variants_0@;
                    assert(arm_idents(arms) =~= idents_of(built)) by {
                        assert forall|k: int| 0 <= k < arms.len() implies arm_idents(arms)[k]
                            == idents_of(built)[k] by {
                            assert(arms[k].describes(variants@[k]));
                            assert(built[k].describes(variants@[k]));
                        }
                    }
                    match position_of(idents_of(built), ident) {
                        Some(k) => {
                            lemma_position_of(idents_of(built), ident);
                            assert(arms[k].describes(variants@[k]));
                            assert(built[k].describes(variants@[k]));
                            lemma_described_fields(built[k].fields, variants@[k].fields);
                            lemma_field_defs_bounded(variants@[k].fields);
                            lemma_arms_select(variants@[k].fields.field_defs(), id);
                        },
                        None => {},
                    }
                }
            }
        },
        _ => {},
    }
}

/// A set of declared fields holds no more fields than a vector can.
proof fn lemma_field_defs_bounded(def: FieldsDef)
    ensures
        def.field_defs().len() <= usize::MAX,
{
    match def {
        FieldsDef::Named(fields) => {
            assert(fields@.len() == fields.len());
        },
        FieldsDef::Unnamed(fields) => {
            assert(fields@.len() == fields.len());
        },
        FieldsDef::Unit => {},
    }
}

/// The description of a set of declared fields lists the descriptions of those fields.
pub proof fn lemma_described_fields(built: Fields, def: FieldsDef)
    requires
        built.describes(def),
    ensures
        built.field_seq() =~= fields_built(def.field_defs()),
{
}

/// The accessors derived for the fields of a `struct` agree with the description of those
/// fields.
proof fn lemma_fields_agree(
    body: Option<FieldFnBody>,
    built: Fields,
    def: FieldsDef,
    variant: Option<Seq<char>>,
    id: FieldIdView,
)
    requires
        fields_body_described(body, def.field_defs()),
        built.describes(def),
    ensures
        body_select(body, variant, id) == position_of(ids_of(built.field_seq()), id),
{
    lemma_described_fields(built, def);
    lemma_field_defs_bounded(def);
    lemma_arms_select(def.field_defs(), id);
}

/// The derived `variant` accessor names each variant as the type information does.
///
/// It has one arm for each variant in the type information, in the same order, and the arm
/// hands out the identifier of that variant. For a type without variants it is left as the
/// trait provides it.
pub proof fn lemma_variant_fn_names(ty: Type, def: TypeDef)
    requires
        ty.data.describes(def.data),
    ensures
        match variant_fn_built(def.data) {
            Some(names) => {
                &&& names.len() == ty.variant_seq().len()
                &&& forall|k: int|
                    0 <= k < names.len() ==> (#[trigger] names[k]).ident == ty.variant_seq()[k].ident
            },
            None => ty.variant_seq().len() == 0,
        },
{
    match (ty.data, def.data) {
        (Data::Enum(data), DataDef::Enum(variants)) => {
            if variants@.len() > 0 {
                let names = variant_fn_built(def.data)->0;
                assert forall|k: int| 0 <= k < names.len() implies (#[trigger] names[k]).ident
                    == ty.variant_seq()[k].ident by {
                    assert(data.variants@[k].describes(variants@[k]));
                }
            }
        },
        _ => {},
    }
}

} // verus!
