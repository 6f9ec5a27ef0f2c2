//! Resolution of field identifiers against a descriptor.
//!
//! An accessor of a reflected value hands out the storage slot that an identifier names. Which
//! slot that is depends on the descriptor alone and, for an `enum`, on the variant the value
//! inhabits: the identifier is looked up among the fields of that variant and of no other.

use vstd::prelude::*;
use crate::field_id::{same_text, FieldId, FieldIdView};
use crate::meta::{
    distinct_idents, distinct_ids, Data, DataEnum, DataStruct, DataUnion, Field, Fields, Type,
    Variant,
};

verus! {

/// The identifiers that a list of fields carries, in order.
pub open spec fn ids_of(fields: Seq<Field>) -> Seq<FieldIdView> {
    Seq::new(fields.len(), |i: int| fields[i].id@)
}

/// The identifiers of a list of variants, in order.
pub open spec fn idents_of(variants: Seq<Variant>) -> Seq<Seq<char>> {
    Seq::new(variants.len(), |i: int| variants[i].ident@)
}

/// The least position at or after `from` at which `items` holds `item`, if there is one.
pub open spec fn find_from<T>(items: Seq<T>, item: T, from: int) -> Option<int>
    decreases items.len() - from,
{
    if from < 0 || from >= items.len() {
        None
    } else if items[from] == item {
        Some(from)
    } else {
        find_from(items, item, from + 1)
    }
}

/// The least position at which `items` holds `item`, if there is one.
pub open spec fn position_of<T>(items: Seq<T>, item: T) -> Option<int> {
    find_from(items, item, 0)
}

/// An executable position, read as a mathematical one.
pub open spec fn as_index(r: Option<usize>) -> Option<int> {
    match r {
        Some(i) => Some(i as int),
        None => None,
    }
}

/// The name of a variant, if one is given, as a sequence of characters.
pub open spec fn name_view(name: Option<&str>) -> Option<Seq<char>> {
    match name {
        Some(name) => Some(name@),
        None => None,
    }
}

/// A search from `from` finds the first occurrence at or after `from`, and finds nothing only
/// where there is none.
pub proof fn lemma_find_from<T>(items: Seq<T>, item: T, from: int)
    requires
        0 <= from,
    ensures
        match find_from(items, item, from) {
            Some(i) => {
                &&& from <= i < items.len()
                &&& items[i] == item
                &&& forall|j: int| from <= j < i ==> items[j] != item
            },
            None => forall|j: int| from <= j < items.len() ==> items[j] != item,
        },
    decreases items.len() - from,
{
    if from < items.len() && items[from] != item {
        lemma_find_from(items, item, from + 1);
    }
}

/// `position_of` is the first position that holds the item: it lies within the sequence, the
/// item stands there, and it stands at no earlier position. Nothing is found exactly when
/// the item stands nowhere in the sequence.
pub proof fn lemma_position_of<T>(items: Seq<T>, item: T)
    ensures
        match position_of(items, item) {
            Some(i) => {
                &&& 0 <= i < items.len()
                &&& items[i] == item
                &&& forall|j: int| 0 <= j < i ==> items[j] != item
            },
            None => forall|j: int| 0 <= j < items.len() ==> items[j] != item,
        },
{
    lemma_find_from(items, item, 0);
}

impl Fields {
    /// The position, in declaration order, of the field that `id` names, or `None` where no
    /// field of this set carries that identifier.
    pub fn position(&self, id: FieldId) -> (r: Option<usize>)
        ensures
            as_index(r) == position_of(ids_of(self.field_seq()), id@),
    {
        position_in(self.fields(), id)
    }
}

/// The position in `fields` of the first field that carries `id`.
pub fn position_in(fields: &[Field], id: FieldId) -> (r: Option<usize>)
    ensures
        as_index(r) == position_of(ids_of(fields@), id@),
{
    let mut i: usize = 0;
    while i < fields.len()
        invariant
            i <= fields.len(),
            position_of(ids_of(fields@), id@) == find_from(ids_of(fields@), id@, i as int),
        decreases fields.len() - i,
    {
        if fields[i].id == id {
            return Some(i);
        }
        i += 1;
    }
    None
}

impl Type {
    /// The position of the first variant called `ident`, if this is an `enum` that declares one.
    pub open spec fn variant_index(&self, ident: Seq<char>) -> Option<int> {
        position_of(idents_of(self.variant_seq()), ident)
    }

    /// The fields that an identifier is resolved against: those of a `struct` or `union`, or,
    /// for an `enum`, those of the variant called `variant`. Where `variant` names no variant of
    /// the `enum`, and for a primitive, there are none.
    pub open spec fn live_field_seq(&self, variant: Option<Seq<char>>) -> Seq<Field> {
        match self.data {
            Data::Primitive => Seq::empty(),
            Data::Struct(data) => data.fields.field_seq(),
            Data::Union(data) => data.fields.named@,
            Data::Enum(data) => match variant {
                Some(ident) => match self.variant_index(ident) {
                    Some(i) => data.variants@[i].fields.field_seq(),
                    None => Seq::empty(),
                },
                None => Seq::empty(),
            },
        }
    }

    /// The slot that `id` names on a value of this type that inhabits `variant`: the position of
    /// the field among the live fields.
    pub open spec fn slot_of(&self, variant: Option<Seq<char>>, id: FieldIdView) -> Option<int> {
        position_of(ids_of(self.live_field_seq(variant)), id)
    }

    /// Whether some value of this type can have a field that `id` names: the identifier
    /// resolves to a slot of the `struct` or `union`, or of some variant of the `enum`.
    pub open spec fn declares(&self, id: FieldIdView) -> bool {
        exists|variant: Option<Seq<char>>| (#[trigger] self.slot_of(variant, id)) is Some
    }

    /// The position, in declaration order, of the variant called `ident`, or `None` where this
    /// type is no `enum` or declares no such variant.
    pub fn variant_position(&self, ident: &str) -> (r: Option<usize>)
        ensures
            as_index(r) == self.variant_index(ident@),
    {
        let variants = self.variants();
        let mut i: usize = 0;
        while i < variants.len()
            invariant
                i <= variants.len(),
                variants@ == self.variant_seq(),
                self.variant_index(ident@) == find_from(
                    idents_of(variants@),
                    ident@,
                    i as int,
                ),
            decreases variants.len() - i,
        {
            if same_text(variants[i].ident, ident) {
                return Some(i);
            }
            i += 1;
        }
        None
    }

    /// The fields that are live on a value of this type that inhabits `variant`.
    ///
    /// For a `struct` or `union` these are its declared fields, whatever `variant` says. For an
    /// `enum` they are the fields of the variant called `variant`, and of no other.
    pub fn live_fields(&self, variant: Option<&str>) -> (r: &'static [Field])
        ensures
            r@ == self.live_field_seq(name_view(variant)),
    {
        match self.data {
            Data::Primitive => &[],
            Data::Struct(DataStruct { ref fields, .. }) => fields.fields(),
            Data::Union(DataUnion { ref fields, .. }) => fields.named,
            Data::Enum(DataEnum { variants, .. }) => match variant {
                Some(ident) => match self.variant_position(ident) {
                    Some(i) => {
                        proof {
                            lemma_position_of(idents_of(self.variant_seq()), ident@);
                        }
                        variants[i].fields.fields()
                    },
                    None => &[],
                },
                None => &[],
            },
        }
    }

    /// Resolves `id` on a value of this type that inhabits `variant`.
    ///
    /// Returns the position of the field that `id` names among the live fields, or `None` where
    /// none of them carries that identifier. The fields of the variants that the value does not
    /// inhabit are never looked at.
    pub fn resolve(&self, variant: Option<&str>, id: FieldId) -> (r: Option<usize>)
        ensures
            as_index(r) == self.slot_of(name_view(variant), id@),
    {
        position_in(self.live_fields(variant), id)
    }
}

/// An item that stands at exactly one position of a sequence is found at that position.
pub proof fn lemma_position_of_unique<T>(items: Seq<T>, i: int)
    requires
        0 <= i < items.len(),
        forall|j: int| 0 <= j < items.len() && j != i ==> items[j] != items[i],
    ensures
        position_of(items, items[i]) == Some(i),
{
    lemma_position_of(items, items[i]);
}

/// An item that stands nowhere in a sequence is not found.
pub proof fn lemma_position_of_absent<T>(items: Seq<T>, item: T)
    requires
        forall|j: int| 0 <= j < items.len() ==> items[j] != item,
    ensures
        position_of(items, item) is None,
{
    lemma_position_of(items, item);
}

/// The fields of a well-formed set carry identifiers of their own.
pub proof fn lemma_well_formed_distinct(fields: Fields)
    requires
        fields.well_formed(),
    ensures
        distinct_ids(fields.field_seq()),
{
    match fields {
        Fields::Unnamed(unnamed) => {
            assert forall|i: int, j: int| 0 <= i < j < unnamed.unnamed@.len() implies (
            #[trigger] unnamed.unnamed@[i]).id@ != (#[trigger] unnamed.unnamed@[j]).id@ by {
                assert(unnamed.unnamed@[i].is_unnamed_at(i));
                assert(unnamed.unnamed@[j].is_unnamed_at(j));
            }
        },
        _ => {},
    }
}

/// In a well-formed set of fields, the identifier of each field resolves to the position of
/// that field, and an identifier that no field carries resolves to nothing.
pub proof fn lemma_fields_resolve(fields: Fields, id: FieldIdView)
    requires
        fields.well_formed(),
    ensures
        forall|i: int|
            0 <= i < fields.field_seq().len() && (#[trigger] fields.field_seq()[i]).id@ == id
                ==> position_of(ids_of(fields.field_seq()), id) == Some(i),
        (forall|i: int|
            0 <= i < fields.field_seq().len() ==> (#[trigger] fields.field_seq()[i]).id@ != id)
            ==> position_of(ids_of(fields.field_seq()), id) is None,
{
    let seq = fields.field_seq();
    lemma_well_formed_distinct(fields);
    lemma_position_of(ids_of(seq), id);
    assert forall|i: int| 0 <= i < seq.len() && (#[trigger] seq[i]).id@ == id implies position_of(
        ids_of(seq),
        id,
    ) == Some(i) by {
        assert(ids_of(seq)[i] == id);
        let found = position_of(ids_of(seq), id);
        assert(found is Some);
        let k = found->0;
        assert(ids_of(seq)[k] == seq[k].id@);
        if k < i {
            assert(seq[k].id@ != seq[i].id@);
        }
    }
    if forall|i: int| 0 <= i < seq.len() ==> (#[trigger] seq[i]).id@ != id {
        assert forall|j: int| 0 <= j < ids_of(seq).len() implies ids_of(seq)[j] != id by {
            assert(seq[j].id@ != id);
        }
    }
}

/// On a value of a well-formed `struct` type, the identifier of each declared field resolves
/// to that field, whatever variant is asked for, and any other identifier to nothing.
pub proof fn lemma_struct_resolves(ty: Type, variant: Option<Seq<char>>, id: FieldIdView)
    requires
        ty.well_formed(),
        ty.data is Struct,
    ensures
        ty.live_field_seq(variant) == ty.field_seq(),
        forall|i: int|
            0 <= i < ty.field_seq().len() && (#[trigger] ty.field_seq()[i]).id@ == id
                ==> ty.slot_of(variant, id) == Some(i),
        (forall|i: int| 0 <= i < ty.field_seq().len() ==> (#[trigger] ty.field_seq()[i]).id@ != id)
            ==> ty.slot_of(variant, id) is None,
{
    lemma_fields_resolve(ty.data->Struct_0.fields, id);
}

/// On a value of a well-formed `enum` type, an identifier is resolved against the fields of
/// the inhabited variant alone.
///
/// The name of each variant finds that variant. An identifier that the inhabited variant
/// declares resolves to the position of the field in that variant; one that it does not
/// declare resolves to nothing, whether or not another variant declares it.
pub proof fn lemma_enum_resolves(ty: Type, k: int, id: FieldIdView)
    requires
        ty.well_formed(),
        ty.data is Enum,
        0 <= k < ty.variant_seq().len(),
    ensures
        ty.variant_index(ty.variant_seq()[k].ident@) == Some(k),
        ty.live_field_seq(Some(ty.variant_seq()[k].ident@)) == ty.variant_seq()[k].fields.field_seq(),
        forall|i: int|
            0 <= i < ty.variant_seq()[k].fields.field_seq().len() && (
            #[trigger] ty.variant_seq()[k].fields.field_seq()[i]).id@ == id ==> ty.slot_of(
                Some(ty.variant_seq()[k].ident@),
                id,
            ) == Some(i),
        (forall|i: int|
            0 <= i < ty.variant_seq()[k].fields.field_seq().len() ==> (
            #[trigger] ty.variant_seq()[k].fields.field_seq()[i]).id@ != id) ==> ty.slot_of(
            Some(ty.variant_seq()[k].ident@),
            id,
        ) is None,
{
    let variants = ty.variant_seq();
    assert(distinct_idents(variants));
    assert forall|j: int| 0 <= j < idents_of(variants).len() && j != k implies idents_of(
        variants,
    )[j] != idents_of(variants)[k] by {
        if j < k {
            assert(variants[j].ident@ != variants[k].ident@);
        } else {
            assert(variants[k].ident@ != variants[j].ident@);
        }
    }
    lemma_position_of_unique(idents_of(variants), k);
    assert(variants[k].well_formed());
    lemma_fields_resolve(variants[k].fields, id);
}

/// On a value without live fields no identifier resolves to anything. This holds of every
/// primitive, of a `struct` without fields, of an `enum` variant without fields, and of an
/// `enum` that is asked for a variant it does not declare.
pub proof fn lemma_no_fields_resolve_nothing(ty: Type, variant: Option<Seq<char>>, id: FieldIdView)
    requires
        ty.live_field_seq(variant).len() == 0,
    ensures
        ty.slot_of(variant, id) is None,
{
}

/// A unit `struct` has no fields, and no identifier resolves to anything on it: not the first
/// position either, nor any name.
pub proof fn lemma_unit_struct(ty: Type, variant: Option<Seq<char>>, id: FieldIdView)
    requires
        ty.data == Data::Struct(DataStruct { fields: Fields::Unit }),
    ensures
        ty.well_formed(),
        ty.field_seq().len() == 0,
        ty.slot_of(variant, id) is None,
        !ty.declares(id),
{
    assert forall|other: Option<Seq<char>>| (#[trigger] ty.slot_of(other, id)) is None by {
        lemma_no_fields_resolve_nothing(ty, other, id);
    }
}

} // verus!
