use vstd::prelude::*;
use crate::ast::{FieldList, Item, NamedField, SourceFile, TypeExpression, Variant,
    VariantPayload};
use crate::walker::{spec_translate, translate};

verus! {

/// Whether a type expression holds an unsupported shape anywhere, itself
/// included.
pub open spec fn spec_type_unsupported(t: TypeExpression) -> bool
    decreases t,
{
    match t {
        TypeExpression::Named { name: _, args } => spec_any_type_unsupported(args@),
        TypeExpression::Tuple { elements } => spec_any_type_unsupported(elements@),
        TypeExpression::Unsupported => true,
    }
}

/// Whether any expression of the list holds an unsupported shape.
pub open spec fn spec_any_type_unsupported(ts: Seq<TypeExpression>) -> bool
    decreases ts,
{
    if ts.len() == 0 {
        false
    } else {
        spec_any_type_unsupported(ts.drop_last()) || spec_type_unsupported(ts.last())
    }
}

/// Whether a named field is skipped in part or in whole: its identifier is
/// absent, or its type holds an unsupported shape.
pub open spec fn spec_named_field_unsupported(f: NamedField) -> bool {
    f.name is None || spec_type_unsupported(f.ty)
}

/// Whether any field of the list raises the unsupported-construct signal.
pub open spec fn spec_any_named_field_unsupported(fs: Seq<NamedField>) -> bool
    decreases fs,
{
    if fs.len() == 0 {
        false
    } else {
        spec_any_named_field_unsupported(fs.drop_last()) || spec_named_field_unsupported(fs.last())
    }
}

/// Whether a struct's field list raises the unsupported-construct signal.
pub open spec fn spec_field_list_unsupported(fields: FieldList) -> bool {
    match fields {
        FieldList::Named(fs) => spec_any_named_field_unsupported(fs@),
        FieldList::Positional(ts) => spec_any_type_unsupported(ts@),
        FieldList::Unit => false,
    }
}

/// Whether a variant's payload raises the unsupported-construct signal.
pub open spec fn spec_variant_unsupported(v: Variant) -> bool {
    match v.payload {
        VariantPayload::Named(fs) => spec_any_named_field_unsupported(fs@),
        VariantPayload::SingleUnnamed(t) => spec_type_unsupported(t),
        VariantPayload::Unit => false,
    }
}

/// Whether any variant of the list raises the unsupported-construct signal.
pub open spec fn spec_any_variant_unsupported(vs: Seq<Variant>) -> bool
    decreases vs,
{
    if vs.len() == 0 {
        false
    } else {
        spec_any_variant_unsupported(vs.drop_last()) || spec_variant_unsupported(vs.last())
    }
}

/// Whether a top-level item raises the unsupported-construct signal: it is
/// of an untranslated kind, or some fragment inside it is skipped.
pub open spec fn spec_item_unsupported(item: Item) -> bool {
    match item {
        Item::Type(a) => spec_type_unsupported(a.target),
        Item::Struct(s) => spec_field_list_unsupported(s.fields),
        Item::Enum(e) => spec_any_variant_unsupported(e.variants@),
        Item::Other => true,
    }
}

/// Whether any item of the file raises the unsupported-construct signal.
pub open spec fn spec_any_item_unsupported(items: Seq<Item>) -> bool
    decreases items,
{
    if items.len() == 0 {
        false
    } else {
        spec_any_item_unsupported(items.drop_last()) || spec_item_unsupported(items.last())
    }
}

/// Reports whether any expression of the list holds an unsupported shape.
fn type_list_has_unsupported(ts: &Vec<TypeExpression>) -> (r: bool)
    ensures
        r == spec_any_type_unsupported(ts@),
    decreases ts@,
{
    let mut found = false;
    let mut i: usize = 0;
    proof {
        assert(ts@.take(0) =~= Seq::<TypeExpression>::empty());
    }
    while i < ts.len()
        invariant
            i <= ts@.len(),
            found == spec_any_type_unsupported(ts@.take(i as int)),
        decreases ts@.len() - i,
    {
        let here = type_has_unsupported(&ts[i]);
        found = found || here;
        proof {
            assert(ts@.take(i as int + 1).drop_last() =~= ts@.take(i as int));
            assert(ts@.take(i as int + 1).last() == ts@[i as int]);
        }
        i += 1;
    }
    proof {
        assert(ts@.take(ts@.len() as int) =~= ts@);
    }
    found
}

/// Reports whether a type expression holds an unsupported shape anywhere.
pub fn type_has_unsupported(t: &TypeExpression) -> (r: bool)
    ensures
        r == spec_type_unsupported(*t),
    decreases *t,
{
    match t {
        TypeExpression::Named { name: _, args } => type_list_has_unsupported(args),
        TypeExpression::Tuple { elements } => type_list_has_unsupported(elements),
        TypeExpression::Unsupported => true,
    }
}

/// Reports whether any field of the list raises the signal.
fn named_fields_have_unsupported(fs: &Vec<NamedField>) -> (r: bool)
    ensures
        r == spec_any_named_field_unsupported(fs@),
{
    let mut found = false;
    let mut i: usize = 0;
    proof {
        assert(fs@.take(0) =~= Seq::<NamedField>::empty());
    }
    while i < fs.len()
        invariant
            i <= fs@.len(),
            found == spec_any_named_field_unsupported(fs@.take(i as int)),
        decreases fs@.len() - i,
    {
        let name_missing = match &fs[i].name {
            Some(_) => false,
            None => true,
        };
        let ty_bad = type_has_unsupported(&fs[i].ty);
        found = found || name_missing || ty_bad;
        proof {
            assert(fs@.take(i as int + 1).drop_last() =~= fs@.take(i as int));
            assert(fs@.take(i as int + 1).last() == fs@[i as int]);
        }
        i += 1;
    }
    proof {
        assert(fs@.take(fs@.len() as int) =~= fs@);
    }
    found
}

/// Reports whether any variant of the list raises the signal.
fn variants_have_unsupported(vs: &Vec<Variant>) -> (r: bool)
    ensures
        r == spec_any_variant_unsupported(vs@),
{
    let mut found = false;
    let mut i: usize = 0;
    proof {
        assert(vs@.take(0) =~= Seq::<Variant>::empty());
    }
    while i < vs.len()
        invariant
            i <= vs@.len(),
            found == spec_any_variant_unsupported(vs@.take(i as int)),
        decreases vs@.len() - i,
    {
        let here = match &vs[i].payload {
            VariantPayload::Named(fs) => named_fields_have_unsupported(fs),
            VariantPayload::SingleUnnamed(t) => type_has_unsupported(t),
            VariantPayload::Unit => false,
        };
        found = found || here;
        proof {
            assert(vs@.take(i as int + 1).drop_last() =~= vs@.take(i as int));
            assert(vs@.take(i as int + 1).last() == vs@[i as int]);
        }
        i += 1;
    }
    proof {
        assert(vs@.take(vs@.len() as int) =~= vs@);
    }
    found
}

/// Reports whether translating the file would skip anything: an item of an
/// untranslated kind, a nameless named field, or an unsupported type shape.
pub fn file_has_unsupported(file: &SourceFile) -> (r: bool)
    ensures
        r == spec_any_item_unsupported(file.items@),
{
    let mut found = false;
    let mut i: usize = 0;
    proof {
        assert(file.items@.take(0) =~= Seq::<Item>::empty());
    }
    while i < file.items.len()
        invariant
            i <= file.items@.len(),
            found == spec_any_item_unsupported(file.items@.take(i as int)),
        decreases file.items@.len() - i,
    {
        let here = match &file.items[i] {
            Item::Type(a) => type_has_unsupported(&a.target),
            Item::Struct(s) => match &s.fields {
                FieldList::Named(fs) => named_fields_have_unsupported(fs),
                FieldList::Positional(ts) => type_list_has_unsupported(ts),
                FieldList::Unit => false,
            },
            Item::Enum(e) => variants_have_unsupported(&e.variants),
            Item::Other => true,
        };
        found = found || here;
        proof {
            assert(file.items@.take(i as int + 1).drop_last() =~= file.items@.take(i as int));
            assert(file.items@.take(i as int + 1).last() == file.items@[i as int]);
        }
        i += 1;
    }
    proof {
        assert(file.items@.take(file.items@.len() as int) =~= file.items@);
    }
    found
}

/// What to do when an unsupported fragment is met: skip it, emitting empty
/// text for it, or abort the whole translation.
pub enum OnUnsupported {
    Skip,
    Abort,
}

/// Translates a parsed source file under the chosen policy. With `Skip`,
/// translation always succeeds and unsupported fragments render as empty
/// text. With `Abort`, translation succeeds exactly when the file holds no
/// unsupported fragment; otherwise nothing is returned.
pub fn translate_with_policy(file: &SourceFile, policy: OnUnsupported) -> (r: Option<String>)
    ensures
        r matches Some(text) ==> text@ == spec_translate(file.items@),
        policy is Skip ==> r is Some,
        policy is Abort ==> (r is Some <==> !spec_any_item_unsupported(file.items@)),
{
    match policy {
        OnUnsupported::Skip => Some(translate(file)),
        OnUnsupported::Abort => {
            if file_has_unsupported(file) {
                None
            } else {
                Some(translate(file))
            }
        },
    }
}

} // verus!
