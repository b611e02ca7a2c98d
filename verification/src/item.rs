use vstd::prelude::*;
use vstd::string::StringExecFns;
use crate::ast::{Enum, FieldList, NamedField, Struct, TypeAlias, TypeExpression, Variant,
    VariantPayload};
use crate::decimal::{spec_decimal, usize_to_decimal};
use crate::type_expr::{parse_type, spec_parse_type};

verus! {

/// The target text for one named field: `name:type;`. A field whose
/// identifier is structurally absent is skipped and contributes no output.
pub open spec fn spec_named_field(f: NamedField) -> Seq<char> {
    match f.name {
        Some(n) => n@ + ":"@ + spec_parse_type(f.ty) + ";"@,
        None => Seq::empty(),
    }
}

/// The target text for a list of named fields, in declared order.
pub open spec fn spec_named_fields(fields: Seq<NamedField>) -> Seq<char>
    decreases fields,
{
    if fields.len() == 0 {
        Seq::empty()
    } else {
        spec_named_fields(fields.drop_last()) + spec_named_field(fields.last())
    }
}

/// The target text for positional fields: each becomes `i:type;` keyed by
/// its 0-based position rendered in decimal.
pub open spec fn spec_positional_fields(fields: Seq<TypeExpression>) -> Seq<char>
    decreases fields,
{
    if fields.len() == 0 {
        Seq::empty()
    } else {
        spec_positional_fields(fields.drop_last()) + spec_decimal((fields.len() - 1) as nat)
            + ":"@ + spec_parse_type(fields.last()) + ";"@
    }
}

/// The target text for the field list of a struct.
pub open spec fn spec_field_list(fields: FieldList) -> Seq<char> {
    match fields {
        FieldList::Named(fs) => spec_named_fields(fs@),
        FieldList::Positional(ts) => spec_positional_fields(ts@),
        FieldList::Unit => Seq::empty(),
    }
}

/// The target text for a struct declaration: a structural interface.
pub open spec fn spec_parse_item_struct(s: Struct) -> Seq<char> {
    "export interface "@ + s.name@ + " {"@ + spec_field_list(s.fields) + "};"@
}

/// The target text for one variant's payload: named fields in braces, the
/// single unnamed value's type, or the literal `undefined` for a variant
/// with no payload.
pub open spec fn spec_variant_payload(p: VariantPayload) -> Seq<char> {
    match p {
        VariantPayload::Named(fs) => "{"@ + spec_named_fields(fs@) + "}"@,
        VariantPayload::SingleUnnamed(t) => spec_parse_type(t),
        VariantPayload::Unit => "undefined"@,
    }
}

/// The target text for one union member under the fixed adjacently-tagged
/// encoding: discriminant field `t`, payload field `c`. Every member,
/// the first included, is preceded by the ` | ` separator.
pub open spec fn spec_variant(v: Variant) -> Seq<char> {
    " | { t: \""@ + v.name@ + "\" , c: "@ + spec_variant_payload(v.payload) + "}"@
}

/// The target text for a list of variants, in declared order.
pub open spec fn spec_variants(vs: Seq<Variant>) -> Seq<char>
    decreases vs,
{
    if vs.len() == 0 {
        Seq::empty()
    } else {
        spec_variants(vs.drop_last()) + spec_variant(vs.last())
    }
}

/// The target text for an enum declaration: a discriminated union.
pub open spec fn spec_parse_item_enum(e: Enum) -> Seq<char> {
    "export type "@ + e.name@ + " = "@ + spec_variants(e.variants@) + ";"@
}

/// The target text for a type alias declaration.
pub open spec fn spec_parse_item_type(a: TypeAlias) -> Seq<char> {
    "export type "@ + a.name@ + " = "@ + spec_parse_type(a.target) + ";"@
}

/// Renders a list of named fields, skipping any field without a name.
fn parse_named_fields(fields: &Vec<NamedField>) -> (r: String)
    ensures
        r@ == spec_named_fields(fields@),
{
    let mut out = String::new();
    let mut i: usize = 0;
    proof {
        assert(fields@.take(0) =~= Seq::<NamedField>::empty());
    }
    while i < fields.len()
        invariant
            i <= fields@.len(),
            out@ == spec_named_fields(fields@.take(i as int)),
        decreases fields@.len() - i,
    {
        match &fields[i].name {
            Some(n) => {
                out.append(n.as_str());
                out.append(":");
                let ty_text = parse_type(&fields[i].ty);
                out.append(ty_text.as_str());
                out.append(";");
            },
            None => {},
        }
        proof {
            assert(fields@.take(i as int + 1).drop_last() =~= fields@.take(i as int));
            assert(fields@.take(i as int + 1).last() == fields@[i as int]);
            assert(out@ =~= spec_named_fields(fields@.take(i as int + 1)));
        }
        i += 1;
    }
    proof {
        assert(fields@.take(fields@.len() as int) =~= fields@);
    }
    out
}

/// Renders positional fields, keyed by their stringified 0-based position.
fn parse_positional_fields(fields: &Vec<TypeExpression>) -> (r: String)
    ensures
        r@ == spec_positional_fields(fields@),
{
    let mut out = String::new();
    let mut i: usize = 0;
    proof {
        assert(fields@.take(0) =~= Seq::<TypeExpression>::empty());
    }
    while i < fields.len()
        invariant
            i <= fields@.len(),
            out@ == spec_positional_fields(fields@.take(i as int)),
        decreases fields@.len() - i,
    {
        let index_text = usize_to_decimal(i);
        out.append(index_text.as_str());
        out.append(":");
        let ty_text = parse_type(&fields[i]);
        out.append(ty_text.as_str());
        out.append(";");
        proof {
            assert(fields@.take(i as int + 1).drop_last() =~= fields@.take(i as int));
            assert(fields@.take(i as int + 1).last() == fields@[i as int]);
            assert(out@ =~= spec_positional_fields(fields@.take(i as int + 1)));
        }
        i += 1;
    }
    proof {
        assert(fields@.take(fields@.len() as int) =~= fields@);
    }
    out
}

/// Converts a struct of the source tree to a structural interface of the
/// target language.
pub fn parse_item_struct(item_struct: &Struct) -> (r: String)
    ensures
        r@ == spec_parse_item_struct(*item_struct),
{
    let mut out = "export interface ".to_owned();
    out.append(item_struct.name.as_str());
    out.append(" {");
    match &item_struct.fields {
        FieldList::Named(fs) => {
            let fields_text = parse_named_fields(fs);
            out.append(fields_text.as_str());
        },
        FieldList::Positional(ts) => {
            let fields_text = parse_positional_fields(ts);
            out.append(fields_text.as_str());
        },
        FieldList::Unit => {},
    }
    out.append("};");
    proof {
        assert(out@ =~= spec_parse_item_struct(*item_struct));
    }
    out
}

/// Converts an enum of the source tree to a discriminated union of the
/// target language, under the fixed adjacently-tagged encoding.
pub fn parse_item_enum(item_enum: &Enum) -> (r: String)
    ensures
        r@ == spec_parse_item_enum(*item_enum),
{
    let mut out = "export type ".to_owned();
    out.append(item_enum.name.as_str());
    out.append(" = ");
    let mut i: usize = 0;
    proof {
        assert(item_enum.variants@.take(0) =~= Seq::<Variant>::empty());
        assert(out@ =~= "export type "@ + item_enum.name@ + " = "@ + spec_variants(
            item_enum.variants@.take(0),
        ));
    }
    while i < item_enum.variants.len()
        invariant
            i <= item_enum.variants@.len(),
            out@ == "export type "@ + item_enum.name@ + " = "@ + spec_variants(
                item_enum.variants@.take(i as int),
            ),
        decreases item_enum.variants@.len() - i,
    {
        out.append(" | { t: \"");
        out.append(item_enum.variants[i].name.as_str());
        out.append("\" , c: ");
        match &item_enum.variants[i].payload {
            VariantPayload::Named(fs) => {
                out.append("{");
                let fields_text = parse_named_fields(fs);
                out.append(fields_text.as_str());
                out.append("}");
            },
            VariantPayload::SingleUnnamed(t) => {
                let ty_text = parse_type(t);
                out.append(ty_text.as_str());
            },
            VariantPayload::Unit => {
                out.append("undefined");
            },
        }
        out.append("}");
        proof {
            assert(item_enum.variants@.take(i as int + 1).drop_last() =~= item_enum.variants@.take(
                i as int,
            ));
            assert(item_enum.variants@.take(i as int + 1).last() == item_enum.variants@[i as int]);
            assert(out@ =~= "export type "@ + item_enum.name@ + " = "@ + spec_variants(
                item_enum.variants@.take(i as int + 1),
            ));
        }
        i += 1;
    }
    out.append(";");
    proof {
        assert(item_enum.variants@.take(item_enum.variants@.len() as int)
            =~= item_enum.variants@);
        assert(out@ =~= spec_parse_item_enum(*item_enum));
    }
    out
}

/// Converts a type alias of the source tree to a target type alias.
pub fn parse_item_type(item_type: &TypeAlias) -> (r: String)
    ensures
        r@ == spec_parse_item_type(*item_type),
{
    let mut out = "export type ".to_owned();
    out.append(item_type.name.as_str());
    out.append(" = ");
    let ty_text = parse_type(&item_type.target);
    out.append(ty_text.as_str());
    out.append(";");
    out
}

} // verus!
