use vstd::prelude::*;
use vstd::string::StringExecFns;
use crate::ast::{Item, SourceFile};
use crate::item::{parse_item_enum, parse_item_struct, parse_item_type, spec_parse_item_enum,
    spec_parse_item_struct, spec_parse_item_type};

verus! {

/// The contribution of one top-level item to the output: aliases, structs
/// and enums translate; every other item kind contributes nothing.
pub open spec fn spec_parse_item(item: Item) -> Seq<char> {
    match item {
        Item::Type(a) => spec_parse_item_type(a),
        Item::Struct(s) => spec_parse_item_struct(s),
        Item::Enum(e) => spec_parse_item_enum(e),
        Item::Other => Seq::empty(),
    }
}

/// The translations of the top-level items, concatenated in source order
/// with no separators beyond what each item's own text carries.
pub open spec fn spec_parse_file(items: Seq<Item>) -> Seq<char>
    decreases items,
{
    if items.len() == 0 {
        Seq::empty()
    } else {
        spec_parse_file(items.drop_last()) + spec_parse_item(items.last())
    }
}

/// The fixed prelude: target-language aliases that give meaning to the
/// source language's set, map, sequence, optional and result containers.
pub open spec fn spec_initial_types() -> Seq<char> {
    "type HashSet<T extends number | string> = Record<T, undefined>;"@
        + "type HashMap<T extends number | string, U> = Record<T, U>;"@
        + "type Vec<T> = Array<T>;"@ + "type Option<T> = T | undefined;"@
        + "type Result<T, U> = T | U;"@
}

/// The whole output for one source file: the prelude, then the translated
/// items in source order.
pub open spec fn spec_translate(items: Seq<Item>) -> Seq<char> {
    spec_initial_types() + spec_parse_file(items)
}

/// Walks the top-level items of a parsed source file and concatenates each
/// item's translation, in source order; unsupported item kinds are skipped.
pub fn parse_file(file: &SourceFile) -> (r: String)
    ensures
        r@ == spec_parse_file(file.items@),
{
    let mut out = String::new();
    let mut i: usize = 0;
    proof {
        assert(file.items@.take(0) =~= Seq::<Item>::empty());
    }
    while i < file.items.len()
        invariant
            i <= file.items@.len(),
            out@ == spec_parse_file(file.items@.take(i as int)),
        decreases file.items@.len() - i,
    {
        match &file.items[i] {
            Item::Type(item_type) => {
                let text = parse_item_type(item_type);
                out.append(text.as_str());
            },
            Item::Enum(item_enum) => {
                let text = parse_item_enum(item_enum);
                out.append(text.as_str());
            },
            Item::Struct(item_struct) => {
                let text = parse_item_struct(item_struct);
                out.append(text.as_str());
            },
            Item::Other => {},
        }
        proof {
            assert(file.items@.take(i as int + 1).drop_last() =~= file.items@.take(i as int));
            assert(file.items@.take(i as int + 1).last() == file.items@[i as int]);
            assert(out@ =~= spec_parse_file(file.items@.take(i as int + 1)));
        }
        i += 1;
    }
    proof {
        assert(file.items@.take(file.items@.len() as int) =~= file.items@);
    }
    out
}

/// Emits the fixed prelude block; it takes no input and always returns the
/// same text.
pub fn create_initial_types() -> (r: String)
    ensures
        r@ == spec_initial_types(),
{
    let mut out = "type HashSet<T extends number | string> = Record<T, undefined>;".to_owned();
    out.append("type HashMap<T extends number | string, U> = Record<T, U>;");
    out.append("type Vec<T> = Array<T>;");
    out.append("type Option<T> = T | undefined;");
    out.append("type Result<T, U> = T | U;");
    out
}

/// Translates a whole parsed source file: the fixed prelude, then every
/// supported top-level item in source order.
pub fn translate(file: &SourceFile) -> (r: String)
    ensures
        r@ == spec_translate(file.items@),
{
    let mut out = create_initial_types();
    let body = parse_file(file);
    out.append(body.as_str());
    out
}

/// Law: the prelude never depends on input: any two emissions of it are
/// identical text.
pub proof fn lemma_prelude_idempotent(first: Seq<char>, second: Seq<char>)
    requires
        first == spec_initial_types(),
        second == spec_initial_types(),
    ensures
        first == second,
{
}

/// Law: translation is deterministic: any two outputs produced for the same
/// declaration tree are byte-identical.
pub proof fn lemma_translate_deterministic(items: Seq<Item>, first: Seq<char>, second: Seq<char>)
    requires
        first == spec_translate(items),
        second == spec_translate(items),
    ensures
        first == second,
{
}

/// Law: order preservation: the translation of a file splits at any point
/// into the translation of the leading items followed by the translation of
/// the remaining items, so no item's text is reordered past another's.
pub proof fn lemma_file_order(first: Seq<Item>, rest: Seq<Item>)
    ensures
        spec_parse_file(first + rest) == spec_parse_file(first) + spec_parse_file(rest),
    decreases rest,
{
    if rest.len() == 0 {
        assert(first + rest =~= first);
        assert(spec_parse_file(first) + spec_parse_file(rest) =~= spec_parse_file(first));
    } else {
        lemma_file_order(first, rest.drop_last());
        assert((first + rest).drop_last() =~= first + rest.drop_last());
        assert((first + rest).last() == rest.last());
        assert(spec_parse_file(first) + spec_parse_file(rest) =~= spec_parse_file(first)
            + spec_parse_file(rest.drop_last()) + spec_parse_item(rest.last()));
    }
}

/// Law: an input with three items renders as the first item's translation,
/// then the second's, then the third's, whatever kinds they are.
pub proof fn lemma_three_items_in_order(a: Item, b: Item, c: Item)
    ensures
        spec_parse_file(seq![a, b, c]) == spec_parse_item(a) + spec_parse_item(b)
            + spec_parse_item(c),
{
    assert(seq![a, b, c].drop_last() =~= seq![a, b]);
    assert(seq![a, b].drop_last() =~= seq![a]);
    assert(seq![a].drop_last() =~= Seq::<Item>::empty());
    assert(seq![a, b, c].last() == c && seq![a, b].last() == b && seq![a].last() == a);
    assert(spec_parse_file(Seq::<Item>::empty()) == Seq::<char>::empty());
    assert(spec_parse_file(seq![a]) =~= spec_parse_item(a));
    assert(spec_parse_file(seq![a, b]) =~= spec_parse_item(a) + spec_parse_item(b));
    assert(spec_parse_file(seq![a, b, c]) =~= spec_parse_item(a) + spec_parse_item(b)
        + spec_parse_item(c));
}

} // verus!
