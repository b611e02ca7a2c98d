use typester::ast::{Enum, FieldList, Item, NamedField, SourceFile, Struct, TypeAlias,
    TypeExpression, Variant, VariantPayload};
use typester::decimal::usize_to_decimal;
use typester::primitive::parse_type_ident;
use typester::type_expr::parse_type;
use typester::unsupported::{file_has_unsupported, translate_with_policy, OnUnsupported};
use typester::walker::{create_initial_types, parse_file, translate};

fn named(name: &str) -> TypeExpression {
    TypeExpression::Named { name: name.to_string(), args: Vec::new() }
}

fn generic(name: &str, args: Vec<TypeExpression>) -> TypeExpression {
    TypeExpression::Named { name: name.to_string(), args }
}

fn mixed_file() -> SourceFile {
    SourceFile {
        items: vec![
            Item::Type(TypeAlias { name: "Id".to_string(), target: named("u64") }),
            Item::Struct(Struct {
                name: "Point".to_string(),
                fields: FieldList::Named(vec![
                    NamedField { name: Some("x".to_string()), ty: named("i64") },
                    NamedField { name: Some("y".to_string()), ty: named("i64") },
                ]),
            }),
            Item::Enum(Enum {
                name: "Move".to_string(),
                variants: vec![Variant {
                    name: "To".to_string(),
                    payload: VariantPayload::SingleUnnamed(named("Point")),
                }],
            }),
        ],
    }
}

#[test]
fn prelude_is_fixed_text() {
    let first = create_initial_types();
    let second = create_initial_types();
    assert_eq!(first, second);
    assert_eq!(
        "type HashSet<T extends number | string> = Record<T, undefined>;\
         type HashMap<T extends number | string, U> = Record<T, U>;\
         type Vec<T> = Array<T>;\
         type Option<T> = T | undefined;\
         type Result<T, U> = T | U;",
        &first
    );
}

#[test]
fn translation_is_deterministic() {
    let file = mixed_file();
    let first = translate(&file);
    let second = translate(&file);
    assert_eq!(first.as_bytes(), second.as_bytes());
}

#[test]
fn items_keep_source_order() {
    let file = mixed_file();
    let whole = parse_file(&file);
    let mut one_by_one = String::new();
    for item in &file.items {
        let alone = SourceFile { items: vec![clone_item(item)] };
        one_by_one.push_str(&parse_file(&alone));
    }
    assert_eq!(whole, one_by_one);
    let alias_at = whole.find("export type Id").unwrap();
    let struct_at = whole.find("export interface Point").unwrap();
    let enum_at = whole.find("export type Move").unwrap();
    assert!(alias_at < struct_at && struct_at < enum_at);
}

fn clone_item(item: &Item) -> Item {
    match item {
        Item::Type(a) => Item::Type(TypeAlias {
            name: a.name.clone(),
            target: clone_type(&a.target),
        }),
        Item::Struct(s) => Item::Struct(Struct {
            name: s.name.clone(),
            fields: match &s.fields {
                FieldList::Named(fs) => FieldList::Named(
                    fs.iter()
                        .map(|f| NamedField { name: f.name.clone(), ty: clone_type(&f.ty) })
                        .collect(),
                ),
                FieldList::Positional(ts) => {
                    FieldList::Positional(ts.iter().map(clone_type).collect())
                }
                FieldList::Unit => FieldList::Unit,
            },
        }),
        Item::Enum(e) => Item::Enum(Enum {
            name: e.name.clone(),
            variants: e
                .variants
                .iter()
                .map(|v| Variant {
                    name: v.name.clone(),
                    payload: match &v.payload {
                        VariantPayload::Named(fs) => VariantPayload::Named(
                            fs.iter()
                                .map(|f| NamedField {
                                    name: f.name.clone(),
                                    ty: clone_type(&f.ty),
                                })
                                .collect(),
                        ),
                        VariantPayload::SingleUnnamed(t) => {
                            VariantPayload::SingleUnnamed(clone_type(t))
                        }
                        VariantPayload::Unit => VariantPayload::Unit,
                    },
                })
                .collect(),
        }),
        Item::Other => Item::Other,
    }
}

fn clone_type(t: &TypeExpression) -> TypeExpression {
    match t {
        TypeExpression::Named { name, args } => TypeExpression::Named {
            name: name.clone(),
            args: args.iter().map(clone_type).collect(),
        },
        TypeExpression::Tuple { elements } => TypeExpression::Tuple {
            elements: elements.iter().map(clone_type).collect(),
        },
        TypeExpression::Unsupported => TypeExpression::Unsupported,
    }
}

#[test]
fn primitive_table_is_total() {
    for name in [
        "i8", "i16", "i32", "i64", "i128", "u8", "u16", "u32", "u64", "u128", "f32", "f64",
        "isize", "usize",
    ] {
        assert_eq!("number", parse_type_ident(name));
    }
    for name in ["str", "String", "char"] {
        assert_eq!("string", parse_type_ident(name));
    }
    assert_eq!("boolean", parse_type_ident("bool"));
    assert_eq!("Person", parse_type_ident("Person"));
    assert_eq!("HashMap", parse_type_ident("HashMap"));
    assert_eq!("", parse_type_ident(""));
}

#[test]
fn generic_arguments_keep_trailing_comma() {
    let t = generic("HashMap", vec![named("String"), named("Colour")]);
    assert_eq!("HashMap<string,Colour,>", &parse_type(&t));
}

#[test]
fn nested_generics_recurse() {
    let t = generic("Vec", vec![generic("Vec", vec![named("i32")])]);
    assert_eq!("Vec<Vec<number,>,>", &parse_type(&t));
}

#[test]
fn tuple_renders_in_brackets() {
    let t = TypeExpression::Tuple { elements: vec![named("i32"), named("i32")] };
    assert_eq!("[number,number,]", &parse_type(&t));
}

#[test]
fn unsupported_inside_generic_is_empty() {
    let t = generic("Vec", vec![TypeExpression::Unsupported]);
    assert_eq!("Vec<,>", &parse_type(&t));
}

#[test]
fn decimal_rendering() {
    assert_eq!("0", &usize_to_decimal(0));
    assert_eq!("7", &usize_to_decimal(7));
    assert_eq!("10", &usize_to_decimal(10));
    assert_eq!("12345", &usize_to_decimal(12345));
}

#[test]
fn translate_prepends_prelude() {
    let file = mixed_file();
    let whole = translate(&file);
    let prelude = create_initial_types();
    let body = parse_file(&file);
    assert!(whole.starts_with(&prelude));
    assert_eq!(whole, format!("{}{}", prelude, body));
}

#[test]
fn abort_policy_refuses_unsupported() {
    let file = SourceFile {
        items: vec![Item::Type(TypeAlias {
            name: "Bad".to_string(),
            target: TypeExpression::Unsupported,
        })],
    };
    assert!(file_has_unsupported(&file));
    assert!(translate_with_policy(&file, OnUnsupported::Abort).is_none());
    let skipped = translate_with_policy(&file, OnUnsupported::Skip).unwrap();
    assert_eq!(skipped, translate(&file));
}

#[test]
fn abort_policy_accepts_clean_file() {
    let file = mixed_file();
    assert!(!file_has_unsupported(&file));
    let text = translate_with_policy(&file, OnUnsupported::Abort).unwrap();
    assert_eq!(text, translate(&file));
}

#[test]
fn other_item_counts_as_unsupported() {
    let file = SourceFile { items: vec![Item::Other] };
    assert!(file_has_unsupported(&file));
    let nameless = SourceFile {
        items: vec![Item::Struct(Struct {
            name: "Odd".to_string(),
            fields: FieldList::Named(vec![NamedField { name: None, ty: named("i32") }]),
        })],
    };
    assert!(file_has_unsupported(&nameless));
}
