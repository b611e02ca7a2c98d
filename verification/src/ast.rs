use vstd::prelude::*;

verus! {

/// One type expression from the source declaration tree: a named type with
/// optional generic arguments, a fixed-size tuple, or any other shape, which
/// the translator does not support and renders as empty text.
pub enum TypeExpression {
    Named { name: String, args: Vec<TypeExpression> },
    Tuple { elements: Vec<TypeExpression> },
    Unsupported,
}

/// One named field of a struct or of an enum variant. The source grammar
/// allows a field in named position whose identifier is absent; such a field
/// is skipped by the translators.
pub struct NamedField {
    pub name: Option<String>,
    pub ty: TypeExpression,
}

/// The fields of a struct declaration: named fields, positional (tuple-like)
/// fields, or no fields at all.
pub enum FieldList {
    Named(Vec<NamedField>),
    Positional(Vec<TypeExpression>),
    Unit,
}

/// The payload carried by one enum variant: named fields, exactly one
/// unnamed value, or no value.
pub enum VariantPayload {
    Named(Vec<NamedField>),
    SingleUnnamed(TypeExpression),
    Unit,
}

/// One variant of an enum declaration.
pub struct Variant {
    pub name: String,
    pub payload: VariantPayload,
}

/// A type alias declaration: one name bound to one type expression.
pub struct TypeAlias {
    pub name: String,
    pub target: TypeExpression,
}

/// A struct declaration: one name bound to a list of fields.
pub struct Struct {
    pub name: String,
    pub fields: FieldList,
}

/// An enum declaration: one name bound to an ordered list of variants.
pub struct Enum {
    pub name: String,
    pub variants: Vec<Variant>,
}

/// One top-level item of a parsed source file. Only aliases, structs and
/// enums are translated; every other declaration kind is `Other` and
/// produces no output.
pub enum Item {
    Type(TypeAlias),
    Struct(Struct),
    Enum(Enum),
    Other,
}

/// A parsed source file: the ordered top-level items.
pub struct SourceFile {
    pub items: Vec<Item>,
}

} // verus!
