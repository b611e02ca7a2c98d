use vstd::prelude::*;
use vstd::string::StrSliceExecFns;

verus! {

/// The source names of the fixed-width and pointer-sized numeric types,
/// all of which translate to the target's one `number` type.
pub open spec fn is_number_name(name: Seq<char>) -> bool {
    ||| name == "i8"@
    ||| name == "i16"@
    ||| name == "i32"@
    ||| name == "i64"@
    ||| name == "i128"@
    ||| name == "u8"@
    ||| name == "u16"@
    ||| name == "u32"@
    ||| name == "u64"@
    ||| name == "u128"@
    ||| name == "f32"@
    ||| name == "f64"@
    ||| name == "isize"@
    ||| name == "usize"@
}

/// The source names of the textual types, all of which translate to the
/// target's `string` type.
pub open spec fn is_string_name(name: Seq<char>) -> bool {
    ||| name == "str"@
    ||| name == "String"@
    ||| name == "char"@
}

/// The source name of the boolean type, which translates to `boolean`.
pub open spec fn is_boolean_name(name: Seq<char>) -> bool {
    name == "bool"@
}

/// A name covered by the fixed primitive table.
pub open spec fn is_primitive_name(name: Seq<char>) -> bool {
    is_number_name(name) || is_string_name(name) || is_boolean_name(name)
}

/// The fixed primitive table: numeric names map to `number`, textual names
/// to `string`, the boolean name to `boolean`; any other name is returned
/// unchanged.
pub open spec fn spec_parse_type_ident(name: Seq<char>) -> Seq<char> {
    if is_number_name(name) {
        "number"@
    } else if is_string_name(name) {
        "string"@
    } else if is_boolean_name(name) {
        "boolean"@
    } else {
        name
    }
}

/// Character-by-character string equality.
fn str_eq(a: &str, b: &str) -> (r: bool)
    ensures
        r == (a@ == b@),
{
    let a_len = a.unicode_len();
    let b_len = b.unicode_len();
    if a_len != b_len {
        return false;
    }
    let mut i: usize = 0;
    while i < a_len
        invariant
            a_len == a@.len(),
            a_len == b@.len(),
            i <= a_len,
            forall|j: int| 0 <= j < i ==> a@[j] == b@[j],
        decreases a_len - i,
    {
        if a.get_char(i) != b.get_char(i) {
            return false;
        }
        i += 1;
    }
    proof {
        assert(a@ =~= b@);
    }
    true
}

/// Translates a primitive source type name to the equivalent target type
/// name, and returns any name outside the fixed table unchanged.
pub fn parse_type_ident<'a>(ident: &'a str) -> (r: &'a str)
    ensures
        r@ == spec_parse_type_ident(ident@),
{
    if str_eq(ident, "i8") || str_eq(ident, "i16") || str_eq(ident, "i32")
        || str_eq(ident, "i64") || str_eq(ident, "i128") || str_eq(ident, "u8")
        || str_eq(ident, "u16") || str_eq(ident, "u32") || str_eq(ident, "u64")
        || str_eq(ident, "u128") || str_eq(ident, "f32") || str_eq(ident, "f64")
        || str_eq(ident, "isize") || str_eq(ident, "usize") {
        "number"
    } else if str_eq(ident, "str") || str_eq(ident, "String") || str_eq(ident, "char") {
        "string"
    } else if str_eq(ident, "bool") {
        "boolean"
    } else {
        ident
    }
}

/// Law: every name of the fixed primitive table maps to exactly one of
/// `number`, `string` and `boolean`, and every name outside the table maps
/// to itself unchanged.
pub proof fn lemma_primitive_mapping(name: Seq<char>)
    ensures
        spec_parse_type_ident(name) == "number"@ || spec_parse_type_ident(name) == "string"@
            || spec_parse_type_ident(name) == "boolean"@ || spec_parse_type_ident(name) == name,
        is_number_name(name) ==> spec_parse_type_ident(name) == "number"@,
        is_string_name(name) ==> spec_parse_type_ident(name) == "string"@,
        is_boolean_name(name) ==> spec_parse_type_ident(name) == "boolean"@,
        !is_primitive_name(name) ==> spec_parse_type_ident(name) == name,
{
    reveal_strlit("i8");
    reveal_strlit("i16");
    reveal_strlit("i32");
    reveal_strlit("i64");
    reveal_strlit("i128");
    reveal_strlit("u8");
    reveal_strlit("u16");
    reveal_strlit("u32");
    reveal_strlit("u64");
    reveal_strlit("u128");
    reveal_strlit("f32");
    reveal_strlit("f64");
    reveal_strlit("isize");
    reveal_strlit("usize");
    reveal_strlit("str");
    reveal_strlit("String");
    reveal_strlit("char");
    reveal_strlit("bool");
    assert("i8"@.len() == 2 && "u8"@.len() == 2);
    assert("i16"@.len() == 3 && "i32"@.len() == 3 && "i64"@.len() == 3);
    assert("u16"@.len() == 3 && "u32"@.len() == 3 && "u64"@.len() == 3);
    assert("f32"@.len() == 3 && "f64"@.len() == 3);
    assert("i128"@.len() == 4 && "u128"@.len() == 4);
    assert("isize"@.len() == 5 && "usize"@.len() == 5);
    assert("str"@.len() == 3 && "String"@.len() == 6 && "char"@.len() == 4);
    assert("bool"@.len() == 4);
    assert("i8"@[0] == 'i' && "i16"@[0] == 'i' && "i32"@[0] == 'i' && "i64"@[0] == 'i');
    assert("i128"@[0] == 'i' && "isize"@[0] == 'i');
    assert("u8"@[0] == 'u' && "u16"@[0] == 'u' && "u32"@[0] == 'u' && "u64"@[0] == 'u');
    assert("u128"@[0] == 'u' && "usize"@[0] == 'u');
    assert("f32"@[0] == 'f' && "f64"@[0] == 'f');
    assert("str"@[0] == 's' && "String"@[0] == 'S' && "char"@[0] == 'c');
    assert("bool"@[0] == 'b');
    assert(!is_number_name("str"@));
    assert(!is_number_name("String"@));
    assert(!is_number_name("char"@));
    assert(!is_number_name("bool"@));
    assert(!is_string_name("bool"@));
}

} // verus!
