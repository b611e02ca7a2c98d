use vstd::prelude::*;
use vstd::string::StringExecFns;
use crate::ast::TypeExpression;
use crate::primitive::{parse_type_ident, spec_parse_type_ident};

verus! {

/// The target text for one type expression: a named type is the mapped name
/// followed, when generic arguments are present, by the arguments in angle
/// brackets; a tuple is its elements in square brackets; every argument and
/// element carries a trailing comma, the last included; an unsupported shape
/// is empty text.
pub open spec fn spec_parse_type(t: TypeExpression) -> Seq<char>
    decreases t,
{
    match t {
        TypeExpression::Named { name, args } => {
            if args.len() == 0 {
                spec_parse_type_ident(name@)
            } else {
                spec_parse_type_ident(name@) + "<"@ + spec_parse_type_args(args@) + ">"@
            }
        },
        TypeExpression::Tuple { elements } => "["@ + spec_parse_type_args(elements@) + "]"@,
        TypeExpression::Unsupported => Seq::empty(),
    }
}

/// The target text for a list of type expressions: each one's translation
/// followed by a comma, in order.
pub open spec fn spec_parse_type_args(args: Seq<TypeExpression>) -> Seq<char>
    decreases args,
{
    if args.len() == 0 {
        Seq::empty()
    } else {
        spec_parse_type_args(args.drop_last()) + spec_parse_type(args.last()) + ","@
    }
}

/// Renders a list of type expressions, each with its trailing comma.
fn parse_type_list(args: &Vec<TypeExpression>) -> (r: String)
    ensures
        r@ == spec_parse_type_args(args@),
    decreases args@,
{
    let mut out = String::new();
    let mut i: usize = 0;
    proof {
        assert(args@.take(0) =~= Seq::<TypeExpression>::empty());
    }
    while i < args.len()
        invariant
            i <= args@.len(),
            out@ == spec_parse_type_args(args@.take(i as int)),
        decreases args@.len() - i,
    {
        let piece = parse_type(&args[i]);
        out.append(piece.as_str());
        out.append(",");
        proof {
            assert(args@.take(i as int + 1).drop_last() =~= args@.take(i as int));
            assert(args@.take(i as int + 1).last() == args@[i as int]);
        }
        i += 1;
    }
    proof {
        assert(args@.take(args@.len() as int) =~= args@);
    }
    out
}

/// Converts one type expression of the source tree into target-type text.
pub fn parse_type(t: &TypeExpression) -> (r: String)
    ensures
        r@ == spec_parse_type(*t),
    decreases *t,
{
    match t {
        TypeExpression::Named { name, args } => {
            let mut out = parse_type_ident(name.as_str()).to_owned();
            if args.len() > 0 {
                out.append("<");
                let body = parse_type_list(args);
                out.append(body.as_str());
                out.append(">");
            }
            out
        },
        TypeExpression::Tuple { elements } => {
            let mut out = "[".to_owned();
            let body = parse_type_list(elements);
            out.append(body.as_str());
            out.append("]");
            out
        },
        TypeExpression::Unsupported => String::new(),
    }
}

/// Law: a named type with two generic arguments renders as the mapped name,
/// then each argument's translation with a trailing comma (the last
/// included), all between angle brackets.
pub proof fn lemma_generic_propagation(name: String, args: Vec<TypeExpression>)
    requires
        args@.len() == 2,
    ensures
        spec_parse_type(TypeExpression::Named { name, args }) == spec_parse_type_ident(name@)
            + "<"@ + spec_parse_type(args@[0]) + ","@ + spec_parse_type(args@[1]) + ","@ + ">"@,
{
    let s = args@;
    assert(s.drop_last().drop_last() =~= Seq::<TypeExpression>::empty());
    assert(s.drop_last().last() == s[0]);
    assert(spec_parse_type_args(s.drop_last().drop_last()) == Seq::<char>::empty());
    assert(spec_parse_type_args(s.drop_last()) =~= spec_parse_type(s[0]) + ","@);
    assert(spec_parse_type(TypeExpression::Named { name, args }) =~= spec_parse_type_ident(
        name@,
    ) + "<"@ + spec_parse_type(s[0]) + ","@ + spec_parse_type(s[1]) + ","@ + ">"@);
}

/// Law: an unsupported type expression contributes empty text at its
/// position; translation of the expressions around it is unaffected, since
/// every list position renders independently.
pub proof fn lemma_unsupported_empty(t: TypeExpression)
    requires
        t is Unsupported,
    ensures
        spec_parse_type(t) == Seq::<char>::empty(),
{
}

} // verus!
