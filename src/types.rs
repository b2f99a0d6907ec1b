use vstd::prelude::*;

use crate::model::TypeExpr;
use crate::text::same_text;

verus! {

/// Whether `id` names one of Rust's integer or floating-point types.
pub open spec fn is_numeric_ident(id: Seq<char>) -> bool {
    ||| id == "i8"@
    ||| id == "i16"@
    ||| id == "i32"@
    ||| id == "i64"@
    ||| id == "i128"@
    ||| id == "u8"@
    ||| id == "u16"@
    ||| id == "u32"@
    ||| id == "u64"@
    ||| id == "u128"@
    ||| id == "f32"@
    ||| id == "f64"@
    ||| id == "isize"@
    ||| id == "usize"@
}

/// Whether `id` names one of Rust's string or character types.
pub open spec fn is_string_ident(id: Seq<char>) -> bool {
    ||| id == "String"@
    ||| id == "str"@
    ||| id == "char"@
}

/// The TypeScript name for the Rust type name `id`: numbers, strings and
/// booleans map to their TypeScript primitive, every other name is kept.
pub open spec fn ident_text(id: Seq<char>) -> Seq<char> {
    if is_numeric_ident(id) {
        "number"@
    } else if is_string_ident(id) {
        "string"@
    } else if id == "bool"@ {
        "boolean"@
    } else {
        id
    }
}


/// Translates a primitive Rust type name into its TypeScript name; any other
/// name comes back unchanged.
pub fn parse_ident(ident: &str) -> (r: &str)
    ensures
        r@ == ident_text(ident@),
{
    if same_text(ident, "i8") || same_text(ident, "i16") || same_text(ident, "i32")
        || same_text(ident, "i64") || same_text(ident, "i128") || same_text(ident, "u8")
        || same_text(ident, "u16") || same_text(ident, "u32") || same_text(ident, "u64")
        || same_text(ident, "u128") || same_text(ident, "f32") || same_text(ident, "f64")
        || same_text(ident, "isize") || same_text(ident, "usize") {
        "number"
    } else if same_text(ident, "String") || same_text(ident, "str") || same_text(ident, "char") {
        "string"
    } else if same_text(ident, "bool") {
        "boolean"
    } else {
        ident
    }
}

/// Translates a type name the way [`parse_ident`] does: primitive names map to
/// their TypeScript name, others are kept.
pub fn parse_type_ident(ident: &str) -> (r: &str)
    ensures
        r@ == ident_text(ident@),
{
    parse_ident(ident)
}

} // verus!

verus! {

/// Whether `t`, and every type nested in it, has a TypeScript rendering.
pub open spec fn type_supported(t: TypeExpr) -> bool
    decreases t,
{
    match t {
        TypeExpr::Named(id, args) => id@.len() > 0 && list_supported(args@),
        TypeExpr::Tuple(elems) => list_supported(elems@),
        TypeExpr::Unsupported(_) => false,
    }
}

/// Whether every type of `s` has a TypeScript rendering.
pub open spec fn list_supported(s: Seq<TypeExpr>) -> bool
    decreases s,
{
    if s.len() == 0 {
        true
    } else {
        list_supported(s.drop_last()) && type_supported(s.last())
    }
}

/// The TypeScript text of `t`: a name with `<...>` round its arguments when it
/// has some, a tuple as `[...]`.
pub open spec fn type_text(t: TypeExpr) -> Seq<char>
    decreases t,
{
    match t {
        TypeExpr::Named(id, args) => if args@.len() == 0 {
            ident_text(id@)
        } else {
            ident_text(id@) + "<"@ + list_text(args@) + ">"@
        },
        TypeExpr::Tuple(elems) => "["@ + list_text(elems@) + "]"@,
        TypeExpr::Unsupported(_) => Seq::empty(),
    }
}

/// Each type of `s` in turn, each followed by a comma.
pub open spec fn list_text(s: Seq<TypeExpr>) -> Seq<char>
    decreases s,
{
    if s.len() == 0 {
        Seq::empty()
    } else {
        list_text(s.drop_last()) + type_text(s.last()) + ","@
    }
}

} // verus!

verus! {

/// A list of types has a rendering exactly when each of its types has one.
pub proof fn lemma_list_supported(s: Seq<TypeExpr>)
    ensures
        list_supported(s) <==> forall|k: int| 0 <= k < s.len() ==> type_supported(#[trigger] s[k]),
    decreases s.len(),
{
    if s.len() > 0 {
        lemma_list_supported(s.drop_last());
        assert forall|k: int| 0 <= k < s.len() - 1 implies s.drop_last()[k] == s[k] by {}
        if list_supported(s) {
            assert forall|k: int| 0 <= k < s.len() implies type_supported(#[trigger] s[k]) by {
                if k < s.len() - 1 {
                    assert(type_supported(s.drop_last()[k]));
                }
            }
        }
    }
}

/// Appends each type of `items` to `out`, each followed by a comma, and
/// reports whether all of them have a rendering.
fn push_type_list(out: &mut String, items: &Vec<TypeExpr>) -> (ok: bool)
    ensures
        ok == list_supported(items@),
        ok ==> final(out)@ == old(out)@ + list_text(items@),
    decreases items,
{
    let mut i: usize = 0;
    while i < items.len()
        invariant
            0 <= i <= items@.len(),
            list_supported(items@.take(i as int)),
            out@ == old(out)@ + list_text(items@.take(i as int)),
        decreases items@.len() - i,
    {
        assert(items@.take(i + 1).drop_last() =~= items@.take(i as int));
        match parse_type(&items[i]) {
            None => {
                proof {
                    lemma_list_supported(items@);
                }
                return false;
            },
            Some(s) => {
                out.append(s.as_str());
                out.append(",");
            },
        }
        i = i + 1;
    }
    assert(items@.take(i as int) =~= items@);
    true
}

/// Translates a Rust type expression into TypeScript text; `None` when the
/// expression, or a type nested in it, has no TypeScript rendering.
pub fn parse_type(t: &TypeExpr) -> (r: Option<String>)
    ensures
        r is Some <==> type_supported(*t),
        r matches Some(s) ==> s@ == type_text(*t),
    decreases t,
{
    match t {
        TypeExpr::Named(id, args) => {
            if id.as_str().unicode_len() == 0 {
                return None;
            }
            let mut out = String::from_str(parse_ident(id.as_str()));
            if args.len() == 0 {
                return Some(out);
            }
            out.append("<");
            if !push_type_list(&mut out, args) {
                return None;
            }
            out.append(">");
            Some(out)
        },
        TypeExpr::Tuple(elems) => {
            let mut out = String::from_str("[");
            if !push_type_list(&mut out, elems) {
                return None;
            }
            out.append("]");
            Some(out)
        },
        TypeExpr::Unsupported(_) => None,
    }
}

} // verus!
