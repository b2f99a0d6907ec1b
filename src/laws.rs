use vstd::prelude::*;

use crate::items::{field_text, fields_text, item_ok, item_text, key_text, record_head, record_text};
use crate::model::{DeclarationItem, Field, RecordDecl, TypeExpr};
use crate::prelude::{alias_header, occurs_at, prelude_text};
use crate::translate::{items_text, output_text};
use crate::types::{list_text, type_text};

verus! {

/// Translating the same declaration twice gives the same answer, and when it
/// renders, byte for byte the same text.
pub proof fn lemma_translate_item_deterministic(a: DeclarationItem, b: DeclarationItem)
    requires
        a == b,
    ensures
        item_ok(a) == item_ok(b),
        item_text(a) == item_text(b),
{
}

/// The fields rendered for the first `i` fields of `s` are a prefix of those
/// rendered for the first `j`, when `i <= j`.
proof fn lemma_fields_prefix(s: Seq<Field>, i: int, j: int)
    requires
        0 <= i <= j <= s.len(),
    ensures
        fields_text(s.take(i)).len() <= fields_text(s.take(j)).len(),
        fields_text(s.take(j)).take(fields_text(s.take(i)).len() as int) == fields_text(s.take(i)),
    decreases j - i,
{
    if i < j {
        lemma_fields_prefix(s, i, j - 1);
        assert(s.take(j).drop_last() =~= s.take(j - 1));
        let a = fields_text(s.take(i));
        let b = fields_text(s.take(j - 1));
        assert(fields_text(s.take(j)) == b + field_text(s.take(j).last()));
        assert(fields_text(s.take(j)).take(a.len() as int) =~= b.take(a.len() as int));
    } else {
        assert(fields_text(s.take(j)).take(fields_text(s.take(i)).len() as int) =~= fields_text(
            s.take(i),
        ));
    }
}

/// Where the `k`-th field of a struct starts in its interface text.
pub open spec fn field_position(r: RecordDecl, k: int) -> int {
    (record_head(r).len() + fields_text(r.fields@.take(k)).len()) as int
}

/// The `k`-th field of a struct renders in place, as `key:type;`, in its
/// interface text.
proof fn lemma_field_in_place(r: RecordDecl, k: int)
    requires
        0 <= k < r.fields@.len(),
    ensures
        field_position(r, k) + field_text(r.fields@[k]).len() <= record_text(r).len(),
        record_text(r).subrange(
            field_position(r, k),
            field_position(r, k) + field_text(r.fields@[k]).len(),
        ) == field_text(r.fields@[k]),
        field_position(r, k + 1) == field_position(r, k) + field_text(r.fields@[k]).len(),
{
    let s = r.fields@;
    lemma_fields_prefix(s, k + 1, s.len() as int);
    assert(s.take(s.len() as int) =~= s);
    assert(s.take(k + 1).drop_last() =~= s.take(k));
    assert(s.take(k + 1).last() == s[k]);
    let p = fields_text(s.take(k));
    let f = field_text(s[k]);
    let whole = fields_text(s);
    assert(whole.take((p + f).len() as int) == p + f);
    assert(record_text(r) == record_head(r) + whole + "};"@);
    assert(record_text(r).subrange(field_position(r, k), field_position(r, k) + f.len()) =~= (p
        + f).subrange(p.len() as int, (p + f).len() as int));
}

/// Fields keep their declaration order: when `i < j`, the text of field `i`
/// stands in the interface text, whole, before the text of field `j`.
pub proof fn lemma_record_field_order(r: RecordDecl, i: int, j: int)
    requires
        0 <= i < j < r.fields@.len(),
    ensures
        record_text(r).subrange(
            field_position(r, i),
            field_position(r, i) + field_text(r.fields@[i]).len(),
        ) == field_text(r.fields@[i]),
        record_text(r).subrange(
            field_position(r, j),
            field_position(r, j) + field_text(r.fields@[j]).len(),
        ) == field_text(r.fields@[j]),
        field_position(r, i) + field_text(r.fields@[i]).len() <= field_position(r, j),
{
    lemma_field_in_place(r, i);
    lemma_field_in_place(r, j);
    lemma_fields_prefix(r.fields@, i + 1, j);
}

/// `i32`, with no generic arguments, renders as `number`.
pub proof fn lemma_i32_is_number(t: TypeExpr)
    requires
        t matches TypeExpr::Named(id, args) && id@ == "i32"@ && args@.len() == 0,
    ensures
        type_text(t) == "number"@,
{
}

/// The texts rendered for the first `i` types of `s` are a prefix of those
/// rendered for the first `j`, when `i <= j`.
proof fn lemma_list_prefix(s: Seq<TypeExpr>, i: int, j: int)
    requires
        0 <= i <= j <= s.len(),
    ensures
        list_text(s.take(i)).len() <= list_text(s.take(j)).len(),
        list_text(s.take(j)).take(list_text(s.take(i)).len() as int) == list_text(s.take(i)),
    decreases j - i,
{
    if i < j {
        lemma_list_prefix(s, i, j - 1);
        assert(s.take(j).drop_last() =~= s.take(j - 1));
        let a = list_text(s.take(i));
        let b = list_text(s.take(j - 1));
        assert(list_text(s.take(j)) == b + type_text(s.take(j).last()) + ","@);
        assert(list_text(s.take(j)).take(a.len() as int) =~= b.take(a.len() as int));
    } else {
        assert(list_text(s.take(j)).take(list_text(s.take(i)).len() as int) =~= list_text(
            s.take(i),
        ));
    }
}

/// Each argument of a generic type, and each element of a tuple, renders in
/// place exactly as it renders alone, at any depth: the `k`-th type of `s`
/// stands, whole, right after the texts of the types before it.
pub proof fn lemma_list_element_in_place(s: Seq<TypeExpr>, k: int)
    requires
        0 <= k < s.len(),
    ensures
        list_text(s.take(k)).len() + type_text(s[k]).len() <= list_text(s).len(),
        list_text(s).subrange(
            list_text(s.take(k)).len() as int,
            (list_text(s.take(k)).len() + type_text(s[k]).len()) as int,
        ) == type_text(s[k]),
{
    lemma_list_prefix(s, k + 1, s.len() as int);
    assert(s.take(s.len() as int) =~= s);
    assert(s.take(k + 1).drop_last() =~= s.take(k));
    assert(s.take(k + 1).last() == s[k]);
    let p = list_text(s.take(k));
    let t = type_text(s[k]);
    let q = p + t + ","@;
    assert(list_text(s).take(q.len() as int) == q);
    assert(list_text(s).subrange(p.len() as int, (p.len() + t.len()) as int) =~= q.subrange(
        p.len() as int,
        (p.len() + t.len()) as int,
    ));
}

/// A field's type renders in place, right after its key and the colon.
pub proof fn lemma_field_type_in_place(f: Field)
    ensures
        field_text(f).subrange(
            key_text(f.key).len() + 1int,
            key_text(f.key).len() + 1int + type_text(f.ty).len(),
        ) == type_text(f.ty),
{
    reveal_strlit(":");
    assert(field_text(f).subrange(
        key_text(f.key).len() + 1int,
        key_text(f.key).len() + 1int + type_text(f.ty).len(),
    ) =~= type_text(f.ty));
}

/// With no declarations, the output is the std aliases, once, and nothing else;
/// they are never empty.
pub proof fn lemma_empty_output_is_prelude()
    ensures
        output_text(Seq::empty()) == prelude_text(),
        prelude_text().len() > 0,
{
    reveal_strlit("type Vec<T> = Array<T>;");
    assert(items_text(Seq::<DeclarationItem>::empty()) == Seq::<char>::empty());
    assert(output_text(Seq::empty()) =~= prelude_text());
}

/// Each of the five std aliases is declared exactly once in the prelude: its
/// opening `type Name<` occurs at some position, and at no other.
pub proof fn lemma_prelude_declares_each_once(name: Seq<char>)
    requires
        name == "HashSet"@ || name == "HashMap"@ || name == "Vec"@ || name == "Option"@
            || name == "Result"@,
    ensures
        exists|k: int| occurs_at(prelude_text(), alias_header(name), k),
        forall|k1: int, k2: int|
            occurs_at(prelude_text(), alias_header(name), k1) && occurs_at(
                prelude_text(),
                alias_header(name),
                k2,
            ) ==> k1 == k2,
{
    let l1 = "type HashSet<T extends number | string> = Record<T, undefined>;"@;
    let l2 = "type HashMap<T extends number | string, U> = Record<T, U>;"@;
    let l3 = "type Vec<T> = Array<T>;"@;
    let l4 = "type Option<T> = T | undefined;"@;
    let l5 = "type Result<T, U> = T | U;"@;
    reveal_strlit("type HashSet<T extends number | string> = Record<T, undefined>;");
    reveal_strlit("type HashMap<T extends number | string, U> = Record<T, U>;");
    reveal_strlit("type Vec<T> = Array<T>;");
    reveal_strlit("type Option<T> = T | undefined;");
    reveal_strlit("type Result<T, U> = T | U;");
    reveal_strlit("type ");
    reveal_strlit("<");
    reveal_strlit("HashSet");
    reveal_strlit("HashMap");
    reveal_strlit("Vec");
    reveal_strlit("Option");
    reveal_strlit("Result");
    let s = prelude_text();
    let h = alias_header(name);
    let k0: int = if name == "HashSet"@ {
        0
    } else if name == "HashMap"@ {
        l1.len() as int
    } else if name == "Vec"@ {
        (l1.len() + l2.len()) as int
    } else if name == "Option"@ {
        (l1.len() + l2.len() + l3.len()) as int
    } else {
        (l1.len() + l2.len() + l3.len() + l4.len()) as int
    };
    assert(s.subrange(k0, k0 + h.len()) =~= h);
    assert(occurs_at(s, h, k0));
    assert forall|k: int| occurs_at(s, h, k) implies k == k0 by {
        assert(s.subrange(k, k + h.len())[1] == s[k + 1]);
        assert(s.subrange(k, k + h.len())[5] == s[k + 5]);
        if h.len() > 9 {
            assert(s.subrange(k, k + h.len())[9] == s[k + 9]);
        }
    }
}

} // verus!
