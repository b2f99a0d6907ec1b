use vstd::prelude::*;

use crate::model::{
    AliasDecl, DeclarationItem, Field, FieldKey, RecordDecl, UnionDecl, Variant, VariantPayload,
};
use crate::text::{decimal_text, push_decimal};
use crate::types::{parse_type, type_supported, type_text};

verus! {

/// The text of a field's key: its name, or its position in decimal.
pub open spec fn key_text(k: FieldKey) -> Seq<char> {
    match k {
        FieldKey::Name(n) => n@,
        FieldKey::Index(i) => decimal_text(i as nat),
    }
}

/// A field renders when its key is not an empty name and its type renders.
pub open spec fn field_ok(f: Field) -> bool {
    &&& f.key matches FieldKey::Name(n) ==> n@.len() > 0
    &&& type_supported(f.ty)
}

/// `key:type;`
pub open spec fn field_text(f: Field) -> Seq<char> {
    key_text(f.key) + ":"@ + type_text(f.ty) + ";"@
}

/// Every field of `s` renders.
pub open spec fn fields_ok(s: Seq<Field>) -> bool {
    forall|k: int| 0 <= k < s.len() ==> field_ok(#[trigger] s[k])
}

/// The fields of `s` in order, each as `key:type;`.
pub open spec fn fields_text(s: Seq<Field>) -> Seq<char>
    decreases s.len(),
{
    if s.len() == 0 {
        Seq::empty()
    } else {
        fields_text(s.drop_last()) + field_text(s.last())
    }
}

/// Appends the fields of `fields` to `out`, in order, and reports whether
/// each of them renders.
fn push_fields(out: &mut String, fields: &Vec<Field>) -> (ok: bool)
    ensures
        ok == fields_ok(fields@),
        ok ==> final(out)@ == old(out)@ + fields_text(fields@),
{
    let mut i: usize = 0;
    while i < fields.len()
        invariant
            0 <= i <= fields@.len(),
            fields_ok(fields@.take(i as int)),
            out@ == old(out)@ + fields_text(fields@.take(i as int)),
        decreases fields@.len() - i,
    {
        assert(fields@.take(i + 1).drop_last() =~= fields@.take(i as int));
        let field = &fields[i];
        let ty = match parse_type(&field.ty) {
            Some(ty) => ty,
            None => {
                return false;
            },
        };
        match &field.key {
            FieldKey::Name(n) => {
                if n.as_str().unicode_len() == 0 {
                    return false;
                }
                out.append(n.as_str());
            },
            FieldKey::Index(k) => {
                push_decimal(out, *k);
            },
        }
        out.append(":");
        out.append(ty.as_str());
        out.append(";");
        assert(fields@.take(i + 1)[i as int] == fields@[i as int]);
        i = i + 1;
    }
    assert(fields@.take(i as int) =~= fields@);
    true
}

/// The alias renders when it has a name and its type renders.
pub open spec fn alias_ok(a: AliasDecl) -> bool {
    a.name@.len() > 0 && type_supported(a.ty)
}

/// `export type Name = type;`
pub open spec fn alias_text(a: AliasDecl) -> Seq<char> {
    "export type "@ + a.name@ + " = "@ + type_text(a.ty) + ";"@
}

/// The struct renders when it has a name and each of its fields renders.
pub open spec fn record_ok(r: RecordDecl) -> bool {
    r.name@.len() > 0 && fields_ok(r.fields@)
}

/// The opening of a struct's interface, up to its first field.
pub open spec fn record_head(r: RecordDecl) -> Seq<char> {
    "export interface "@ + r.name@ + " {"@
}

/// `export interface Name {key:type;...};`
pub open spec fn record_text(r: RecordDecl) -> Seq<char> {
    record_head(r) + fields_text(r.fields@) + "};"@
}

/// A payload renders unless it is of an unsupported shape or holds a type
/// or field that does not render.
pub open spec fn payload_ok(p: VariantPayload) -> bool {
    match p {
        VariantPayload::Unit => true,
        VariantPayload::Single(t) => type_supported(t),
        VariantPayload::Record(fs) => fields_ok(fs@),
        VariantPayload::Unsupported(_) => false,
    }
}

/// The type of a variant's `result` member: `undefined` for a unit variant,
/// the field's type for a single unnamed field, an object type for named
/// fields.
pub open spec fn payload_text(p: VariantPayload) -> Seq<char> {
    match p {
        VariantPayload::Unit => "undefined"@,
        VariantPayload::Single(t) => type_text(t),
        VariantPayload::Record(fs) => "{"@ + fields_text(fs@) + "}"@,
        VariantPayload::Unsupported(_) => Seq::empty(),
    }
}

/// A variant renders when it has a name and its payload renders.
pub open spec fn variant_ok(v: Variant) -> bool {
    v.name@.len() > 0 && payload_ok(v.payload)
}

/// ` | { test: "Name" , result: payload}`
pub open spec fn variant_text(v: Variant) -> Seq<char> {
    " | { test: \""@ + v.name@ + "\" , result: "@ + payload_text(v.payload) + "}"@
}

/// Every variant of `s` renders.
pub open spec fn variants_ok(s: Seq<Variant>) -> bool {
    forall|k: int| 0 <= k < s.len() ==> variant_ok(#[trigger] s[k])
}

/// The variants of `s` in order.
pub open spec fn variants_text(s: Seq<Variant>) -> Seq<char>
    decreases s.len(),
{
    if s.len() == 0 {
        Seq::empty()
    } else {
        variants_text(s.drop_last()) + variant_text(s.last())
    }
}

/// The enum renders when it has a name and at least one variant, and each
/// variant renders.
pub open spec fn union_ok(u: UnionDecl) -> bool {
    u.name@.len() > 0 && u.variants@.len() > 0 && variants_ok(u.variants@)
}

/// `export type Name = | {...} | {...};`
pub open spec fn union_text(u: UnionDecl) -> Seq<char> {
    "export type "@ + u.name@ + " ="@ + variants_text(u.variants@) + ";"@
}

/// Whether the item has a TypeScript rendering.
pub open spec fn item_ok(item: DeclarationItem) -> bool {
    match item {
        DeclarationItem::Alias(a) => alias_ok(a),
        DeclarationItem::Record(r) => record_ok(r),
        DeclarationItem::Union(u) => union_ok(u),
        DeclarationItem::Unsupported(_) => false,
    }
}

/// The TypeScript declaration of an item that renders.
pub open spec fn item_text(item: DeclarationItem) -> Seq<char> {
    match item {
        DeclarationItem::Alias(a) => alias_text(a),
        DeclarationItem::Record(r) => record_text(r),
        DeclarationItem::Union(u) => union_text(u),
        DeclarationItem::Unsupported(_) => Seq::empty(),
    }
}

/// Translates a type alias into a TypeScript alias; `None` when the alias has
/// no name or its type has no rendering.
pub fn parse_token_type(a: &AliasDecl) -> (r: Option<String>)
    ensures
        r is Some <==> alias_ok(*a),
        r matches Some(s) ==> s@ == alias_text(*a),
{
    if a.name.as_str().unicode_len() == 0 {
        return None;
    }
    let ty = match parse_type(&a.ty) {
        Some(ty) => ty,
        None => {
            return None;
        },
    };
    let mut out = String::from_str("export type ");
    out.append(a.name.as_str());
    out.append(" = ");
    out.append(ty.as_str());
    out.append(";");
    Some(out)
}

/// Translates a struct into a TypeScript interface, its fields in declaration
/// order (a tuple struct's fields keyed by position); `None` when the struct
/// has no name or a field does not render.
pub fn parse_struct(r: &RecordDecl) -> (res: Option<String>)
    ensures
        res is Some <==> record_ok(*r),
        res matches Some(s) ==> s@ == record_text(*r),
{
    if r.name.as_str().unicode_len() == 0 {
        return None;
    }
    let mut out = String::from_str("export interface ");
    out.append(r.name.as_str());
    out.append(" {");
    if !push_fields(&mut out, &r.fields) {
        return None;
    }
    out.append("};");
    Some(out)
}

/// Translates an adjacently tagged enum into a union of TypeScript object
/// types, one per variant in declaration order; `None` when the enum has no
/// name or no variant, or a variant does not render.
pub fn parse_enum(u: &UnionDecl) -> (r: Option<String>)
    ensures
        r is Some <==> union_ok(*u),
        r matches Some(s) ==> s@ == union_text(*u),
{
    if u.name.as_str().unicode_len() == 0 || u.variants.len() == 0 {
        return None;
    }
    let mut out = String::from_str("export type ");
    out.append(u.name.as_str());
    out.append(" =");
    let ghost start = out@;
    let mut i: usize = 0;
    while i < u.variants.len()
        invariant
            0 <= i <= u.variants@.len(),
            variants_ok(u.variants@.take(i as int)),
            out@ == start + variants_text(u.variants@.take(i as int)),
        decreases u.variants@.len() - i,
    {
        assert(u.variants@.take(i + 1).drop_last() =~= u.variants@.take(i as int));
        assert(u.variants@.take(i + 1)[i as int] == u.variants@[i as int]);
        let v = &u.variants[i];
        if v.name.as_str().unicode_len() == 0 {
            return None;
        }
        let ghost before = out@;
        out.append(" | { test: \"");
        out.append(v.name.as_str());
        out.append("\" , result: ");
        match &v.payload {
            VariantPayload::Unit => {
                out.append("undefined");
            },
            VariantPayload::Single(t) => {
                match parse_type(t) {
                    Some(ty) => {
                        out.append(ty.as_str());
                    },
                    None => {
                        return None;
                    },
                }
            },
            VariantPayload::Record(fs) => {
                out.append("{");
                if !push_fields(&mut out, fs) {
                    return None;
                }
                out.append("}");
            },
            VariantPayload::Unsupported(_) => {
                return None;
            },
        }
        out.append("}");
        assert(out@ =~= before + variant_text(*v));
        i = i + 1;
    }
    assert(u.variants@.take(i as int) =~= u.variants@);
    out.append(";");
    Some(out)
}

/// Translates one declaration into its TypeScript declaration; `None` for an
/// item that has no rendering.
pub fn translate_item(item: &DeclarationItem) -> (r: Option<String>)
    ensures
        r is Some <==> item_ok(*item),
        r matches Some(s) ==> s@ == item_text(*item),
{
    match item {
        DeclarationItem::Alias(a) => parse_token_type(a),
        DeclarationItem::Record(r) => parse_struct(r),
        DeclarationItem::Union(u) => parse_enum(u),
        DeclarationItem::Unsupported(_) => None,
    }
}

} // verus!
