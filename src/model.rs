use vstd::prelude::*;

verus! {

/// A type expression, as the translator sees it.
pub enum TypeExpr {
    /// A type name with its generic arguments, in order (none for a
    /// non-generic name). Only the last segment of a path is kept.
    Named(String, Vec<TypeExpr>),
    /// A tuple type with its elements, in order.
    Tuple(Vec<TypeExpr>),
    /// A type shape that has no TypeScript rendering (a reference, a function
    /// pointer, a trait object, ...), with a label that says which.
    Unsupported(String),
}

/// How a field is addressed: by name, or by position in a tuple struct.
pub enum FieldKey {
    Name(String),
    Index(usize),
}

/// One field of a struct or of a struct-like enum variant.
pub struct Field {
    pub key: FieldKey,
    pub ty: TypeExpr,
}

/// `type name = ty;`
pub struct AliasDecl {
    pub name: String,
    pub ty: TypeExpr,
}

/// A struct, with its fields in declaration order. A unit struct has none.
pub struct RecordDecl {
    pub name: String,
    pub fields: Vec<Field>,
}

/// What an enum variant carries.
pub enum VariantPayload {
    /// A unit variant.
    Unit,
    /// A variant with one unnamed field.
    Single(TypeExpr),
    /// A variant with named fields.
    Record(Vec<Field>),
    /// A payload shape that has no TypeScript rendering (several unnamed
    /// fields), with a label that says which.
    Unsupported(String),
}

/// One variant of an enum.
pub struct Variant {
    pub name: String,
    pub payload: VariantPayload,
}

/// An enum, serialized adjacently tagged: each value is an object with a
/// `test` member naming the variant and a `result` member holding its payload.
pub struct UnionDecl {
    pub name: String,
    pub variants: Vec<Variant>,
}

/// A top-level declaration.
pub enum DeclarationItem {
    Alias(AliasDecl),
    Record(RecordDecl),
    Union(UnionDecl),
    /// Any other kind of item, with a label that says which.
    Unsupported(String),
}

} // verus!
