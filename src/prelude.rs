use vstd::prelude::*;

verus! {

/// The fixed block of TypeScript aliases that stand for std's containers, in
/// this order: `HashSet`, `HashMap`, `Vec`, `Option`, `Result`.
pub open spec fn prelude_text() -> Seq<char> {
    "type HashSet<T extends number | string> = Record<T, undefined>;"@
        + "type HashMap<T extends number | string, U> = Record<T, U>;"@
        + "type Vec<T> = Array<T>;"@
        + "type Option<T> = T | undefined;"@
        + "type Result<T, U> = T | U;"@
}

/// Whether `p` occurs in `s` starting at position `k`.
pub open spec fn occurs_at(s: Seq<char>, p: Seq<char>, k: int) -> bool {
    0 <= k && k + p.len() <= s.len() && s.subrange(k, k + p.len()) == p
}

/// The opening `type Name<` of the alias declaration for `name`.
pub open spec fn alias_header(name: Seq<char>) -> Seq<char> {
    "type "@ + name + "<"@
}

/// Produces the TypeScript aliases for the std containers that translated
/// declarations may name: a set as a record of keys, a map as a record, a
/// vector as an array, an option as the value or `undefined`, a result as
/// either of its two types.
pub fn translate_std_types() -> (r: String)
    ensures
        r@ == prelude_text(),
{
    let mut out = String::new();
    out.append("type HashSet<T extends number | string> = Record<T, undefined>;");
    out.append("type HashMap<T extends number | string, U> = Record<T, U>;");
    out.append("type Vec<T> = Array<T>;");
    out.append("type Option<T> = T | undefined;");
    out.append("type Result<T, U> = T | U;");
    assert(out@ =~= prelude_text());
    out
}

} // verus!
