//! Type classifier: shape questions about a declared field type.
//!
//! A declared type is modelled by its path segments and the generic
//! arguments of its final segment, which is all the engine ever inspects.

use vstd::prelude::*;

use crate::text::{chars_eq, chars_of};

verus! {

/// The declared type of a factory field, reduced to what classification
/// reads: the path segments and the type arguments of the last segment.
pub struct TypeExpr {
    pub segments: Vec<Vec<char>>,
    pub args: Vec<TypeExpr>,
}

/// The name the classifier looks at: the final path segment.
pub open spec fn spec_last_segment(t: TypeExpr) -> Seq<char>
    recommends
        t.segments@.len() > 0,
{
    t.segments@.last()@
}

/// An optional wrapper is a path ending in `Option` with a type argument.
pub open spec fn spec_is_option(t: TypeExpr) -> bool {
    t.segments@.len() > 0 && spec_last_segment(t) == "Option"@ && t.args@.len() > 0
}

/// The wrapped inner type of an optional wrapper.
pub open spec fn spec_option_inner(t: TypeExpr) -> TypeExpr
    recommends
        spec_is_option(t),
{
    t.args@[0]
}

/// The declared shape with one optional wrapper removed, if present.
pub open spec fn spec_unwrapped(t: TypeExpr) -> TypeExpr {
    if spec_is_option(t) {
        spec_option_inner(t)
    } else {
        t
    }
}

/// The textual string type.
pub open spec fn spec_is_string(t: TypeExpr) -> bool {
    t.segments@.len() > 0 && spec_last_segment(t) == "String"@
}

/// The fixed whitelist of trivially-copyable primitive type names.
pub open spec fn spec_is_copy_name(s: Seq<char>) -> bool {
    ||| s == "bool"@
    ||| s == "i8"@
    ||| s == "i16"@
    ||| s == "i32"@
    ||| s == "i64"@
    ||| s == "i128"@
    ||| s == "u8"@
    ||| s == "u16"@
    ||| s == "u32"@
    ||| s == "u64"@
    ||| s == "u128"@
    ||| s == "f32"@
    ||| s == "f64"@
    ||| s == "char"@
}

/// Everything outside the whitelist is duplicated by a cloning operation.
pub open spec fn spec_needs_clone(t: TypeExpr) -> bool {
    !(t.segments@.len() > 0 && spec_is_copy_name(spec_last_segment(t)))
}

/// Reports whether the declared type is an optional wrapper.
pub fn is_option_type(t: &TypeExpr) -> (r: bool)
    ensures
        r == spec_is_option(*t),
{
    extract_option_inner_type(t).is_some()
}

/// Returns the wrapped inner type when the declared type is an optional
/// wrapper, and nothing otherwise.
pub fn extract_option_inner_type<'a>(t: &'a TypeExpr) -> (r: Option<&'a TypeExpr>)
    ensures
        r is Some <==> spec_is_option(*t),
        r matches Some(inner) ==> *inner == spec_option_inner(*t),
{
    if t.segments.len() == 0 {
        return None;
    }
    let seg = &t.segments[t.segments.len() - 1];
    let marker = chars_of("Option");
    if chars_eq(seg, &marker) && t.args.len() > 0 {
        Some(&t.args[0])
    } else {
        None
    }
}

/// Reports whether the declared type is the textual string type.
pub fn is_string_type(t: &TypeExpr) -> (r: bool)
    ensures
        r == spec_is_string(*t),
{
    if t.segments.len() == 0 {
        return false;
    }
    let seg = &t.segments[t.segments.len() - 1];
    let marker = chars_of("String");
    chars_eq(seg, &marker)
}

/// Reports whether values of the declared type must be duplicated by a
/// cloning operation to be read without consuming the original.
pub fn needs_clone(t: &TypeExpr) -> (r: bool)
    ensures
        r == spec_needs_clone(*t),
{
    if t.segments.len() == 0 {
        return true;
    }
    let seg = &t.segments[t.segments.len() - 1];
    let copyable = chars_eq(seg, &chars_of("bool")) || chars_eq(seg, &chars_of("i8"))
        || chars_eq(seg, &chars_of("i16")) || chars_eq(seg, &chars_of("i32"))
        || chars_eq(seg, &chars_of("i64")) || chars_eq(seg, &chars_of("i128"))
        || chars_eq(seg, &chars_of("u8")) || chars_eq(seg, &chars_of("u16"))
        || chars_eq(seg, &chars_of("u32")) || chars_eq(seg, &chars_of("u64"))
        || chars_eq(seg, &chars_of("u128")) || chars_eq(seg, &chars_of("f32"))
        || chars_eq(seg, &chars_of("f64")) || chars_eq(seg, &chars_of("char"));
    !copyable
}

} // verus!
