use vstd::prelude::*;

verus! {

/// The object identifier the native client library uses for "no object".
pub const INVALID_OID: crate::Oid = 0;

/// Interprets a native count — of tuples, of fields, of parameters, or of
/// a value's bytes. The native library reports counts as non-negative
/// signed integers; the binding carries them as `usize`.
pub fn count_from_code(raw: i32) -> (r: usize)
    requires
        raw >= 0,
    ensures
        r == raw,
{
    raw as usize
}

/// Interprets a native column-number lookup: a negative code means no
/// column matched the given name, any other code is the column's number.
pub fn number_from_code(raw: i32) -> (r: Option<usize>)
    ensures
        r is Some <==> raw >= 0,
        raw >= 0 ==> r == Some(raw as usize),
{
    if raw < 0 {
        None
    } else {
        Some(raw as usize)
    }
}

/// Interprets a native column size: a negative code means the column's
/// data type is variable-length, any other code is its size in bytes.
/// An absent size is thereby told apart from a size of zero.
pub fn size_from_code(raw: i32) -> (r: Option<usize>)
    ensures
        r is Some <==> raw >= 0,
        raw >= 0 ==> r == Some(raw as usize),
{
    if raw < 0 {
        None
    } else {
        Some(raw as usize)
    }
}

/// Interprets a native type modifier: a negative code means the type has
/// no modifier or the modifier is not known, any other code is the
/// modifier itself.
pub fn modifier_from_code(raw: i32) -> (r: Option<i32>)
    ensures
        r is Some <==> raw >= 0,
        raw >= 0 ==> r == Some(raw),
{
    if raw < 0 {
        None
    } else {
        Some(raw)
    }
}

/// Interprets a native object identifier: the reserved invalid identifier
/// means "no object", every other identifier names one.
pub fn oid_from_code(oid: crate::Oid) -> (r: Option<crate::Oid>)
    ensures
        r is Some <==> oid != INVALID_OID,
        oid != INVALID_OID ==> r == Some(oid),
{
    if oid == INVALID_OID {
        None
    } else {
        Some(oid)
    }
}

/// Interprets a native boolean: the native library answers yes/no
/// questions — is this cell null, does this result carry binary data —
/// with one for yes and zero for no.
pub fn flag_from_code(raw: i32) -> (r: bool)
    ensures
        r <==> raw == 1,
{
    raw == 1
}

/// Interprets one cell of a result, telling a null cell apart from an
/// empty one. The native library hands back an empty string both for an
/// empty value and for a null; only together with the null flag does the
/// text decide: an empty text with the flag set is an absent value, and
/// everything else is the value itself.
pub fn cell_value(text: String, null: bool) -> (r: Option<String>)
    ensures
        r is None <==> (text@.len() == 0 && null),
        !(text@.len() == 0 && null) ==> r == Some(text),
{
    if text.as_str().is_empty() && null {
        None
    } else {
        Some(text)
    }
}

/// Interprets a native message — an error message, a command status tag,
/// an inserted row's identifier. The native library signals "nothing to
/// report" with an empty string; the binding maps exactly that case to
/// an absent value.
pub fn nonempty_text(text: String) -> (r: Option<String>)
    ensures
        r is None <==> text@.len() == 0,
        text@.len() > 0 ==> r == Some(text),
{
    if text.as_str().is_empty() {
        None
    } else {
        Some(text)
    }
}

} // verus!
