use vstd::prelude::*;
use vstd::utf8::encode_utf8;

verus! {

/// An error of the binding's own.
///
/// The native client library reports most failures as a bare status
/// integer, with no diagnostic beyond what its messages already carry;
/// the binding mirrors that with a single opaque error value.
#[derive(Clone, Copy, Debug, PartialEq, Eq, Structural)]
pub enum Error {
    /// The native library reported failure and nothing more.
    Unknown,
}

/// Interprets the success integer of a native mutating call — setting a
/// result's attribute list, setting a cell's value. The native library
/// answers zero for failure and nonzero for success.
pub fn command_outcome(success: i32) -> (r: Result<(), ()>)
    ensures
        r is Ok <==> success != 0,
{
    if success == 0 {
        Err(())
    } else {
        Ok(())
    }
}

/// Interprets the success integer of selecting single-row mode: the
/// native library answers one when the mode was selected and zero when
/// it could not be. Any other answer is out of contract and is treated
/// as failure.
pub fn single_row_outcome(success: i32) -> (r: Result<(), Error>)
    ensures
        r is Ok <==> success == 1,
        r matches Err(e) ==> e == Error::Unknown,
{
    if success == 1 {
        Ok(())
    } else {
        Err(Error::Unknown)
    }
}

/// Encodes a cell value for the native cell-setting call, which takes a
/// length in bytes together with the value and takes the length `-1` to
/// mean a null cell. A present value yields its byte length; an absent
/// one yields the null sentinel, so null and empty are kept distinct.
pub fn set_value_length(value: &Option<String>) -> (r: i32)
    requires
        value matches Some(v) ==> encode_utf8(v@).len() <= i32::MAX,
    ensures
        value matches Some(v) ==> r == encode_utf8(v@).len(),
        value is None ==> r == -1,
{
    match value {
        Some(v) => v.as_str().len() as i32,
        None => -1,
    }
}

} // verus!
