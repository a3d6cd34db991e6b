//! Verified translation layer for a binding to the PostgreSQL client library.
//!
//! A binding to the native client library is a pass-through: every operation
//! delegates to the native code, and the binding's own work is limited to
//! translating the C-style conventions — integer status codes, sentinel
//! values, null pointers, empty strings — into typed, ownership-safe values.
//! That translation is the logic of such a binding, and this crate states and
//! proves it: which status code means which outcome, which sentinel means
//! "absent", how a null cell is told apart from an empty one, and when a
//! native call's integer return counts as success.
//!
//! The raw foreign calls themselves stay outside this crate. Callers make the
//! native call, hand the plain returned values (integers, strings, flags) to
//! the functions here, and get back the typed result the binding promises.

use vstd::prelude::*;

mod attribute;
mod cell;
mod error_field;
mod format;
mod outcome;
mod status;

pub use attribute::Attribute;
pub use cell::cell_value;
pub use cell::count_from_code;
pub use cell::flag_from_code;
pub use cell::modifier_from_code;
pub use cell::nonempty_text;
pub use cell::number_from_code;
pub use cell::oid_from_code;
pub use cell::size_from_code;
pub use cell::INVALID_OID;
pub use error_field::lemma_error_field_code_injective;
pub use error_field::ErrorField;
pub use format::lemma_format_code_round_trip;
pub use format::Format;
pub use outcome::command_outcome;
pub use outcome::set_value_length;
pub use outcome::single_row_outcome;
pub use outcome::Error;
pub use status::lemma_status_code_faithful;
pub use status::lemma_status_code_round_trip;
pub use status::Status;

verus! {

/// An object identifier, as the native client library represents one.
pub type Oid = u32;

} // verus!
