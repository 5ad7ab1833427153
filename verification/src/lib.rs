//! Wrappers for values bound for process-lifetime storage whose storage must
//! keep an address of its own.
//!
//! Optimizers may merge distinct immutable constants that happen to hold the
//! same bytes, giving them one shared address. Code that compares addresses to
//! tell values apart breaks silently when that happens. The wrappers here are
//! for values whose addresses are compared with `core::ptr::eq`: each one
//! owns a single storage slot for exactly one value, offers nothing beyond
//! construction and read-only access, and is meant to live in a
//! process-lifetime binding of its own, backed by storage the optimizer must
//! keep apart from every constant holding equal bytes.
//!
//! This crate verifies the value-level behaviour of the wrappers: exactly
//! which inputs the constructors accept, the diagnostic each rejected input
//! is refused with, and that reading a wrapper back yields the wrapped value
//! unchanged. Address identity itself is a storage-class property of the
//! binding site and lies outside the verifier's model of values; the crate's
//! tests exercise it by comparing addresses of live bindings.

mod bytes;
mod cstr;
mod error;
mod slot;
mod text;
mod wrapper;

pub use bytes::bytes_to_array;
pub use bytes::copy_bytes_to_array;
pub use bytes::is_c_str_bytes;
pub use bytes::is_first_nul;
pub use bytes::validate_c_str_bytes;
pub use cstr::lemma_cstr_bytes_round_trip;
pub use cstr::lemma_cstr_text_round_trip;
pub use cstr::CStrBytes;
pub use cstr::NonDeDuplicatedCStr;
pub use error::ConstructionError;
pub use slot::Slot;
pub use text::lemma_str_round_trip;
pub use text::NonDeDuplicatedStr;
pub use wrapper::lemma_read_stability;
pub use wrapper::NonDeDuplicated;
pub use wrapper::NonDeDuplicatedFlexible;
