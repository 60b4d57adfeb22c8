//! Ownership-transfer conventions for handing strings, records and lists
//! across a C boundary, stated over safe values.
//!
//! A pointer that owns what it points to is an `Option` of the owned value
//! (`None` is the NULL pointer); a pointer that only lends is a reference.
//! The unsafe edge that turns these into raw pointers lives outside this
//! crate.
//!
//! - [`string`]: the string that crosses the boundary, its readers, and the
//!   list of strings.
//! - [`traits`]: the conventions themselves: values passed by value, values
//!   passed behind a pointer, and lists seen as pointer, length and capacity.
//! - [`uda`]: the record of three strings and the list of records.
//! - [`server`]: how a server is made from strings, and how an error is
//!   reported to the caller.
//! - [`types`]: plain values that are passed by value.
//! - [`util`]: small conversions.

pub mod server;
pub mod string;
pub mod traits;
pub mod types;
pub mod uda;
pub mod util;

pub use server::{
    report, tc_server_free, tc_server_new_local, tc_server_new_remote, wrap, ServerConfig,
    ServerConfigModel, TCServer,
};
pub use string::{
    tc_string_borrow, tc_string_clone, tc_string_clone_with_len, tc_string_content,
    tc_string_content_with_len, tc_string_free, tc_string_is_null, tc_string_list_free,
    tc_string_null, EmbeddedNulError, InvalidUtf8Error, StringModel, TCString, TCStringList,
};
pub use traits::{drop_value_list, CList, PassByPointer, PassByValue};
pub use types::TCUuid;
pub use uda::{tc_uda_free, tc_uda_list_free, TCUda, TCUdaList, Uda};
pub use util::{err_to_tcstring, time_t_to_timestamp, timestamp_to_time_t, vec_into_raw_parts};
