//! A tagged-value store addressed by integer handles.
//!
//! A host creates, compares and releases dynamically typed values through
//! handles, pins the ones it wants to keep, and sweeps the rest away. Every
//! operation is specified over a mathematical model of the store
//! ([`StateModel`]) and of its values ([`ValueModel`]).

pub mod buffer;
pub mod laws;
pub mod model;
pub mod pattern;
pub mod state;
pub mod value;

pub use crate::buffer::{alloc_string, get_string_buf, get_string_len, AllocatedString};
pub use crate::model::StateModel;
pub use crate::pattern::{Pattern, PatternModel, PatternOptions, RegexFlags};
pub use crate::state::{
    free_state, make_bool, make_f64, make_i64, make_regex, make_state, make_string, rtl_and,
    rtl_clear, rtl_eq, rtl_get_bool, rtl_is_permanent, rtl_make_permanent, rtl_not, rtl_or, rtl_type,
    rtl_unmake_permanent, store_pattern, try_make_regex, try_make_string, RtlState,
};
pub use crate::value::{RtlValue, ValueModel};
