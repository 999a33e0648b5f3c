//! The account usage record.

use crate::handle::{reconstruction, ConversionError, Handle, ReprC};
use vstd::prelude::*;

verus! {

/// Represents the FFI-safe account info
#[derive(Clone, Copy, Debug, PartialEq, Eq)]
pub struct AccountInfo {
    /// Number of used mutations
    pub mutations_done: u64,
    /// Number of available mutations
    pub mutations_available: u64,
}

impl ReprC for AccountInfo {
    fn clone_from_repr_c(repr_c: Handle<'_, AccountInfo>) -> (res: Result<
        AccountInfo,
        ConversionError,
    >) {
        match repr_c.target() {
            Some(record) => Ok(*record),
            None => Err(ConversionError::NullHandle),
        }
    }
}

} // verus!
