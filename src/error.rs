//! Errors of hook resolution.

use vstd::prelude::*;

verus! {

/// Why a hook could not be resolved.
#[derive(Debug, Clone, PartialEq, Eq)]
pub enum HooksError {
    /// Expanding the configured hooks path failed on this variable.
    ShellExpand { var_name: String },
}

} // verus!
