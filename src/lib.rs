//! Locating and running repository hook scripts, with the decisions of a
//! deadline-bounded run stated and proved.

pub mod backoff;
pub mod error;
pub mod hooks;
pub mod hookspath;
pub mod outcome;
pub mod paths;
pub mod run;
