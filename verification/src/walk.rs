//! Walking directories: the entries found (`Entry`, `Info`) and the
//! decisions a walk makes about each path.
pub mod entry;
pub mod info;
pub mod plan;
