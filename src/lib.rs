//! A small aggregate of three signed integers with value semantics, the text
//! that shows one of its values, and the sequence of snapshots that shows a
//! copy staying unaffected by a later mutation of the original.
pub mod decimal;
pub mod my_struct;

pub use my_struct::{snapshots, snapshots_of, MyStruct, DAY, MONTH, STEP, YEAR};
