//! Select-type grid fields: the options a single- or multi-select field
//! offers, and how a cell's raw value is normalized when it is written.

pub mod cell;
pub mod option;
