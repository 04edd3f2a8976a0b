//! Fixed-width, alignment-aware rendering of tabular data for terminal or
//! log output.
//!
//! A [`table::Table`] is built in two phases: headers first, then data rows.
//! The phases are distinct types, so adding a header after the first row is
//! rejected at compile time. Column widths track the running maximum visual
//! width of the header and every cell seen so far; rendering pads each field
//! to that width, floored at eight columns.

pub mod laws;
pub mod measure;
pub mod render;
pub mod table;

pub use measure::width;
pub use table::Alignment;
pub use table::Header;
pub use table::ModifyHeader;
pub use table::ModifyRows;
pub use table::Row;
pub use table::Table;
