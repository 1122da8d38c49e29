//! Verified core of a binding to the cairo drawing context: the statuses that
//! cairo reports and the check made after each operation, the enumerated
//! settings of a context with their codes in cairo's C interface, and the
//! counts that pass between Rust slices and C arrays.

mod counts;
mod settings;
mod status;

pub use counts::{clip_rectangle_count, count_from_c, count_to_c};
pub use settings::{Antialias, FillRule, FontSlant, FontWeight, LineCap, LineJoin, TextClusterFlags};
pub use status::{check_status, Status};
