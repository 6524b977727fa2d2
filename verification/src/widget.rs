//! State types owned by the reusable widgets themselves, as opposed to the
//! per-page demo state under `page`.

pub mod checkbox;
pub mod ribbon;
pub mod side_nav;
