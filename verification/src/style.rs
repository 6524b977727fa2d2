//! The interaction statuses the styling catalog distinguishes. The
//! colours themselves are picked by the host toolkit's renderer.

pub mod quad;
