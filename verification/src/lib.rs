//! NetSentry core: packet decoding, flow tracking, capture accounting and
//! terminal rendering, with their contracts.
//!
//! The layering is one-directional: `render` sits above `flow`, which sits
//! above `decode` and `capture`; `error` is the failure vocabulary shared by
//! all of them.

pub mod capture;
pub mod cli;
pub mod decode;
pub mod error;
pub mod flow;
pub mod render;
pub mod text;

pub use error::{NetSentryError, Result};
