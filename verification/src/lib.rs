//! A safe bridge between host-supplied content filters and a version-control
//! content engine: filter directions, load flags, per-invocation metadata,
//! buffers, payload cells, callback dispatch and filter pipelines, each with
//! a verified contract.

pub mod buf;
pub mod callback;
pub mod cstring;
pub mod descriptor;
pub mod error;
pub mod filter;
pub mod flag;
pub mod list;
pub mod mode;
pub mod oid;
pub mod options;
pub mod payload;
pub mod source;
pub mod trampoline;
