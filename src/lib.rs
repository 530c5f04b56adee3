//! A shim for `rustfmt` that pins the toolchain a project asks for, rewrites a
//! few deprecated standard-library re-export paths in the source it is given,
//! and relays the formatter's streams and exit status.

pub mod cli;
pub mod install;
pub mod pre_commit;
pub mod relay;
pub mod rewrite;
pub mod text;
pub mod toolchain;
