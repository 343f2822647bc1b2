//! A Jupyter kernel's protocol core: the signed multi-part envelope, the
//! per-channel request handling, and the evaluation session that accumulates
//! source definitions.

pub mod channels;
pub mod contents;
pub mod control;
pub mod crypto;
pub mod envelope;
pub mod evaluator;
pub mod iopub;
pub mod json;
pub mod kernel_info;
pub mod messages;
pub mod repl;
pub mod session;
pub mod shell;
pub mod text;
pub mod wire;
