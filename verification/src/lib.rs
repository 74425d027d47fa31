//! A PGFPlots code generator: build a tree of pictures, axes and plots,
//! render it deterministically into standalone LaTeX source, and classify
//! the outcomes of compiling and saving the produced artifact.
//!
//! Every renderer carries a contract pinning the exact text it emits, and
//! the attribute lists enforce the last-write-wins override rule for
//! mutually exclusive options.

pub mod attr;
pub mod decimal;
pub mod document;
pub mod engine;
pub mod error;
pub mod libs;
pub mod output;
pub mod text;
