//! The library's error taxonomy. Every failure is surfaced as a typed
//! value carrying its context - which engine, which exit status, which
//! path - and never by aborting the process.

use crate::document::preamble::compat::compat_error_text;
use crate::document::preamble::PgfPlotsCompatError;
use crate::engine::{engine_name, LatexEngine};
use crate::output::{save_error_text, LatexOutputSaveError};
use crate::text::{int_digits, render_i32};
use vstd::prelude::*;
use vstd::string::StringExecFns;

verus! {

/// The error type of a compilation attempt.
#[derive(Debug)]
pub enum CompileError {
    /// The temporary workspace directory could not be allocated; carries
    /// the cause.
    TempDir(String),
    /// An I/O failure while writing the source file or spawning the
    /// external process; carries the cause.
    IO(String),
    /// Compilation was executed but returned a non-zero exit code; carries
    /// the engine used and the exit code, when one exists.
    BadExitStatus { engine: LatexEngine, exit_code: Option<i32> },
}

/// The text of an exit status: its code, or a note that a signal ended
/// the process.
pub open spec fn exit_status_text(code: Option<i32>) -> Seq<char> {
    match code {
        Option::Some(c) => "exit status: "@ + int_digits(c as int),
        Option::None => "terminated by signal"@,
    }
}

/// The text of a compile error's description.
pub open spec fn compile_error_text(e: CompileError) -> Seq<char> {
    match e {
        CompileError::TempDir(m) => "tmp directory: "@ + m@,
        CompileError::IO(m) => "I/O: "@ + m@,
        CompileError::BadExitStatus { engine, exit_code } => "`"@ + engine_name(engine)
            + "` LaTeX compiler exited with non-zero exit code: "@ + exit_status_text(exit_code),
    }
}

impl CompileError {
    /// The human-readable description of the failure.
    pub fn message(&self) -> (r: String)
        ensures
            r@ == compile_error_text(*self),
    {
        match self {
            CompileError::TempDir(m) => {
                let mut s = "tmp directory: ".to_owned();
                s.append(m.as_str());
                s
            },
            CompileError::IO(m) => {
                let mut s = "I/O: ".to_owned();
                s.append(m.as_str());
                s
            },
            CompileError::BadExitStatus { engine, exit_code } => {
                let mut s = "`".to_owned();
                s.append(engine.name().as_str());
                s.append("` LaTeX compiler exited with non-zero exit code: ");
                match exit_code {
                    Some(c) => {
                        s.append("exit status: ");
                        s.append(render_i32(*c).as_str());
                    },
                    None => {
                        s.append("terminated by signal");
                    },
                }
                proof {
                    assert(s@ =~= compile_error_text(*self));
                }
                s
            },
        }
    }
}

/// Any error of the library: the compile pipeline, exposing the artifact,
/// saving it, or the compatibility-version configuration.
#[derive(Debug)]
pub enum PgfPlotsError {
    /// The compile pipeline failed.
    Compile(CompileError),
    /// The host could not launch a viewer for the produced output;
    /// carries the cause.
    Show(String),
    /// Saving the produced output failed.
    Save(LatexOutputSaveError),
    /// An invalid compatibility version was assigned.
    Compat(PgfPlotsCompatError),
}

/// The text of a library error's description.
pub open spec fn error_text(e: PgfPlotsError) -> Seq<char> {
    match e {
        PgfPlotsError::Compile(inner) => "compilation failed: "@ + compile_error_text(inner),
        PgfPlotsError::Show(m) => "unable to open produced output: "@ + m@,
        PgfPlotsError::Save(inner) => "unable to save produced output: "@ + save_error_text(inner),
        PgfPlotsError::Compat(PgfPlotsCompatError::BadCompatVersion(v)) => "compat version: "@
            + compat_error_text(v@),
    }
}

impl PgfPlotsError {
    /// The compile error `e`, wrapped.
    pub fn from_compile(e: CompileError) -> (r: Self)
        ensures
            r == PgfPlotsError::Compile(e),
    {
        PgfPlotsError::Compile(e)
    }

    /// The save error `e`, wrapped.
    pub fn from_save(e: LatexOutputSaveError) -> (r: Self)
        ensures
            r == PgfPlotsError::Save(e),
    {
        PgfPlotsError::Save(e)
    }

    /// The compatibility error `e`, wrapped.
    pub fn from_compat(e: PgfPlotsCompatError) -> (r: Self)
        ensures
            r == PgfPlotsError::Compat(e),
    {
        PgfPlotsError::Compat(e)
    }

    /// The human-readable description of the failure.
    pub fn message(&self) -> (r: String)
        ensures
            r@ == error_text(*self),
    {
        match self {
            PgfPlotsError::Compile(inner) => {
                let mut s = "compilation failed: ".to_owned();
                s.append(inner.message().as_str());
                s
            },
            PgfPlotsError::Show(m) => {
                let mut s = "unable to open produced output: ".to_owned();
                s.append(m.as_str());
                s
            },
            PgfPlotsError::Save(inner) => {
                let mut s = "unable to save produced output: ".to_owned();
                s.append(inner.message().as_str());
                s
            },
            PgfPlotsError::Compat(inner) => {
                let mut s = "compat version: ".to_owned();
                s.append(inner.message().as_str());
                proof {
                    assert(s@ =~= error_text(*self));
                }
                s
            },
        }
    }
}

} // verus!
