//! The LaTeX engines that can compile a document into a PDF, and the
//! engine-specific command-line flags handed to the external process.

use crate::text::str_eq;
use vstd::prelude::*;
use vstd::string::StringExecFns;

verus! {

/// Latex engine error.
#[derive(Debug)]
pub enum LatexEngineError {
    /// No latex engine exists matching the given name; carries the name.
    NoSuchEngine(String),
}

/// The text of the rejection message for an unknown engine name `v`.
pub open spec fn engine_error_text(v: Seq<char>) -> Seq<char> {
    "no such latex engine exists with name `"@ + v + "`"@
}

impl LatexEngineError {
    /// The human-readable description, naming the unknown engine.
    pub fn message(&self) -> (r: String)
        ensures
            (match self {
                LatexEngineError::NoSuchEngine(v) => r@ == engine_error_text(v@),
            }),
    {
        match self {
            LatexEngineError::NoSuchEngine(v) => {
                let mut s = "no such latex engine exists with name `".to_owned();
                s.append(v.as_str());
                s.append("`");
                s
            },
        }
    }
}

/// LaTeX engine used to compile a document into a PDF. Every variant names
/// an external executable which must be installed on the host.
#[derive(Clone, Copy, Debug, PartialEq, Eq, Structural)]
#[non_exhaustive]
pub enum LatexEngine {
    /// **Pdflatex** engine (requires `pdflatex` to be installed; included
    /// with TeXLive).
    PdfLatex,
    /// **LuaLatex** engine (requires `lualatex` to be installed; included
    /// with TeXLive). It uses dynamic memory allocation, so it usually has
    /// enough memory for any pgfplots axis.
    LuaLatex,
}

/// The executable name of an engine.
pub open spec fn engine_name(e: LatexEngine) -> Seq<char> {
    match e {
        LatexEngine::PdfLatex => "pdflatex"@,
        LatexEngine::LuaLatex => "lualatex"@,
    }
}

/// The non-interactive batch-mode flag of an engine.
pub open spec fn engine_batch_flag(e: LatexEngine) -> Seq<char> {
    match e {
        LatexEngine::PdfLatex => "-interaction=batchmode"@,
        LatexEngine::LuaLatex => "--interaction=batchmode"@,
    }
}

/// The halt-on-first-error flag of an engine.
pub open spec fn engine_halt_flag(e: LatexEngine) -> Seq<char> {
    match e {
        LatexEngine::PdfLatex => "-halt-on-error"@,
        LatexEngine::LuaLatex => "--halt-on-error"@,
    }
}

impl Default for LatexEngine {
    /// The `lualatex` engine.
    fn default() -> (r: Self)
        ensures
            r == LatexEngine::LuaLatex,
    {
        LatexEngine::LuaLatex
    }
}

impl LatexEngine {
    /// The name of the external executable to spawn.
    pub fn name(&self) -> (r: String)
        ensures
            r@ == engine_name(*self),
    {
        match self {
            LatexEngine::PdfLatex => "pdflatex".to_owned(),
            LatexEngine::LuaLatex => "lualatex".to_owned(),
        }
    }

    /// The engine named `s`: exactly the executable names of the variants
    /// are accepted, and every other name is rejected with an error
    /// carrying it.
    pub fn from_str(s: &str) -> (r: Result<LatexEngine, LatexEngineError>)
        ensures
            (match r {
                Ok(e) => s@ == engine_name(e),
                Err(LatexEngineError::NoSuchEngine(v)) => v@ == s@ && s@ != engine_name(
                    LatexEngine::PdfLatex,
                ) && s@ != engine_name(LatexEngine::LuaLatex),
            }),
    {
        if str_eq(s, "pdflatex") {
            Ok(LatexEngine::PdfLatex)
        } else if str_eq(s, "lualatex") {
            Ok(LatexEngine::LuaLatex)
        } else {
            Err(LatexEngineError::NoSuchEngine(s.to_owned()))
        }
    }

    /// The two command-line flags handed to the engine: batch mode and
    /// halt on error, in that order.
    pub fn args(&self) -> (r: (&'static str, &'static str))
        ensures
            r.0@ == engine_batch_flag(*self),
            r.1@ == engine_halt_flag(*self),
    {
        match self {
            LatexEngine::PdfLatex => ("-interaction=batchmode", "-halt-on-error"),
            LatexEngine::LuaLatex => ("--interaction=batchmode", "--halt-on-error"),
        }
    }
}

} // verus!
