//! The compile/output pipeline's decision logic: classifying how a
//! compilation attempt ended, and planning how to persist the produced
//! artifact at a caller-chosen destination. The filesystem and process
//! work itself happens outside the library; these functions take its
//! observed outcomes as plain values and decide what follows from them.

use crate::engine::LatexEngine;
use crate::error::CompileError;
use vstd::prelude::*;
use vstd::string::StringExecFns;

verus! {

/// LaTeX output save error. Each variant is a distinct failure the caller
/// can react to differently; paths and causes are carried as text.
#[derive(Debug, Clone)]
pub enum LatexOutputSaveError {
    /// Unable to create the destination directory chain; carries the cause.
    CreateDestDir(String),
    /// Unable to access the destination path due to denied permission;
    /// carries the cause.
    PermissionDenied(String),
    /// The save path has no parent directory at all; carries the path.
    InvalidPath(String),
    /// Unable to copy the artifact to the destination; carries the path
    /// and the cause.
    SaveFail(String, String),
    /// Other unmanaged failures while probing the destination.
    Other(String),
}

/// The text of a save error's description.
pub open spec fn save_error_text(e: LatexOutputSaveError) -> Seq<char> {
    match e {
        LatexOutputSaveError::CreateDestDir(m) => "unable to create destination directory: "@ + m@,
        LatexOutputSaveError::PermissionDenied(m) => "unable to access destination path: "@ + m@,
        LatexOutputSaveError::InvalidPath(p) => "invalid save path: "@ + p@,
        LatexOutputSaveError::SaveFail(p, m) => "unable to save to destination '"@ + p@ + "': "@
            + m@,
        LatexOutputSaveError::Other(m) => m@,
    }
}

impl LatexOutputSaveError {
    /// The human-readable description of the failure.
    pub fn message(&self) -> (r: String)
        ensures
            r@ == save_error_text(*self),
    {
        match self {
            LatexOutputSaveError::CreateDestDir(m) => {
                let mut s = "unable to create destination directory: ".to_owned();
                s.append(m.as_str());
                s
            },
            LatexOutputSaveError::PermissionDenied(m) => {
                let mut s = "unable to access destination path: ".to_owned();
                s.append(m.as_str());
                s
            },
            LatexOutputSaveError::InvalidPath(p) => {
                let mut s = "invalid save path: ".to_owned();
                s.append(p.as_str());
                s
            },
            LatexOutputSaveError::SaveFail(p, m) => {
                let mut s = "unable to save to destination '".to_owned();
                s.append(p.as_str());
                s.append("': ");
                s.append(m.as_str());
                s
            },
            LatexOutputSaveError::Other(m) => m.clone(),
        }
    }
}

/// LaTeX document output type.
#[derive(Debug, Clone, Copy, PartialEq, Eq, Structural)]
pub enum LatexOutputType {
    Pdf,
}

/// The file extension of an output type.
pub open spec fn output_type_ext(t: LatexOutputType) -> Seq<char> {
    match t {
        LatexOutputType::Pdf => "pdf"@,
    }
}

impl Default for LatexOutputType {
    /// The PDF output type.
    fn default() -> (r: Self)
        ensures
            r == LatexOutputType::Pdf,
    {
        LatexOutputType::Pdf
    }
}

impl LatexOutputType {
    /// Returns the output type's file extension.
    pub fn ext(&self) -> (r: String)
        ensures
            r@ == output_type_ext(*self),
    {
        match self {
            LatexOutputType::Pdf => "pdf".to_owned(),
        }
    }
}

/// What probing a filesystem path reported: the input to save planning.
#[derive(Debug, Clone)]
pub enum PathProbe {
    /// The path exists and is a directory.
    Directory,
    /// The path exists and is a regular file.
    RegularFile,
    /// The path does not exist.
    Missing,
    /// Probing was denied; carries the cause.
    AccessDenied(String),
    /// Probing failed some other way; carries the cause.
    Failed(String),
}

/// The next action a save has to take; the caller performs it.
#[derive(Debug, Clone, Copy, PartialEq, Eq, Structural)]
pub enum SaveStep {
    /// The destination is a directory: copy the artifact into it under the
    /// artifact's default file name.
    CopyIntoDir,
    /// The destination is an existing regular file: ask the caller's
    /// overwrite decision, and copy only if it says so.
    ConfirmOverwrite,
    /// The destination is free and its parent directory exists: copy
    /// directly.
    CopyDirect,
    /// The destination is free but its parent directory chain does not
    /// exist yet: create the full chain, then copy.
    CreateParentsThenCopy,
}

/// Decides how to save the artifact, from the probe of the destination
/// path and - only relevant when the destination is missing - the probe of
/// its parent directory (`None` when the path has no parent at all).
/// Every failure is a distinct error: a denied probe is permission
/// trouble, never a generic failure, and a parentless path is rejected
/// rather than anything panicking. A missing destination whose parent
/// turns out to be a regular file is outside the plan, as it is for the
/// caller's own probing to rule out.
pub fn plan_save(dest: PathProbe, parent: Option<PathProbe>, dest_path: &str) -> (r: Result<
    SaveStep,
    LatexOutputSaveError,
>)
    requires
        !(dest is Missing && parent matches Option::Some(PathProbe::RegularFile)),
    ensures
        (match dest {
            PathProbe::Directory => r == Result::<SaveStep, LatexOutputSaveError>::Ok(
                SaveStep::CopyIntoDir,
            ),
            PathProbe::RegularFile => r == Result::<SaveStep, LatexOutputSaveError>::Ok(
                SaveStep::ConfirmOverwrite,
            ),
            PathProbe::AccessDenied(m) => r matches Result::Err(
                LatexOutputSaveError::PermissionDenied(e),
            ) && e@ == m@,
            PathProbe::Failed(m) => r matches Result::Err(LatexOutputSaveError::Other(e)) && e@
                == m@,
            PathProbe::Missing => (match parent {
                Option::None => r matches Result::Err(LatexOutputSaveError::InvalidPath(p)) && p@
                    == dest_path@,
                Option::Some(PathProbe::Directory) => r == Result::<
                    SaveStep,
                    LatexOutputSaveError,
                >::Ok(SaveStep::CopyDirect),
                Option::Some(PathProbe::Missing) => r == Result::<
                    SaveStep,
                    LatexOutputSaveError,
                >::Ok(SaveStep::CreateParentsThenCopy),
                Option::Some(PathProbe::AccessDenied(m)) => r matches Result::Err(
                    LatexOutputSaveError::PermissionDenied(e),
                ) && e@ == m@,
                Option::Some(PathProbe::Failed(m)) => r matches Result::Err(
                    LatexOutputSaveError::Other(e),
                ) && e@ == m@,
                Option::Some(PathProbe::RegularFile) => false,
            }),
        }),
{
    match dest {
        PathProbe::Directory => Ok(SaveStep::CopyIntoDir),
        PathProbe::RegularFile => Ok(SaveStep::ConfirmOverwrite),
        PathProbe::AccessDenied(m) => Err(LatexOutputSaveError::PermissionDenied(m)),
        PathProbe::Failed(m) => Err(LatexOutputSaveError::Other(m)),
        PathProbe::Missing => match parent {
            None => Err(LatexOutputSaveError::InvalidPath(dest_path.to_owned())),
            Some(PathProbe::Directory) => Ok(SaveStep::CopyDirect),
            Some(PathProbe::Missing) => Ok(SaveStep::CreateParentsThenCopy),
            Some(PathProbe::AccessDenied(m)) => Err(LatexOutputSaveError::PermissionDenied(m)),
            Some(PathProbe::Failed(m)) => Err(LatexOutputSaveError::Other(m)),
            Some(PathProbe::RegularFile) => {
                proof {
                    assert(false);
                }
                Err(LatexOutputSaveError::Other(String::new()))
            },
        },
    }
}

/// How one compilation attempt ended, as observed by the runner: the
/// input to outcome classification.
#[derive(Debug, Clone)]
pub enum CompileEvent {
    /// Writing the rendered source into the workspace failed; carries the
    /// cause.
    SourceWriteFailed(String),
    /// The external compiler process could not be spawned at all; carries
    /// the cause.
    SpawnFailed(String),
    /// The external compiler process ran to completion with this exit
    /// code, or without one when it was terminated by a signal.
    Exited(Option<i32>),
}

/// Classifies a compilation attempt: a failure to write the source or to
/// spawn the process is an I/O error, distinct from a compiler that ran
/// and exited non-zero, which carries the engine identity and the exit
/// status; exit status zero alone is success.
pub fn classify_compile(engine: LatexEngine, event: CompileEvent) -> (r: Result<(), CompileError>)
    ensures
        (match event {
            CompileEvent::SourceWriteFailed(m) => r matches Result::Err(CompileError::IO(e)) && e@
                == m@,
            CompileEvent::SpawnFailed(m) => r matches Result::Err(CompileError::IO(e)) && e@
                == m@,
            CompileEvent::Exited(code) => if code == Option::Some(0i32) {
                r is Ok
            } else {
                r matches Result::Err(
                    CompileError::BadExitStatus { engine: e, exit_code: c },
                ) && e == engine && c == code
            },
        }),
{
    match event {
        CompileEvent::SourceWriteFailed(m) => Err(CompileError::IO(m)),
        CompileEvent::SpawnFailed(m) => Err(CompileError::IO(m)),
        CompileEvent::Exited(code) => match code {
            Some(c) if c == 0 => Ok(()),
            _ => Err(CompileError::BadExitStatus { engine, exit_code: code }),
        },
    }
}

/// The default file stem of the source and artifact inside a workspace.
pub fn output_file_stem() -> (r: String)
    ensures
        r@ == "pgfplot"@,
{
    "pgfplot".to_owned()
}

/// The file name `stem.ext`.
pub fn file_name_with_ext(stem: &str, ext: &str) -> (r: String)
    ensures
        r@ == stem@ + "."@ + ext@,
{
    let mut s = stem.to_owned();
    s.append(".");
    s.append(ext);
    s
}

} // verus!
