use pgfplots::engine::{LatexEngine, LatexEngineError};
use pgfplots::error::{CompileError, PgfPlotsError};
use pgfplots::output::{
    classify_compile, file_name_with_ext, output_file_stem, plan_save, CompileEvent,
    LatexOutputSaveError, LatexOutputType, PathProbe, SaveStep,
};

#[test]
fn engine_names_and_flags() {
    assert_eq!("pdflatex", LatexEngine::PdfLatex.name());
    assert_eq!("lualatex", LatexEngine::LuaLatex.name());
    assert_eq!(LatexEngine::LuaLatex, LatexEngine::default());
    assert_eq!(
        ("-interaction=batchmode", "-halt-on-error"),
        LatexEngine::PdfLatex.args()
    );
    assert_eq!(
        ("--interaction=batchmode", "--halt-on-error"),
        LatexEngine::LuaLatex.args()
    );
}

#[test]
fn engine_from_str_round_trips() {
    assert_eq!(LatexEngine::PdfLatex, LatexEngine::from_str("pdflatex").unwrap());
    assert_eq!(LatexEngine::LuaLatex, LatexEngine::from_str("lualatex").unwrap());
    let err = LatexEngine::from_str("xelatex").unwrap_err();
    let LatexEngineError::NoSuchEngine(name) = &err;
    assert_eq!("xelatex", name.as_str());
    assert_eq!(
        "no such latex engine exists with name `xelatex`",
        err.message()
    );
}

#[test]
fn spawn_failure_is_distinct_from_bad_exit() {
    let spawn = classify_compile(
        LatexEngine::PdfLatex,
        CompileEvent::SpawnFailed("No such file or directory".to_string()),
    )
    .unwrap_err();
    assert!(matches!(spawn, CompileError::IO(_)));

    let exit = classify_compile(LatexEngine::PdfLatex, CompileEvent::Exited(Some(1))).unwrap_err();
    assert!(matches!(exit, CompileError::BadExitStatus { .. }));
}

#[test]
fn exit_status_classification() {
    assert!(classify_compile(LatexEngine::LuaLatex, CompileEvent::Exited(Some(0))).is_ok());
    let failed = classify_compile(LatexEngine::LuaLatex, CompileEvent::Exited(Some(2)));
    match failed {
        Err(CompileError::BadExitStatus { engine, exit_code }) => {
            assert_eq!(LatexEngine::LuaLatex, engine);
            assert_eq!(Some(2), exit_code);
        }
        _ => panic!("a non-zero exit must be a compilation failure"),
    }
    let signalled = classify_compile(LatexEngine::LuaLatex, CompileEvent::Exited(None));
    assert!(matches!(
        signalled,
        Err(CompileError::BadExitStatus { exit_code: None, .. })
    ));
    let write = classify_compile(
        LatexEngine::LuaLatex,
        CompileEvent::SourceWriteFailed("disk full".to_string()),
    );
    assert!(matches!(write, Err(CompileError::IO(_))));
}

#[test]
fn compile_error_messages() {
    let failure = CompileError::BadExitStatus {
        engine: LatexEngine::PdfLatex,
        exit_code: Some(1),
    };
    assert_eq!(
        "`pdflatex` LaTeX compiler exited with non-zero exit code: exit status: 1",
        failure.message()
    );
    assert_eq!(
        "compilation failed: I/O: boom",
        PgfPlotsError::from_compile(CompileError::IO("boom".to_string())).message()
    );
}

#[test]
fn save_plan_creates_missing_parent_chain() {
    let plan = plan_save(
        PathProbe::Missing,
        Some(PathProbe::Missing),
        "deep/new/dir/plot.pdf",
    );
    assert!(matches!(plan, Ok(SaveStep::CreateParentsThenCopy)));
}

#[test]
fn save_plan_cases() {
    assert!(matches!(
        plan_save(PathProbe::Directory, None, "out"),
        Ok(SaveStep::CopyIntoDir)
    ));
    assert!(matches!(
        plan_save(PathProbe::RegularFile, None, "out.pdf"),
        Ok(SaveStep::ConfirmOverwrite)
    ));
    assert!(matches!(
        plan_save(PathProbe::Missing, Some(PathProbe::Directory), "out.pdf"),
        Ok(SaveStep::CopyDirect)
    ));
    let invalid = plan_save(PathProbe::Missing, None, "").unwrap_err();
    assert!(matches!(invalid, LatexOutputSaveError::InvalidPath(_)));
    let denied = plan_save(
        PathProbe::AccessDenied("permission denied".to_string()),
        None,
        "out.pdf",
    )
    .unwrap_err();
    assert!(matches!(denied, LatexOutputSaveError::PermissionDenied(_)));
    let other = plan_save(
        PathProbe::Missing,
        Some(PathProbe::Failed("loop".to_string())),
        "out.pdf",
    )
    .unwrap_err();
    assert!(matches!(other, LatexOutputSaveError::Other(_)));
}

#[test]
fn save_error_messages() {
    assert_eq!(
        "invalid save path: ",
        LatexOutputSaveError::InvalidPath(String::new()).message()
    );
    assert_eq!(
        "unable to save to destination 'out.pdf': denied",
        LatexOutputSaveError::SaveFail("out.pdf".to_string(), "denied".to_string()).message()
    );
    assert_eq!(
        "unable to save produced output: unable to create destination directory: boom",
        PgfPlotsError::from_save(LatexOutputSaveError::CreateDestDir("boom".to_string()))
            .message()
    );
}

#[test]
fn output_type_extension() {
    assert_eq!("pdf", LatexOutputType::Pdf.ext());
    assert_eq!(LatexOutputType::Pdf, LatexOutputType::default());
    assert_eq!("pgfplot", output_file_stem());
    assert_eq!("pgfplot.tex", file_name_with_ext("pgfplot", "tex"));
}
