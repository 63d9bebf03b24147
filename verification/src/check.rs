//! The one-off run: diagnose a set of source files and report per file.
//!
//! The caller finds the files under the target and reads them; this module
//! runs the same pipeline on each text that the server runs on a document.

use crate::cli::CheckOptions;
use crate::config::RuntimeVersion;
use crate::diagnostics::{diagnose, diagnostics_of, Diagnostic, DiagnosticView};
use crate::error::LuascanError;
use crate::workspace::SourceFile;
use vstd::prelude::*;

verus! {

/// The diagnostics of one file.
#[derive(Debug, Clone)]
pub struct FileReport {
    pub path: String,
    pub diagnostics: Vec<Diagnostic>,
}

/// The diagnostics of one file as a mathematical value.
pub struct FileReportView {
    pub path: Seq<char>,
    pub diagnostics: Seq<DiagnosticView>,
}

impl View for FileReport {
    type V = FileReportView;

    open spec fn view(&self) -> FileReportView {
        FileReportView { path: self.path@, diagnostics: self.diagnostics.deep_view() }
    }
}

impl DeepView for FileReport {
    type V = FileReportView;

    open spec fn deep_view(&self) -> FileReportView {
        self@
    }
}

/// The outcome of a run: the diagnostics, grouped by file.
#[derive(Debug, Clone)]
pub struct CheckReport {
    /// One entry per file that was diagnosed, in the order of the run,
    /// whether or not anything was found in it.
    pub files: Vec<FileReport>,
    /// The paths of the files that could not be read and were passed
    /// over, in the order of the run.
    pub passed_over: Vec<String>,
}

/// Whether a source file gets diagnosed: it was read, and its text can be
/// diagnosed under the runtime.
pub open spec fn diagnosable(source: SourceFile, version: RuntimeVersion) -> bool {
    source.content matches Some(text) && diagnostics_of(text@, version) is Ok
}

/// The paths of the files among `sources` that are passed over, in order.
pub open spec fn passed_over_of(sources: Seq<SourceFile>, version: RuntimeVersion) -> Seq<
    Seq<char>,
>
    decreases sources.len(),
{
    if sources.len() == 0 {
        Seq::<Seq<char>>::empty()
    } else {
        let before = passed_over_of(sources.drop_last(), version);
        if diagnosable(sources.last(), version) {
            before
        } else {
            before.push(sources.last().path@)
        }
    }
}

/// The reports for `sources`: one per file that gets diagnosed, in order,
/// holding the diagnostics of its text.
pub open spec fn reports_for(sources: Seq<SourceFile>, version: RuntimeVersion) -> Seq<
    FileReportView,
>
    decreases sources.len(),
{
    if sources.len() == 0 {
        Seq::<FileReportView>::empty()
    } else {
        let before = reports_for(sources.drop_last(), version);
        let source = sources.last();
        match source.content {
            Some(text) => match diagnostics_of(text@, version) {
                Ok(diagnostics) => before.push(FileReportView { path: source.path@, diagnostics }),
                Err(_) => before,
            },
            None => before,
        }
    }
}

/// Whether any file of the report has a diagnostic.
pub open spec fn any_diagnostic(files: Seq<FileReportView>) -> bool {
    exists|i: int| 0 <= i < files.len() && (#[trigger] files[i]).diagnostics.len() > 0
}

/// The process exit status a report calls for: zero if nothing was found,
/// one if any file has a diagnostic.
pub open spec fn exit_status(files: Seq<FileReportView>) -> int {
    if any_diagnostic(files) {
        1
    } else {
        0
    }
}

impl CheckReport {
    /// How many files were diagnosed.
    pub fn files_checked(&self) -> (count: usize)
        ensures
            count == self.files.deep_view().len(),
    {
        self.files.len()
    }

    /// Whether anything was found in any file.
    pub fn has_diagnostics(&self) -> (yes: bool)
        ensures
            yes == any_diagnostic(self.files.deep_view()),
    {
        let mut i: usize = 0;
        while i < self.files.len()
            invariant
                i <= self.files.len(),
                forall|k: int| 0 <= k < i ==> self.files.deep_view()[k].diagnostics.len() == 0,
            decreases self.files.len() - i,
        {
            if self.files[i].diagnostics.len() > 0 {
                assert(self.files.deep_view()[i as int].diagnostics.len() > 0);
                return true;
            }
            i += 1;
        }
        false
    }

    /// The exit status the process should end with.
    pub fn exit_code(&self) -> (code: i32)
        ensures
            code == exit_status(self.files.deep_view()),
    {
        if self.has_diagnostics() {
            1
        } else {
            0
        }
    }
}

/// Diagnoses every source file that could be read and reports per file. A
/// runtime that cannot be parsed is turned down before any file is looked
/// at. A file that could not be read is passed over and listed as such;
/// the run goes on with the next.
pub fn handle_check(options: CheckOptions, sources: &Vec<SourceFile>) -> (outcome: Result<
    CheckReport,
    LuascanError,
>)
    ensures
        match outcome {
            Ok(report) => {
                &&& options.config.runtime.version.supported()
                &&& report.files.deep_view() == reports_for(
                    sources@,
                    options.config.runtime.version,
                )
                &&& report.passed_over.deep_view() == passed_over_of(
                    sources@,
                    options.config.runtime.version,
                )
            },
            Err(e) => !options.config.runtime.version.supported() && e
                == LuascanError::UnsupportedDialect,
        },
{
    let version = options.config.runtime.version;
    if !version.is_supported() {
        return Err(LuascanError::UnsupportedDialect);
    }
    let mut files: Vec<FileReport> = Vec::new();
    let mut passed_over: Vec<String> = Vec::new();
    let mut i: usize = 0;
    assert(sources@.take(0) =~= Seq::<SourceFile>::empty());
    while i < sources.len()
        invariant
            i <= sources.len(),
            files.deep_view() == reports_for(sources@.take(i as int), version),
            passed_over.deep_view() == passed_over_of(sources@.take(i as int), version),
        decreases sources.len() - i,
    {
        let source = &sources[i];
        let ghost reported = files.deep_view();
        let ghost skipped = passed_over.deep_view();
        proof {
            assert(sources@.take(i + 1).drop_last() =~= sources@.take(i as int));
            assert(sources@.take(i + 1).last() == sources@[i as int]);
        }
        let outcome = match &source.content {
            Some(text) => Some(diagnose(text.as_str(), version)),
            None => None,
        };
        match outcome {
            Some(Ok(diagnostics)) => {
                let report = FileReport { path: source.path.clone(), diagnostics };
                files.push(report);
                assert(files.deep_view() =~= reported.push(report@));
            },
            _ => {
                let path = source.path.clone();
                passed_over.push(path);
                assert(passed_over.deep_view() =~= skipped.push(path@));
            },
        }
        i += 1;
    }
    assert(sources@.take(sources.len() as int) =~= sources@);
    Ok(CheckReport { files, passed_over })
}

/// A run ends with status zero exactly when no file has a diagnostic.
pub proof fn exit_status_reflects_diagnostics(files: Seq<FileReportView>)
    ensures
        exit_status(files) == 0 <==> forall|i: int|
            0 <= i < files.len() ==> (#[trigger] files[i]).diagnostics.len() == 0,
        exit_status(files) == 0 || exit_status(files) == 1,
{
}

} // verus!
