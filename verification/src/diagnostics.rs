//! From syntax errors to the diagnostics an editor shows.
//!
//! The parser counts lines and columns from one; the protocol counts them
//! from zero. Each coordinate is moved down by one, stopping at zero, and
//! every diagnostic gets the same severity, code and source tags.

use crate::config::RuntimeVersion;
use crate::error::LuascanError;
use crate::parser::{parse, syntax_errors, Location, LuascanDiagnostic, SyntaxError};
use vstd::prelude::*;
use vstd::string::StringExecFns;

verus! {

/// A zero-based position in a document.
#[derive(Debug, Clone, Copy, PartialEq, Eq, Structural)]
pub struct Position {
    pub line: u32,
    pub character: u32,
}

/// A span between two positions.
#[derive(Debug, Clone, Copy, PartialEq, Eq, Structural)]
pub struct Range {
    pub start: Position,
    pub end: Position,
}

impl Range {
    /// The span does not end before it starts.
    pub open spec fn ordered(self) -> bool {
        self.start.line < self.end.line || (self.start.line == self.end.line
            && self.start.character <= self.end.character)
    }
}

/// How serious a diagnostic is. Syntax errors are always `Error`.
#[derive(Debug, Clone, Copy, PartialEq, Eq, Structural)]
pub enum DiagnosticSeverity {
    Error,
    Warning,
    Information,
    Hint,
}

/// A syntax problem as the editor is told about it.
#[derive(Debug, Clone)]
pub struct Diagnostic {
    pub range: Range,
    pub severity: DiagnosticSeverity,
    pub code: String,
    pub code_description: String,
    pub source: String,
    pub message: String,
}

/// A diagnostic as a mathematical value.
pub struct DiagnosticView {
    pub range: Range,
    pub severity: DiagnosticSeverity,
    pub code: Seq<char>,
    pub code_description: Seq<char>,
    pub source: Seq<char>,
    pub message: Seq<char>,
}

impl View for Diagnostic {
    type V = DiagnosticView;

    open spec fn view(&self) -> DiagnosticView {
        DiagnosticView {
            range: self.range,
            severity: self.severity,
            code: self.code@,
            code_description: self.code_description@,
            source: self.source@,
            message: self.message@,
        }
    }
}

impl DeepView for Diagnostic {
    type V = DiagnosticView;

    open spec fn deep_view(&self) -> DiagnosticView {
        self@
    }
}

/// The full set of diagnostics for one document. Sending it replaces
/// whatever the client showed for that document before; an empty list
/// clears it.
#[derive(Debug, Clone)]
pub struct PublishDiagnosticsParams {
    pub uri: String,
    pub diagnostics: Vec<Diagnostic>,
}

/// A set of diagnostics for one document as a mathematical value.
pub struct Publication {
    pub uri: Seq<char>,
    pub diagnostics: Seq<DiagnosticView>,
}

impl View for PublishDiagnosticsParams {
    type V = Publication;

    open spec fn view(&self) -> Publication {
        Publication { uri: self.uri@, diagnostics: self.diagnostics.deep_view() }
    }
}

impl DeepView for PublishDiagnosticsParams {
    type V = Publication;

    open spec fn deep_view(&self) -> Publication {
        self@
    }
}

/// The code every diagnostic of this crate carries.
pub const DIAGNOSTIC_CODE: &'static str = "luascan code";

/// The page the code of a diagnostic links to.
pub const DIAGNOSTIC_CODE_HREF: &'static str = "http://example.com";

/// The source every diagnostic of this crate names.
pub const DIAGNOSTIC_SOURCE: &'static str = "luascan source";

/// One below the low 32 bits of `raw`, but never below zero.
///
/// Protocol coordinates are 32 bits wide. Every value that fits is moved
/// down by one, zero stays zero; a wider value keeps only its low 32 bits.
pub open spec fn coordinate(raw: int) -> int {
    let low = raw % 0x1_0000_0000;
    if low == 0 {
        0
    } else {
        low - 1
    }
}

/// The protocol span of a parser span.
pub open spec fn range_of(loc: Location) -> Range {
    Range {
        start: Position {
            line: coordinate(loc.line_start as int) as u32,
            character: coordinate(loc.col_start as int) as u32,
        },
        end: Position {
            line: coordinate(loc.line_end as int) as u32,
            character: coordinate(loc.col_end as int) as u32,
        },
    }
}

/// The diagnostic that stands for a syntax error.
pub open spec fn diagnostic_of(error: SyntaxError) -> DiagnosticView {
    DiagnosticView {
        range: range_of(error.loc),
        severity: DiagnosticSeverity::Error,
        code: DIAGNOSTIC_CODE@,
        code_description: DIAGNOSTIC_CODE_HREF@,
        source: DIAGNOSTIC_SOURCE@,
        message: error.msg,
    }
}

/// The diagnostics for a text under a runtime: one per syntax error, in the
/// parser's order, or the refusal of the runtime.
pub open spec fn diagnostics_of(text: Seq<char>, version: RuntimeVersion) -> Result<
    Seq<DiagnosticView>,
    LuascanError,
> {
    match syntax_errors(text, version) {
        Ok(errors) => Ok(errors.map_values(|error| diagnostic_of(error))),
        Err(e) => Err(e),
    }
}

/// Whether `outcome` is what diagnosing `text` for `version` yields.
pub open spec fn is_diagnosis_of(
    outcome: Result<Vec<Diagnostic>, LuascanError>,
    text: Seq<char>,
    version: RuntimeVersion,
) -> bool {
    match outcome {
        Ok(found) => diagnostics_of(text, version) == Ok::<Seq<DiagnosticView>, LuascanError>(
            found.deep_view(),
        ),
        Err(e) => diagnostics_of(text, version) == Err::<Seq<DiagnosticView>, LuascanError>(e),
    }
}

/// Moves a 1-based coordinate to the protocol's 0-based one.
pub fn protocol_coordinate(raw: usize) -> (moved: u32)
    ensures
        moved == coordinate(raw as int),
        raw <= u32::MAX ==> moved == if raw == 0 {
            0
        } else {
            raw - 1
        },
{
    let low: u64 = (raw as u64) % 0x1_0000_0000u64;
    let narrow: u32 = low as u32;
    narrow.saturating_sub(1)
}

/// Moves a parser span to protocol coordinates, each of the four on its own.
pub fn protocol_range(loc: &Location) -> (range: Range)
    ensures
        range == range_of(*loc),
{
    Range {
        start: Position {
            line: protocol_coordinate(loc.line_start),
            character: protocol_coordinate(loc.col_start),
        },
        end: Position {
            line: protocol_coordinate(loc.line_end),
            character: protocol_coordinate(loc.col_end),
        },
    }
}

/// Builds the diagnostic for one syntax error.
pub fn to_diagnostic(error: &LuascanDiagnostic) -> (diagnostic: Diagnostic)
    ensures
        diagnostic@ == diagnostic_of(error@),
{
    Diagnostic {
        range: protocol_range(&error.loc),
        severity: DiagnosticSeverity::Error,
        code: String::from_str(DIAGNOSTIC_CODE),
        code_description: String::from_str(DIAGNOSTIC_CODE_HREF),
        source: String::from_str(DIAGNOSTIC_SOURCE),
        message: error.msg.clone(),
    }
}

/// Builds the diagnostics for a list of syntax errors, keeping their order.
pub fn to_diagnostics(errors: &Vec<LuascanDiagnostic>) -> (found: Vec<Diagnostic>)
    ensures
        found.deep_view() == errors.deep_view().map_values(|error| diagnostic_of(error)),
{
    let mut found: Vec<Diagnostic> = Vec::new();
    let mut i: usize = 0;
    while i < errors.len()
        invariant
            i <= errors.len(),
            found.len() == i,
            forall|k: int| 0 <= k < i ==> (#[trigger] found[k])@ == diagnostic_of(errors[k]@),
        decreases errors.len() - i,
    {
        found.push(to_diagnostic(&errors[i]));
        i += 1;
    }
    assert(found.deep_view() =~= errors.deep_view().map_values(|error| diagnostic_of(error)));
    found
}

/// Runs the whole pipeline on one text: parse it for the runtime `version`,
/// then turn every syntax error into a diagnostic. The list is empty exactly
/// when the parser accepted the text. Under a runtime that can be parsed
/// every text yields a list.
pub fn diagnose(text: &str, version: RuntimeVersion) -> (outcome: Result<
    Vec<Diagnostic>,
    LuascanError,
>)
    ensures
        is_diagnosis_of(outcome, text@, version),
{
    match parse(text, version) {
        Ok(errors) => Ok(to_diagnostics(&errors)),
        Err(e) => Err(e),
    }
}

/// What is published for the document `uri` when its text is `text`: the
/// full set of its diagnostics, or the refusal of the runtime.
pub open spec fn publication_of(uri: Seq<char>, text: Seq<char>, version: RuntimeVersion) -> Result<
    Publication,
    LuascanError,
> {
    match diagnostics_of(text, version) {
        Ok(diagnostics) => Ok(Publication { uri, diagnostics }),
        Err(e) => Err(e),
    }
}

/// Whether `answer` is the exec form of the publication `expected`.
pub open spec fn is_publication(
    answer: Result<PublishDiagnosticsParams, LuascanError>,
    expected: Result<Publication, LuascanError>,
) -> bool {
    match answer {
        Ok(sent) => expected == Ok::<Publication, LuascanError>(sent@),
        Err(e) => expected == Err::<Publication, LuascanError>(e),
    }
}

/// Diagnoses the text of one document and packs the result for sending.
pub fn diagnose_document(uri: String, content: &str, version: RuntimeVersion) -> (outcome: Result<
    PublishDiagnosticsParams,
    LuascanError,
>)
    ensures
        is_publication(outcome, publication_of(uri@, content@, version)),
{
    match diagnose(content, version) {
        Ok(diagnostics) => Ok(PublishDiagnosticsParams { uri, diagnostics }),
        Err(e) => Err(e),
    }
}

/// A span that starts at line 1, column 1 starts at the protocol's origin.
pub proof fn first_position_is_origin(loc: Location)
    requires
        loc.line_start == 1,
        loc.col_start == 1,
    ensures
        range_of(loc).start == (Position { line: 0, character: 0 }),
{
}

/// No coordinate falls below zero: zero stays zero, and whatever comes out
/// fits the protocol's 32 bits.
pub proof fn coordinate_saturates_at_zero(raw: int)
    requires
        raw >= 0,
    ensures
        0 <= coordinate(raw) < 0x1_0000_0000,
        raw == 0 ==> coordinate(raw) == 0,
        0 < raw < 0x1_0000_0000 ==> coordinate(raw) == raw - 1,
{
}

/// A span that does not end before it starts keeps that order in protocol
/// coordinates, as long as its lines are counted from one and its lines and
/// columns fit 32 bits. (From line 0 the order can be lost: line 0 and
/// line 1 both land on line 0.)
pub proof fn range_keeps_order(loc: Location)
    requires
        loc.well_formed(),
        loc.line_start >= 1,
        loc.line_end <= u32::MAX,
        loc.col_start <= u32::MAX,
        loc.col_end <= u32::MAX,
    ensures
        range_of(loc).ordered(),
{
}

/// The pipeline neither drops nor invents errors: under a runtime that can
/// be parsed it yields, for every text, one diagnostic per syntax error,
/// with the same message and the moved span, and so none exactly when there
/// is no error.
pub proof fn diagnostics_follow_errors(text: Seq<char>, version: RuntimeVersion)
    requires
        version.supported(),
    ensures
        syntax_errors(text, version) is Ok,
        diagnostics_of(text, version) is Ok,
        diagnostics_of(text, version)->Ok_0.len() == syntax_errors(text, version)->Ok_0.len(),
        forall|i: int|
            0 <= i < syntax_errors(text, version)->Ok_0.len() ==> {
                &&& (#[trigger] diagnostics_of(text, version)->Ok_0[i]).message == syntax_errors(
                    text,
                    version,
                )->Ok_0[i].msg
                &&& diagnostics_of(text, version)->Ok_0[i].range == range_of(
                    syntax_errors(text, version)->Ok_0[i].loc,
                )
                &&& diagnostics_of(text, version)->Ok_0[i].severity == DiagnosticSeverity::Error
            },
{
}

/// A text has no diagnostics exactly when the parser finds no error in it:
/// whatever the parser accepts comes out clean, and nothing else does.
pub proof fn clean_exactly_when_accepted(text: Seq<char>, version: RuntimeVersion)
    ensures
        diagnostics_of(text, version) == Ok::<Seq<DiagnosticView>, LuascanError>(
            Seq::<DiagnosticView>::empty(),
        ) <==> syntax_errors(text, version) == Ok::<Seq<SyntaxError>, LuascanError>(
            Seq::<SyntaxError>::empty(),
        ),
{
    if let Ok(errors) = syntax_errors(text, version) {
        let found = errors.map_values(|error| diagnostic_of(error));
        assert(found.len() == errors.len());
        if errors.len() == 0 {
            assert(errors =~= Seq::<SyntaxError>::empty());
            assert(found =~= Seq::<DiagnosticView>::empty());
        }
    }
}

} // verus!
