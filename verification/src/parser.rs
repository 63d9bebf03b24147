//! Fault-tolerant parsing of Lua sources into positioned syntax errors.
//!
//! The grammar itself belongs to the `full_moon` crate. This module selects
//! the dialect, runs the parser and hands every error it reports on, in the
//! order in which the parser found them.
//!
//! Every text is parsed. Two kinds of text the parser cannot take as they
//! are: one that begins with a shebang line, and one that holds a backtick.
//! For these it gets a copy of the same lines and columns in which the
//! shebang line is blank and a `$` stands for each backtick.

use crate::config::RuntimeVersion;
use crate::error::LuascanError;
use crate::text::{holds_char, starts_with_pair};
use full_moon::tokenizer::Position;
use full_moon::{parse_fallible, Error, LuaVersion};
use vstd::prelude::*;
use vstd::std_specs::iter::IteratorSpec;

verus! {

/// A span in a source text, in the parser's 1-based lines and columns.
#[derive(Debug, Clone, Copy, PartialEq, Eq, Structural)]
pub struct Location {
    pub line_start: usize,
    pub line_end: usize,
    pub col_start: usize,
    pub col_end: usize,
}

impl Location {
    /// A span does not end before it starts.
    pub open spec fn well_formed(self) -> bool {
        self.line_start < self.line_end || (self.line_start == self.line_end && self.col_start
            <= self.col_end)
    }

    /// Whether the span does not end before it starts.
    pub fn is_well_formed(&self) -> (yes: bool)
        ensures
            yes == self.well_formed(),
    {
        self.line_start < self.line_end || (self.line_start == self.line_end && self.col_start
            <= self.col_end)
    }
}

/// One syntax error: where it is and what the parser said about it.
#[derive(Debug, Clone)]
pub struct LuascanDiagnostic {
    pub loc: Location,
    pub msg: String,
}

/// A syntax error as a mathematical value.
pub struct SyntaxError {
    pub loc: Location,
    pub msg: Seq<char>,
}

impl View for LuascanDiagnostic {
    type V = SyntaxError;

    open spec fn view(&self) -> SyntaxError {
        SyntaxError { loc: self.loc, msg: self.msg@ }
    }
}

impl DeepView for LuascanDiagnostic {
    type V = SyntaxError;

    open spec fn deep_view(&self) -> SyntaxError {
        self@
    }
}

/// The dialects the parser can be pinned to.
#[derive(Debug, Clone, Copy, PartialEq, Eq, Structural)]
pub enum Dialect {
    Lua51,
    Lua52,
    Lua53,
    Lua54,
}

/// The parser dialect for a configured runtime, if there is one.
pub open spec fn dialect_of(version: RuntimeVersion) -> Option<Dialect> {
    match version {
        RuntimeVersion::Lua51 => Some(Dialect::Lua51),
        RuntimeVersion::Lua52 => Some(Dialect::Lua52),
        RuntimeVersion::Lua53 => Some(Dialect::Lua53),
        RuntimeVersion::Lua54 => Some(Dialect::Lua54),
        RuntimeVersion::Luajit => None,
    }
}

/// The parser dialect for a configured runtime; an unsupported runtime is
/// turned down here, before any parsing.
pub fn select_dialect(version: RuntimeVersion) -> (choice: Result<Dialect, LuascanError>)
    ensures
        match choice {
            Ok(dialect) => dialect_of(version) == Some(dialect),
            Err(e) => dialect_of(version).is_none() && e == LuascanError::UnsupportedDialect,
        },
{
    match version {
        RuntimeVersion::Lua51 => Ok(Dialect::Lua51),
        RuntimeVersion::Lua52 => Ok(Dialect::Lua52),
        RuntimeVersion::Lua53 => Ok(Dialect::Lua53),
        RuntimeVersion::Lua54 => Ok(Dialect::Lua54),
        RuntimeVersion::Luajit => Err(LuascanError::UnsupportedDialect),
    }
}

/// Whether `code` begins with `#!`, the opening of a shebang line.
pub open spec fn starts_with_shebang(code: Seq<char>) -> bool {
    code.len() >= 2 && code[0] == '#' && code[1] == '!'
}

/// The character that stands for a backtick in what the parser is given.
/// Like a backtick it has no place in any of the dialects, so the parser
/// reports it as unexpected where a token starts; inside a string or a
/// comment it is read like any other character.
pub const STAND_IN: char = '$';

/// Whether the character at `i` is on the first line of `code`: there is no
/// line feed up to and including it.
pub open spec fn on_first_line(code: Seq<char>, i: int) -> bool {
    forall|j: int| 0 <= j <= i ==> code[j] != '\n'
}

/// The text the parser is given for `code`: character for character the
/// same, so that every line and column stays, but for two things. If the
/// text begins with a shebang line, that line is blank. And `STAND_IN`
/// stands for each backtick.
///
/// The parser, as it is built for this crate, has no reading for a backtick
/// where a token starts, and after a shebang line it can lose its first
/// token. A blank line stands for the shebang line because that is how the
/// parser treats it where it does not fail: as space before the first token.
pub open spec fn handed_over(code: Seq<char>) -> Seq<char> {
    Seq::new(
        code.len(),
        |i: int|
            if starts_with_shebang(code) && on_first_line(code, i) {
                ' '
            } else if code[i] == '`' {
                STAND_IN
            } else {
                code[i]
            },
    )
}

/// A text that neither begins with a shebang line nor holds a backtick is
/// handed over as it is.
pub proof fn plain_text_is_handed_over_unchanged(code: Seq<char>)
    requires
        !starts_with_shebang(code),
        !code.contains('`'),
    ensures
        handed_over(code) == code,
{
    assert(handed_over(code) =~= code);
}

/// What is handed over never begins with a shebang line and never holds a
/// backtick, and has the length of the text it was made of.
pub proof fn handed_over_text_can_be_parsed(code: Seq<char>)
    ensures
        handed_over(code).len() == code.len(),
        !starts_with_shebang(handed_over(code)),
        !handed_over(code).contains('`'),
{
    let copy = handed_over(code);
    if starts_with_shebang(code) {
        assert(on_first_line(code, 0));
    }
    if copy.contains('`') {
        let i = choose|i: int| 0 <= i < copy.len() && copy[i] == '`';
        assert(copy[i] != '`');
    }
}

/// `String::push`: appends one character to the end of the string.
#[verifier::external_body]
fn push_char(text: &mut String, c: char)
    ensures
        final(text)@ == old(text)@.push(c),
{
    text.push(c)
}

/// Makes the copy of `code` that the parser is given.
pub fn hand_over(code: &str) -> (copy: String)
    ensures
        copy@ == handed_over(code@),
{
    broadcast use vstd::string::group_string_axioms;

    let blank = starts_with_pair(code, '#', '!');
    let mut copy = String::new();
    let mut rest = code.chars();
    let mut first_line = true;
    let ghost mut seen: int = 0;
    loop
        invariant
            blank == starts_with_shebang(code@),
            0 <= seen <= code@.len(),
            rest.remaining() == code@.skip(seen),
            first_line == on_first_line(code@, seen - 1),
            copy@ == handed_over(code@).take(seen),
        decreases code@.len() - seen,
    {
        match rest.next() {
            Some(c) => {
                if c == '\n' {
                    first_line = false;
                }
                let stands = if blank && first_line {
                    ' '
                } else if c == '`' {
                    STAND_IN
                } else {
                    c
                };
                push_char(&mut copy, stands);
                proof {
                    assert(code@[seen] == c);
                    assert(first_line == on_first_line(code@, seen));
                    assert(code@.skip(seen).drop_first() =~= code@.skip(seen + 1));
                    assert(handed_over(code@).take(seen + 1) =~= handed_over(code@).take(
                        seen,
                    ).push(stands));
                    seen = seen + 1;
                }
            },
            None => {
                assert(handed_over(code@).take(seen) =~= handed_over(code@));
                return copy;
            },
        }
    }
}

/// What `full_moon::parse_fallible` reports for `code` under `dialect`: for
/// each error, in the parser's order, the (line, column) where it starts,
/// the (line, column) where it ends, and its message.
pub uninterp spec fn full_moon_errors(code: Seq<char>, dialect: Dialect) -> Seq<
    ((usize, usize), (usize, usize), Seq<char>),
>;

/// Calls `full_moon::parse_fallible` on `code`, pinned to the `LuaVersion`
/// of `dialect`, and hands out each entry of `AstResult::errors` as plain
/// values: for an `AstError` the start and end position of its token and
/// its `error_message`; for a `TokenizerError` the two ends of its `range`
/// and the kind of error as text.
///
/// The call is made only on a text that neither begins with `#!` nor holds
/// a backtick. On a backtick where a token starts the tokenizer reaches a
/// branch it holds to be unreachable; after a shebang line the parser can
/// be left without a current token, which it holds to be impossible.
///
/// Not proved but taken from the crate: that on such a text the call comes
/// back with a tree and an error list, as its documentation says of every
/// text, and that the list depends on the text and the dialect alone, so
/// that it can go by the name `full_moon_errors`. The parser descends into
/// nested constructs without a limit of its own; nothing here speaks of a
/// text nested deeper than the stack can follow.
#[verifier::external_body]
fn full_moon_report(code: &str, dialect: Dialect) -> (report: Vec<
    ((usize, usize), (usize, usize), String),
>)
    requires
        !starts_with_shebang(code@),
        !code@.contains('`'),
    ensures
        report.deep_view() == full_moon_errors(code@, dialect),
{
    let version = match dialect {
        Dialect::Lua51 => LuaVersion::lua51(),
        Dialect::Lua52 => LuaVersion::lua52(),
        Dialect::Lua53 => LuaVersion::lua53(),
        Dialect::Lua54 => LuaVersion::lua54(),
    };
    let at = |p: Position| (p.line(), p.character());
    parse_fallible(code, version).errors().iter().map(|e| match e {
        Error::AstError(a) => (at(a.token().start_position()), at(a.token().end_position()), a.error_message().to_string()),
        Error::TokenizerError(t) => (at(t.range().0), at(t.range().1), t.error().to_string()),
    }).collect()
}

/// The syntax error that one entry of the parser's report stands for.
pub open spec fn reported(raw: ((usize, usize), (usize, usize), Seq<char>)) -> SyntaxError {
    SyntaxError {
        loc: Location {
            line_start: raw.0.0,
            line_end: raw.1.0,
            col_start: raw.0.1,
            col_end: raw.1.1,
        },
        msg: raw.2,
    }
}

/// The outcome of parsing `code` for the runtime `version`: a refusal when
/// the runtime has no dialect; otherwise the parser's errors, in its order,
/// for the text as it is handed over.
pub open spec fn syntax_errors(code: Seq<char>, version: RuntimeVersion) -> Result<
    Seq<SyntaxError>,
    LuascanError,
> {
    match dialect_of(version) {
        Some(dialect) => Ok(
            full_moon_errors(handed_over(code), dialect).map_values(|raw| reported(raw)),
        ),
        None => Err(LuascanError::UnsupportedDialect),
    }
}

/// Whether `outcome` is what parsing `code` for `version` yields.
pub open spec fn is_parse_of(
    outcome: Result<Vec<LuascanDiagnostic>, LuascanError>,
    code: Seq<char>,
    version: RuntimeVersion,
) -> bool {
    match outcome {
        Ok(found) => syntax_errors(code, version) == Ok::<Seq<SyntaxError>, LuascanError>(
            found.deep_view(),
        ),
        Err(e) => syntax_errors(code, version) == Err::<Seq<SyntaxError>, LuascanError>(e),
    }
}

/// Turns the parser's report into diagnostics, entry by entry.
pub fn collect_diagnostics(report: &Vec<((usize, usize), (usize, usize), String)>) -> (found: Vec<
    LuascanDiagnostic,
>)
    ensures
        found.deep_view() == report.deep_view().map_values(|raw| reported(raw)),
{
    let mut found: Vec<LuascanDiagnostic> = Vec::new();
    let mut i: usize = 0;
    while i < report.len()
        invariant
            i <= report.len(),
            found.len() == i,
            forall|k: int| 0 <= k < i ==> (#[trigger] found[k])@ == reported(report[k].deep_view()),
        decreases report.len() - i,
    {
        let entry = &report[i];
        let loc = Location {
            line_start: (entry.0).0,
            line_end: (entry.1).0,
            col_start: (entry.0).1,
            col_end: (entry.1).1,
        };
        found.push(LuascanDiagnostic { loc, msg: entry.2.clone() });
        i += 1;
    }
    assert(found.deep_view() =~= report.deep_view().map_values(|raw| reported(raw)));
    found
}

/// Parses `code` as a source of the runtime `version` and returns every
/// syntax error the parser found, in the order it found them. An empty list
/// means the parser accepted the text. A runtime without a dialect is
/// rejected before the parser runs; under any other runtime every text is
/// parsed. A shebang line counts as blank, and a backtick outside strings
/// and comments is reported as the unexpected character `$`.
pub fn parse(code: &str, version: RuntimeVersion) -> (outcome: Result<
    Vec<LuascanDiagnostic>,
    LuascanError,
>)
    ensures
        is_parse_of(outcome, code@, version),
{
    match select_dialect(version) {
        Ok(dialect) => {
            let report = if starts_with_pair(code, '#', '!') || holds_char(code, '`') {
                let copy = hand_over(code);
                proof {
                    handed_over_text_can_be_parsed(code@);
                }
                full_moon_report(copy.as_str(), dialect)
            } else {
                proof {
                    plain_text_is_handed_over_unchanged(code@);
                }
                full_moon_report(code, dialect)
            };
            Ok(collect_diagnostics(&report))
        },
        Err(e) => Err(e),
    }
}

/// Parsing is a function of its inputs: any two outcomes for the same text
/// and runtime agree, error for error and in the same order.
pub proof fn parse_is_deterministic(
    code: Seq<char>,
    version: RuntimeVersion,
    first: Result<Vec<LuascanDiagnostic>, LuascanError>,
    second: Result<Vec<LuascanDiagnostic>, LuascanError>,
)
    requires
        is_parse_of(first, code, version),
        is_parse_of(second, code, version),
    ensures
        first is Ok <==> second is Ok,
        first is Ok ==> first->Ok_0.deep_view() == second->Ok_0.deep_view(),
        first is Err ==> first->Err_0 == second->Err_0,
{
}

/// Every text is parsed: parsing yields a list of errors exactly when the
/// runtime has a dialect, whatever the text.
pub proof fn parsed_whenever_supported(code: Seq<char>, version: RuntimeVersion)
    ensures
        syntax_errors(code, version) is Ok <==> version.supported(),
        !version.supported() ==> syntax_errors(code, version) == Err::<
            Seq<SyntaxError>,
            LuascanError,
        >(LuascanError::UnsupportedDialect),
{
}

} // verus!
