//! The documents of a workspace: the store that holds their texts, and the
//! one-time scan that fills it.
//!
//! Finding and reading the files is the caller's work. What was found comes
//! in as a list of files, each with its path and its text as far as it
//! could be read; this module gives each file its URI and decides what is
//! stored and what is published.

use crate::config::RuntimeVersion;
use crate::diagnostics::{
    diagnose_document, diagnostics_follow_errors, diagnostics_of, publication_of, DiagnosticView,
    Publication, PublishDiagnosticsParams,
};
use crate::error::LuascanError;
use crate::text::ends_with_char;
use tower_lsp::lsp_types::Url;
use vstd::hash_map::StringHashMap;
use vstd::prelude::*;
use vstd::string::StringExecFns;

verus! {

/// The latest known text of each document, by URI.
pub struct DocumentStore {
    docs: StringHashMap<String>,
}

impl View for DocumentStore {
    type V = Map<Seq<char>, Seq<char>>;

    closed spec fn view(&self) -> Map<Seq<char>, Seq<char>> {
        self.docs@.map_values(|text: String| text@)
    }
}

impl DocumentStore {
    /// A store without documents.
    pub fn new() -> (store: DocumentStore)
        ensures
            store@ == Map::<Seq<char>, Seq<char>>::empty(),
    {
        let store = DocumentStore { docs: StringHashMap::new() };
        assert(store@ =~= Map::<Seq<char>, Seq<char>>::empty());
        store
    }

    /// Stores `text` as the text of `uri`, in place of any earlier one.
    pub fn set(&mut self, uri: String, text: String)
        ensures
            final(self)@ == old(self)@.insert(uri@, text@),
    {
        self.docs.insert(uri, text);
        assert(self@ =~= old(self)@.insert(uri@, text@));
    }

    /// The text stored for `uri`, if there is one.
    pub fn get(&self, uri: &str) -> (found: Option<&String>)
        ensures
            match found {
                Some(text) => self@.contains_key(uri@) && text@ == self@[uri@],
                None => !self@.contains_key(uri@),
            },
    {
        self.docs.get(uri)
    }

    /// Whether a text is stored for `uri`.
    pub fn contains(&self, uri: &str) -> (yes: bool)
        ensures
            yes == self@.contains_key(uri@),
    {
        self.docs.contains_key(uri)
    }
}

/// One source file as it was found on disk.
#[derive(Debug, Clone)]
pub struct SourceFile {
    pub path: String,
    /// The file's text; `None` if it could not be read.
    pub content: Option<String>,
}

/// One file found by the scan of the workspace, under its URI.
#[derive(Debug, Clone)]
pub struct WorkspaceFile {
    /// The file's URI; `None` if its path has no URI form.
    pub uri: Option<String>,
    /// The file's text; `None` if it could not be read.
    pub content: Option<String>,
}

impl WorkspaceFile {
    /// The file has a URI and its text was read.
    pub open spec fn readable(self) -> bool {
        self.uri is Some && self.content is Some
    }
}

/// The pattern that matches source files at any depth.
pub const SOURCE_GLOB: &'static str = "**/*.lua";

/// The pattern for the source files under `root`: the root, a separator
/// unless the root is empty or already ends in one, and the file pattern.
pub open spec fn pattern_under(root: Seq<char>) -> Seq<char> {
    if root.len() == 0 || root.last() == '/' {
        root + SOURCE_GLOB@
    } else {
        root + "/"@ + SOURCE_GLOB@
    }
}

/// Builds the pattern for the source files under `root`.
pub fn index_pattern(root: &str) -> (pattern: String)
    ensures
        pattern@ == pattern_under(root@),
{
    let mut pattern = String::from_str(root);
    if !(root.unicode_len() == 0 || ends_with_char(root, '/')) {
        pattern.append("/");
    }
    pattern.append(SOURCE_GLOB);
    pattern
}

/// What `Url::from_file_path` makes of `path`, as text: its `file` URI, or
/// nothing where the path has no URI form.
pub uninterp spec fn file_uri_of(path: Seq<char>) -> Option<Seq<char>>;

/// The `file` URI of `path`, from `Url::from_file_path`; `None` where the
/// path has no URI form, as is the case for every path that is not
/// absolute.
///
/// Not proved but taken from the crate: the call looks at neither the disk
/// nor the environment, so on the platform the crate is built for the
/// result depends on the path alone and can go by the name `file_uri_of`.
/// Which paths are absolute, and how a path is written as a URI, follows
/// the rules of that platform; nothing is claimed of either.
#[verifier::external_body]
fn file_uri(path: &str) -> (uri: Option<String>)
    ensures
        uri.deep_view() == file_uri_of(path@),
{
    Url::from_file_path(path).ok().map(String::from)
}

/// A file of a scan under the URI of its path, with its text.
pub open spec fn located(source: SourceFile, file: WorkspaceFile) -> bool {
    file.uri.deep_view() == file_uri_of(source.path@) && file.content == source.content
}

/// Gives every file of a scan its URI. The files keep their order and their
/// texts; a file whose path has no URI form goes on without one, and is
/// passed over when the scan is taken in.
pub fn locate(scanned: Vec<SourceFile>) -> (files: Vec<WorkspaceFile>)
    ensures
        files@.len() == scanned@.len(),
        forall|i: int| 0 <= i < scanned@.len() ==> located(scanned@[i], #[trigger] files@[i]),
{
    let ghost all = scanned@;
    let mut files: Vec<WorkspaceFile> = Vec::new();
    for source in it: scanned
        invariant
            it.seq() == all,
            files@.len() == it.index(),
            forall|i: int| 0 <= i < it.index() ==> located(all[i], #[trigger] files@[i]),
    {
        let uri = file_uri(source.path.as_str());
        files.push(WorkspaceFile { uri, content: source.content });
    }
    files
}

/// The store after the scan found `files`: every readable file is stored
/// under its URI, in the order of the list, so a later file replaces an
/// earlier one with the same URI. Unreadable files change nothing.
pub open spec fn indexed_docs(docs: Map<Seq<char>, Seq<char>>, files: Seq<WorkspaceFile>) -> Map<
    Seq<char>,
    Seq<char>,
>
    decreases files.len(),
{
    if files.len() == 0 {
        docs
    } else {
        let before = indexed_docs(docs, files.drop_last());
        let file = files.last();
        if file.readable() {
            before.insert(file.uri->Some_0@, file.content->Some_0@)
        } else {
            before
        }
    }
}

/// What is published after the scan found `files`: one set of diagnostics
/// for every readable file, in the order of the list. Unreadable files are
/// passed over, and under a runtime that cannot be parsed nothing is
/// published.
pub open spec fn indexed_publications(files: Seq<WorkspaceFile>, version: RuntimeVersion) -> Seq<
    Publication,
>
    decreases files.len(),
{
    if files.len() == 0 {
        Seq::<Publication>::empty()
    } else {
        let before = indexed_publications(files.drop_last(), version);
        let file = files.last();
        if file.readable() {
            match publication_of(file.uri->Some_0@, file.content->Some_0@, version) {
                Ok(publication) => before.push(publication),
                Err(_) => before,
            }
        } else {
            before
        }
    }
}

/// Takes in what the scan found: stores every readable file and diagnoses
/// it. A file that could not be read, or has no URI, is passed over and the
/// scan goes on with the next.
pub fn index_files(
    store: &mut DocumentStore,
    files: &Vec<WorkspaceFile>,
    version: RuntimeVersion,
) -> (sent: Vec<PublishDiagnosticsParams>)
    ensures
        final(store)@ == indexed_docs(old(store)@, files@),
        sent.deep_view() == indexed_publications(files@, version),
{
    let mut sent: Vec<PublishDiagnosticsParams> = Vec::new();
    let mut i: usize = 0;
    assert(files@.take(0) =~= Seq::<WorkspaceFile>::empty());
    while i < files.len()
        invariant
            i <= files.len(),
            store@ == indexed_docs(old(store)@, files@.take(i as int)),
            sent.deep_view() == indexed_publications(files@.take(i as int), version),
        decreases files.len() - i,
    {
        let file = &files[i];
        proof {
            assert(files@.take(i + 1).drop_last() =~= files@.take(i as int));
            assert(files@.take(i + 1).last() == files@[i as int]);
        }
        let ghost before = sent.deep_view();
        match (&file.uri, &file.content) {
            (Some(uri), Some(content)) => {
                store.set(uri.clone(), content.clone());
                match diagnose_document(uri.clone(), content.as_str(), version) {
                    Ok(publication) => {
                        sent.push(publication);
                        assert(sent.deep_view() =~= before.push(publication@));
                    },
                    Err(_) => {},
                }
            },
            _ => {},
        }
        i += 1;
    }
    assert(files@.take(files.len() as int) =~= files@);
    sent
}

/// If every file the scan found is readable and the runtime can be parsed,
/// exactly one set of diagnostics is published per file, in the order of the
/// list, each under the file's URI and holding the diagnostics of its text.
pub proof fn one_publication_per_file(files: Seq<WorkspaceFile>, version: RuntimeVersion)
    requires
        version.supported(),
        forall|i: int| 0 <= i < files.len() ==> (#[trigger] files[i]).readable(),
    ensures
        indexed_publications(files, version).len() == files.len(),
        forall|i: int|
            0 <= i < files.len() ==> {
                &&& (#[trigger] indexed_publications(files, version)[i]).uri
                    == files[i].uri->Some_0@
                &&& diagnostics_of(files[i].content->Some_0@, version) == Ok::<
                    Seq<DiagnosticView>,
                    LuascanError,
                >(indexed_publications(files, version)[i].diagnostics)
            },
    decreases files.len(),
{
    if files.len() > 0 {
        one_publication_per_file(files.drop_last(), version);
        diagnostics_follow_errors(files.last().content->Some_0@, version);
    }
}

/// Every readable file the scan found ends up in the store, and the text
/// stored for a URI is that of the last readable file with that URI.
pub proof fn indexed_files_are_stored(
    docs: Map<Seq<char>, Seq<char>>,
    files: Seq<WorkspaceFile>,
    i: int,
)
    requires
        0 <= i < files.len(),
        files[i].readable(),
        forall|j: int|
            i < j < files.len() && (#[trigger] files[j]).readable() ==> files[j].uri->Some_0@
                != files[i].uri->Some_0@,
    ensures
        indexed_docs(docs, files).contains_key(files[i].uri->Some_0@),
        indexed_docs(docs, files)[files[i].uri->Some_0@] == files[i].content->Some_0@,
    decreases files.len(),
{
    if i < files.len() - 1 {
        indexed_files_are_stored(docs, files.drop_last(), i);
    }
}

} // verus!
