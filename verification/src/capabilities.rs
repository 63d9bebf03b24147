//! What the server tells the client in answer to the handshake.
//!
//! Documents are always synchronised in full, never by increments, so every
//! diagnostic run sees a complete text. The unit in which columns are
//! counted is picked from what the client offers: UTF-8 first, then UTF-16,
//! then UTF-32.

use crate::text::holds_text;
use vstd::prelude::*;
use vstd::string::StringExecFns;

verus! {

/// The unit in which the protocol counts columns.
#[derive(Debug, Clone, Copy, PartialEq, Eq, Structural)]
pub enum PositionEncodingKind {
    Utf8,
    Utf16,
    Utf32,
}

/// The protocol's name for UTF-8 code units.
pub const UTF8: &'static str = "utf-8";

/// The protocol's name for UTF-16 code units.
pub const UTF16: &'static str = "utf-16";

/// The protocol's name for UTF-32 code units.
pub const UTF32: &'static str = "utf-32";

impl PositionEncodingKind {
    /// The protocol's name for this unit.
    pub open spec fn name(self) -> Seq<char> {
        match self {
            PositionEncodingKind::Utf8 => UTF8@,
            PositionEncodingKind::Utf16 => UTF16@,
            PositionEncodingKind::Utf32 => UTF32@,
        }
    }

    /// The protocol's name for this unit.
    pub fn as_str(&self) -> (name: &'static str)
        ensures
            name@ == self.name(),
    {
        match self {
            PositionEncodingKind::Utf8 => UTF8,
            PositionEncodingKind::Utf16 => UTF16,
            PositionEncodingKind::Utf32 => UTF32,
        }
    }
}

/// How document changes reach the server.
#[derive(Debug, Clone, Copy, PartialEq, Eq, Structural)]
pub enum TextDocumentSyncKind {
    /// Documents are not synchronised at all.
    Off,
    /// Every change carries the whole text.
    Full,
    /// Changes carry only what differs.
    Incremental,
}

/// The capabilities the server announces.
#[derive(Debug, Clone, Copy, PartialEq, Eq, Structural)]
pub struct ServerCapabilities {
    /// Open and close notifications are wanted.
    pub open_close: bool,
    /// How changes are to be sent.
    pub change: TextDocumentSyncKind,
    /// Whether a notification before saving is wanted.
    pub will_save: bool,
    /// Whether the client should wait for an answer before saving.
    pub will_save_wait_until: bool,
    /// The unit agreed on for columns; `None` leaves the client's default.
    pub position_encoding: Option<PositionEncodingKind>,
    /// Workspace folders are supported.
    pub workspace_folders: bool,
    /// Changes of the workspace folders should be notified.
    pub workspace_folder_changes: bool,
}

/// The name and version the server goes by.
#[derive(Debug, Clone)]
pub struct ServerInfo {
    pub name: String,
    pub version: Option<String>,
}

/// The answer to the handshake.
#[derive(Debug, Clone)]
pub struct InitializeResult {
    pub server_info: Option<ServerInfo>,
    pub capabilities: ServerCapabilities,
}

/// The server's name and version as mathematical values.
pub struct ServerInfoView {
    pub name: Seq<char>,
    pub version: Option<Seq<char>>,
}

/// The answer to the handshake as a mathematical value.
pub struct InitializeResultView {
    pub server_info: Option<ServerInfoView>,
    pub capabilities: ServerCapabilities,
}

impl View for ServerInfo {
    type V = ServerInfoView;

    open spec fn view(&self) -> ServerInfoView {
        ServerInfoView { name: self.name@, version: self.version.deep_view() }
    }
}

impl DeepView for ServerInfo {
    type V = ServerInfoView;

    open spec fn deep_view(&self) -> ServerInfoView {
        self@
    }
}

impl View for InitializeResult {
    type V = InitializeResultView;

    open spec fn view(&self) -> InitializeResultView {
        InitializeResultView {
            server_info: self.server_info.deep_view(),
            capabilities: self.capabilities,
        }
    }
}

/// The name the server announces.
pub const SERVER_NAME: &'static str = "luascan";

/// The version the server announces.
pub const VERSION: &'static str = "0.1.0";

/// The unit picked from the client's offer: the first of UTF-8, UTF-16 and
/// UTF-32 that the offer holds, whatever the order of the offer; none if the
/// client offered nothing or none of the three.
pub open spec fn preferred_encoding(offered: Option<Seq<Seq<char>>>) -> Option<
    PositionEncodingKind,
> {
    match offered {
        Some(names) => if names.contains(UTF8@) {
            Some(PositionEncodingKind::Utf8)
        } else if names.contains(UTF16@) {
            Some(PositionEncodingKind::Utf16)
        } else if names.contains(UTF32@) {
            Some(PositionEncodingKind::Utf32)
        } else {
            None
        },
        None => None,
    }
}

/// The capabilities announced once `encoding` has been picked.
pub open spec fn capabilities_with(encoding: Option<PositionEncodingKind>) -> ServerCapabilities {
    ServerCapabilities {
        open_close: true,
        change: TextDocumentSyncKind::Full,
        will_save: false,
        will_save_wait_until: false,
        position_encoding: encoding,
        workspace_folders: true,
        workspace_folder_changes: true,
    }
}

/// The answer to a handshake in which the client offered `offered`.
pub open spec fn handshake_answer(offered: Option<Seq<Seq<char>>>) -> InitializeResultView {
    InitializeResultView {
        server_info: Some(ServerInfoView { name: SERVER_NAME@, version: Some(VERSION@) }),
        capabilities: capabilities_with(preferred_encoding(offered)),
    }
}

/// Picks the unit for columns from the client's offer.
pub fn select_position_encoding(offered: &Option<Vec<String>>) -> (choice: Option<
    PositionEncodingKind,
>)
    ensures
        choice == preferred_encoding(offered.deep_view()),
{
    match offered {
        Some(names) => {
            if holds_text(names, UTF8) {
                Some(PositionEncodingKind::Utf8)
            } else if holds_text(names, UTF16) {
                Some(PositionEncodingKind::Utf16)
            } else if holds_text(names, UTF32) {
                Some(PositionEncodingKind::Utf32)
            } else {
                None
            }
        },
        None => None,
    }
}

/// Builds the answer to a handshake in which the client offered `offered`.
pub fn negotiate(offered: &Option<Vec<String>>) -> (answer: InitializeResult)
    ensures
        answer@ == handshake_answer(offered.deep_view()),
{
    InitializeResult {
        server_info: Some(
            ServerInfo {
                name: String::from_str(SERVER_NAME),
                version: Some(String::from_str(VERSION)),
            },
        ),
        capabilities: ServerCapabilities {
            open_close: true,
            change: TextDocumentSyncKind::Full,
            will_save: false,
            will_save_wait_until: false,
            position_encoding: select_position_encoding(offered),
            workspace_folders: true,
            workspace_folder_changes: true,
        },
    }
}

/// Whatever the client offers, changes are synchronised in full.
pub proof fn sync_is_always_full(offered: Option<Seq<Seq<char>>>)
    ensures
        handshake_answer(offered).capabilities.change == TextDocumentSyncKind::Full,
        handshake_answer(offered).capabilities.open_close,
{
}

/// A unit is agreed on exactly when the client offers one of the three, and
/// the agreed unit is always one the client offered.
pub proof fn encoding_is_offered(names: Seq<Seq<char>>)
    ensures
        preferred_encoding(Some(names)) matches Some(kind) ==> names.contains(kind.name()),
        preferred_encoding(Some(names)) is None <==> !names.contains(UTF8@) && !names.contains(
            UTF16@,
        ) && !names.contains(UTF32@),
{
}

} // verus!
