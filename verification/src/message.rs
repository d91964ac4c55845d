//! The intents the dispatcher consumes and the side-effecting tasks it
//! schedules. Every outside effect (dialogs, filesystem, processes, the
//! clock) reaches the state only through these plain values.

use vstd::prelude::*;
use crate::session::SaveJob;
use crate::tree::TreeEntry;

verus! {

/// What a finished open-file dialog produced: the picked path, and the
/// file's text when it could be read (an unreadable file leaves the
/// buffer as it was).
pub struct OpenedFile {
    pub path: String,
    pub content: Option<String>,
}

/// An intent: a user action or the completion of a scheduled task.
pub enum Message {
    /// The buffer text after an edit.
    Edit(String),
    /// The user asked to open a file.
    OpenFile,
    /// The open-file dialog finished, or was cancelled.
    FileOpened(Result<OpenedFile, String>),
    /// The user asked to open a directory.
    OpenDir,
    /// The open-folder dialog finished, or was cancelled.
    DirOpened(Result<String, String>),
    /// The user asked to save, at the given clock reading in milliseconds.
    SaveFile(u64),
    /// The user clicked the directory with this path in the tree.
    ToggleDir(String),
    /// A directory level finished loading: its path and its listing.
    DirLoaded(String, Vec<TreeEntry>),
    /// The poll timer fired, at the given clock reading in milliseconds.
    ReloadRequested(u64),
    /// The render artifact's modification time was looked up.
    ArtifactChecked(Option<u64>),
    /// The render task finished, at the given clock reading.
    PdfRendered(Result<Vec<Vec<u8>>, String>, u64),
    /// The watcher process could not be spawned.
    WatchFailed,
    ZoomIn,
    ZoomOut,
    ResetZoom,
}

/// A task the dispatcher schedules; the shell performs it and feeds the
/// completion back in as a [`Message`].
pub enum Action {
    /// Show the open-file dialog; completes as [`Message::FileOpened`].
    PickFile,
    /// Show the open-folder dialog; completes as [`Message::DirOpened`].
    PickDirectory,
    /// Read one directory level; completes as [`Message::DirLoaded`].
    LoadDirectory(String),
    /// Write the job's contents to its path.
    Write(SaveJob),
    /// Kill the running watcher process.
    KillWatcher,
    /// Spawn the external compiler watching this source path; on failure
    /// the shell feeds back [`Message::WatchFailed`].
    SpawnWatcher(String),
    /// Look up the artifact's modification time; completes as
    /// [`Message::ArtifactChecked`].
    CheckArtifact(String),
    /// Render the artifact's pages; completes as [`Message::PdfRendered`].
    RenderPages(String),
}

/// A keyboard shortcut's meaning.
#[derive(Debug, PartialEq, Eq, Structural)]
pub enum KeyCommand {
    Save,
    ZoomIn,
    ZoomOut,
    ZoomReset,
}

/// Maps a key press to its command: with the platform command modifier
/// held, `s` saves, `+`/`=` zoom in, `-`/`_` zoom out, `)`/`0` reset the
/// zoom; everything else means nothing.
pub fn key_intent(c: char, command: bool) -> (r: Option<KeyCommand>)
    ensures
        r == (if command && c == 's' {
            Option::Some(KeyCommand::Save)
        } else if command && (c == '+' || c == '=') {
            Option::Some(KeyCommand::ZoomIn)
        } else if command && (c == '-' || c == '_') {
            Option::Some(KeyCommand::ZoomOut)
        } else if command && (c == ')' || c == '0') {
            Option::Some(KeyCommand::ZoomReset)
        } else {
            Option::None
        }),
{
    if !command {
        return Option::None;
    }
    match c {
        's' => Option::Some(KeyCommand::Save),
        '+' | '=' => Option::Some(KeyCommand::ZoomIn),
        '-' | '_' => Option::Some(KeyCommand::ZoomOut),
        ')' | '0' => Option::Some(KeyCommand::ZoomReset),
        _ => Option::None,
    }
}

} // verus!
