//! The editor session: buffer content, associated file path, derived
//! cursor position, dirty flag, and the autosave decision.

use vstd::prelude::*;
use vstd::string::StrSliceExecFns;

verus! {

/// How many newline characters the text holds.
pub open spec fn newline_count(s: Seq<char>) -> nat
    decreases s.len(),
{
    if s.len() == 0 {
        0
    } else {
        (if s.last() == '\n' {
            1nat
        } else {
            0nat
        }) + newline_count(s.drop_last())
    }
}

/// How many characters follow the last newline; the whole text when it
/// has none.
pub open spec fn last_line_len(s: Seq<char>) -> nat
    decreases s.len(),
{
    if s.len() == 0 {
        0
    } else if s.last() == '\n' {
        0
    } else {
        1 + last_line_len(s.drop_last())
    }
}

/// The 1-based line the cursor reports: line breaks plus one.
pub open spec fn cursor_line_of(s: Seq<char>) -> nat {
    newline_count(s) + 1
}

/// The 1-based column the cursor reports: length of the final line plus
/// one.
pub open spec fn cursor_column_of(s: Seq<char>) -> nat {
    last_line_len(s) + 1
}

pub proof fn lemma_counts_le_len(s: Seq<char>)
    ensures
        newline_count(s) <= s.len(),
        last_line_len(s) <= s.len(),
    decreases s.len(),
{
    if s.len() > 0 {
        lemma_counts_le_len(s.drop_last());
    }
}

/// The cursor position the buffer text yields, as if the cursor sat at
/// the end of the buffer.
pub fn cursor_position(text: &str) -> (r: (usize, usize))
    requires
        text@.len() < usize::MAX,
    ensures
        r.0 == cursor_line_of(text@),
        r.1 == cursor_column_of(text@),
{
    let len = text.unicode_len();
    let mut line: usize = 1;
    let mut col: usize = 1;
    let mut i: usize = 0;
    proof {
        assert(text@.take(0) =~= Seq::<char>::empty());
    }
    while i < len
        invariant
            len == text@.len(),
            len < usize::MAX,
            i <= len,
            line == newline_count(text@.take(i as int)) + 1,
            col == last_line_len(text@.take(i as int)) + 1,
        decreases len - i,
    {
        let c = text.get_char(i);
        proof {
            let pre = text@.take(i as int);
            let cur = text@.take(i + 1);
            assert(cur.drop_last() =~= pre);
            assert(cur.last() == text@[i as int]);
            lemma_counts_le_len(pre);
        }
        if c == '\n' {
            line = line + 1;
            col = 1;
        } else {
            col = col + 1;
        }
        i = i + 1;
    }
    proof {
        assert(text@.take(len as int) =~= text@);
    }
    (line, col)
}

/// Milliseconds a dirty buffer may rest before autosave writes it out.
pub const AUTOSAVE_DEBOUNCE_MILLIS: u64 = 2000;

/// Whether autosave is due: a file is associated, the buffer is dirty,
/// and more than the debounce interval passed since the last save (or
/// nothing was ever saved).
pub open spec fn autosave_due(
    file: Option<Seq<char>>,
    dirty: bool,
    last_save: Option<u64>,
    now: u64,
) -> bool {
    &&& file is Some
    &&& dirty
    &&& match last_save {
        Option::None => true,
        Option::Some(t) => now - t > AUTOSAVE_DEBOUNCE_MILLIS,
    }
}

/// With no associated file path, autosave is never due, whatever the
/// dirty flag and however much time passed.
pub proof fn lemma_autosave_needs_path(dirty: bool, last_save: Option<u64>, now: u64)
    ensures
        !autosave_due(Option::None, dirty, last_save, now),
{
}

/// A pending write: which path to write and what to write there.
pub struct SaveJob {
    pub path: String,
    pub contents: String,
}

/// The editor session state.
pub struct Session {
    pub buffer: String,
    pub file: Option<String>,
    pub cursor_line: usize,
    pub cursor_column: usize,
    pub dirty: bool,
    pub last_save: Option<u64>,
}

/// The associated file path as a sequence, when one is associated.
pub open spec fn file_view(file: Option<String>) -> Option<Seq<char>> {
    match file {
        Option::None => Option::None,
        Option::Some(p) => Option::Some(p@),
    }
}

impl Session {
    /// A fresh session: empty buffer, no file, cursor at 1:1, clean.
    pub fn new() -> (r: Session)
        ensures
            r.buffer@ == Seq::<char>::empty(),
            r.file is None,
            r.cursor_line == 1,
            r.cursor_column == 1,
            !r.dirty,
            r.last_save is None,
    {
        Session {
            buffer: String::new(),
            file: Option::None,
            cursor_line: 1,
            cursor_column: 1,
            dirty: false,
            last_save: Option::None,
        }
    }

    /// Replaces the buffer with the text an edit produced, recomputes the
    /// cursor from it, and marks the buffer dirty.
    pub fn apply_edit(&mut self, new_text: String)
        requires
            new_text@.len() < usize::MAX,
        ensures
            final(self).buffer == new_text,
            final(self).cursor_line == cursor_line_of(new_text@),
            final(self).cursor_column == cursor_column_of(new_text@),
            final(self).dirty,
            final(self).file == old(self).file,
            final(self).last_save == old(self).last_save,
    {
        let (line, col) = cursor_position(new_text.as_str());
        self.buffer = new_text;
        self.cursor_line = line;
        self.cursor_column = col;
        self.dirty = true;
    }

    /// Associates `path` with the session; when the file's content could
    /// be read it replaces the buffer and the buffer starts clean.
    pub fn open_file(&mut self, path: String, content: Option<String>)
        ensures
            final(self).file == Option::Some(path),
            final(self).dirty == false,
            final(self).buffer == match content {
                Option::Some(c) => c,
                Option::None => old(self).buffer,
            },
            final(self).cursor_line == old(self).cursor_line,
            final(self).cursor_column == old(self).cursor_column,
            final(self).last_save == old(self).last_save,
    {
        self.file = Option::Some(path);
        match content {
            Option::Some(c) => {
                self.buffer = c;
            },
            Option::None => {},
        }
        self.dirty = false;
    }

    /// The write a manual save command performs: the whole buffer to the
    /// associated path, immediately, debounce or not. Without an
    /// associated path there is nothing to save.
    pub fn manual_save(&mut self, now: u64) -> (r: Option<SaveJob>)
        ensures
            match old(self).file {
                Option::Some(p) => {
                    &&& r matches Option::Some(job) && job.path == p && job.contents@
                        == old(self).buffer@
                    &&& final(self).dirty == false
                    &&& final(self).last_save == Option::Some(now)
                },
                Option::None => r is None && *final(self) == *old(self),
            },
            final(self).buffer == old(self).buffer,
            final(self).file == old(self).file,
            final(self).cursor_line == old(self).cursor_line,
            final(self).cursor_column == old(self).cursor_column,
    {
        match &self.file {
            Option::Some(p) => {
                let path = p.clone();
                let contents = self.buffer.clone();
                self.dirty = false;
                self.last_save = Option::Some(now);
                Option::Some(SaveJob { path, contents })
            },
            Option::None => Option::None,
        }
    }

    /// The write autosave performs when it is due, and nothing otherwise:
    /// it never fires without an associated path, and fires exactly when
    /// [`autosave_due`] holds of the session and the clock.
    pub fn autosave(&mut self, now: u64) -> (r: Option<SaveJob>)
        ensures
            ({
                let due = autosave_due(
                    file_view(old(self).file),
                    old(self).dirty,
                    old(self).last_save,
                    now,
                );
                if due {
                    &&& r matches Option::Some(job) && Option::Some(job.path) == old(self).file
                        && job.contents@ == old(self).buffer@
                    &&& final(self).dirty == false
                    &&& final(self).last_save == Option::Some(now)
                } else {
                    r is None && *final(self) == *old(self)
                }
            }),
            final(self).buffer == old(self).buffer,
            final(self).file == old(self).file,
            final(self).cursor_line == old(self).cursor_line,
            final(self).cursor_column == old(self).cursor_column,
    {
        let due = match (&self.file, self.dirty) {
            (Option::Some(_), true) => match self.last_save {
                Option::None => true,
                Option::Some(t) => now > AUTOSAVE_DEBOUNCE_MILLIS && t < now
                    - AUTOSAVE_DEBOUNCE_MILLIS,
            },
            _ => false,
        };
        if due {
            self.manual_save(now)
        } else {
            Option::None
        }
    }
}

} // verus!
