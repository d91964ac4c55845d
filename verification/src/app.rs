//! The application state and its dispatcher: one total, synchronous
//! mapping from (state, intent) to (state, scheduled tasks). The shell
//! around it performs the tasks and feeds each completion back in as the
//! next intent.

use vstd::prelude::*;
use crate::message::{Action, Message, OpenedFile};
use crate::paths::{with_extension, with_extension_of};
use crate::render::{reload_due, reload_due_spec, RenderState};
use crate::session::{autosave_due, cursor_column_of, cursor_line_of, file_view, Session};
use crate::tree::{entries_view, replace_children_spec, toggle_entries_spec, TreeEntry};
use crate::tree::{toggle_dir_recursive, update_dir_children_recursive};

verus! {

/// Lowest zoom, in tenths of the natural scale.
pub const ZOOM_MIN_TENTHS: u32 = 1;

/// Natural zoom, in tenths.
pub const ZOOM_DEFAULT_TENTHS: u32 = 10;

/// Highest zoom, in tenths.
pub const ZOOM_MAX_TENTHS: u32 = 100;

/// How far one zoom step moves, in tenths.
pub const ZOOM_STEP_TENTHS: u32 = 2;

/// The whole editor state: session, file tree, render poller, zoom.
pub struct TypTaps {
    pub session: Session,
    pub file_tree: Vec<TreeEntry>,
    pub render: RenderState,
    /// The preview scale, in tenths of the natural size.
    pub zoom_tenths: u32,
}

impl Default for TypTaps {
    /// The startup state: empty buffer, no file, empty tree, idle
    /// renderer, natural zoom.
    fn default() -> (r: TypTaps)
        ensures
            r.session.buffer@ == Seq::<char>::empty(),
            r.session.file is None,
            r.session.cursor_line == 1,
            r.session.cursor_column == 1,
            !r.session.dirty,
            r.session.last_save is None,
            r.file_tree@ == Seq::<TreeEntry>::empty(),
            !r.render.watching,
            !r.render.is_rendering,
            r.render.pages@ == Seq::<Vec<u8>>::empty(),
            r.render.last_rendered is None,
            r.zoom_tenths == ZOOM_DEFAULT_TENTHS,
    {
        let r = TypTaps {
            session: Session::new(),
            file_tree: Vec::new(),
            render: RenderState::new(),
            zoom_tenths: ZOOM_DEFAULT_TENTHS,
        };
        proof {
            assert(r.file_tree@ =~= Seq::<TreeEntry>::empty());
        }
        r
    }
}

impl TypTaps {
    /// Dispatches one intent: total over every message, synchronous, and
    /// pure but for this state; every outside effect is returned as an
    /// action for the shell to perform.
    pub fn update(&mut self, msg: Message) -> (acts: Vec<Action>)
        requires
            msg matches Message::Edit(t) ==> t@.len() < usize::MAX,
        ensures
            match msg {
                // An edit replaces the buffer, recomputes the cursor, and
                // marks the buffer dirty. Nothing else moves.
                Message::Edit(t) => {
                    &&& final(self).session.buffer == t
                    &&& final(self).session.cursor_line == cursor_line_of(t@)
                    &&& final(self).session.cursor_column == cursor_column_of(t@)
                    &&& final(self).session.dirty
                    &&& final(self).session.file == old(self).session.file
                    &&& final(self).session.last_save == old(self).session.last_save
                    &&& final(self).file_tree == old(self).file_tree
                    &&& final(self).render == old(self).render
                    &&& final(self).zoom_tenths == old(self).zoom_tenths
                    &&& acts@ =~= Seq::<Action>::empty()
                },
                // Opening asks the shell for its file dialog.
                Message::OpenFile => {
                    &&& *final(self) == *old(self)
                    &&& acts@ =~= seq![Action::PickFile]
                },
                // A picked file becomes the session's file; any prior
                // watcher is killed and a new one watches the new file,
                // with every prior page dropped.
                Message::FileOpened(res) => match res {
                    Result::Ok(of) => {
                        &&& final(self).session.file == Option::Some(of.path)
                        &&& final(self).session.buffer == (match of.content {
                            Option::Some(c) => c,
                            Option::None => old(self).session.buffer,
                        })
                        &&& !final(self).session.dirty
                        &&& final(self).session.cursor_line == old(self).session.cursor_line
                        &&& final(self).session.cursor_column == old(self).session.cursor_column
                        &&& final(self).session.last_save == old(self).session.last_save
                        &&& final(self).render.watching
                        &&& !final(self).render.is_rendering
                        &&& final(self).render.pages@ == Seq::<Vec<u8>>::empty()
                        &&& final(self).render.last_rendered is None
                        &&& final(self).file_tree == old(self).file_tree
                        &&& final(self).zoom_tenths == old(self).zoom_tenths
                        &&& acts@ =~= (if old(self).render.watching {
                            seq![Action::KillWatcher, Action::SpawnWatcher(of.path)]
                        } else {
                            seq![Action::SpawnWatcher(of.path)]
                        })
                    },
                    // A cancelled or failed dialog changes nothing.
                    Result::Err(_) => {
                        &&& *final(self) == *old(self)
                        &&& acts@ =~= Seq::<Action>::empty()
                    },
                },
                Message::OpenDir => {
                    &&& *final(self) == *old(self)
                    &&& acts@ =~= seq![Action::PickDirectory]
                },
                // A picked directory is read asynchronously.
                Message::DirOpened(res) => match res {
                    Result::Ok(p) => {
                        &&& *final(self) == *old(self)
                        &&& acts@ =~= seq![Action::LoadDirectory(p)]
                    },
                    Result::Err(_) => {
                        &&& *final(self) == *old(self)
                        &&& acts@ =~= Seq::<Action>::empty()
                    },
                },
                // A manual save writes at once, debounce or not; without
                // an associated path there is nothing to do.
                Message::SaveFile(now) => {
                    &&& final(self).file_tree == old(self).file_tree
                    &&& final(self).render == old(self).render
                    &&& final(self).zoom_tenths == old(self).zoom_tenths
                    &&& final(self).session.buffer == old(self).session.buffer
                    &&& final(self).session.file == old(self).session.file
                    &&& final(self).session.cursor_line == old(self).session.cursor_line
                    &&& final(self).session.cursor_column == old(self).session.cursor_column
                    &&& match old(self).session.file {
                        Option::Some(p) => {
                            &&& !final(self).session.dirty
                            &&& final(self).session.last_save == Option::Some(now)
                            &&& acts@.len() == 1
                            &&& acts@[0] matches Action::Write(job) && job.path == p
                                && job.contents@ == old(self).session.buffer@
                        },
                        Option::None => {
                            &&& final(self).session == old(self).session
                            &&& acts@ =~= Seq::<Action>::empty()
                        },
                    }
                },
                // A click on a directory flips its expanded flag; the
                // first expansion of a never-loaded directory schedules
                // its load.
                Message::ToggleDir(p) => {
                    let r = toggle_entries_spec(entries_view(old(self).file_tree@), p@);
                    &&& entries_view(final(self).file_tree@) == r.0
                    &&& final(self).session == old(self).session
                    &&& final(self).render == old(self).render
                    &&& final(self).zoom_tenths == old(self).zoom_tenths
                    &&& acts@ =~= (if r.2 {
                        seq![Action::LoadDirectory(p)]
                    } else {
                        Seq::<Action>::empty()
                    })
                },
                // A loaded listing replaces the children of the loaded
                // directory; the first-ever load fills the root.
                Message::DirLoaded(p, entries) => {
                    &&& entries_view(final(self).file_tree@) == replace_children_spec(
                        entries_view(old(self).file_tree@),
                        p@,
                        entries_view(entries@),
                    )
                    &&& final(self).session == old(self).session
                    &&& final(self).render == old(self).render
                    &&& final(self).zoom_tenths == old(self).zoom_tenths
                    &&& acts@ =~= Seq::<Action>::empty()
                },
                // A timer tick runs autosave, and, unless a reload is
                // already in flight, asks for the artifact's timestamp.
                Message::ReloadRequested(now) => {
                    let due = autosave_due(
                        file_view(old(self).session.file),
                        old(self).session.dirty,
                        old(self).session.last_save,
                        now,
                    );
                    let tick = !old(self).render.is_rendering && old(self).session.file is Some;
                    &&& final(self).render == old(self).render
                    &&& final(self).file_tree == old(self).file_tree
                    &&& final(self).zoom_tenths == old(self).zoom_tenths
                    &&& final(self).session.buffer == old(self).session.buffer
                    &&& final(self).session.file == old(self).session.file
                    &&& final(self).session.cursor_line == old(self).session.cursor_line
                    &&& final(self).session.cursor_column == old(self).session.cursor_column
                    &&& (if due {
                        &&& !final(self).session.dirty
                        &&& final(self).session.last_save == Option::Some(now)
                    } else {
                        final(self).session == old(self).session
                    })
                    &&& acts@.len() == ((if due {
                        1int
                    } else {
                        0int
                    }) + (if tick {
                        1int
                    } else {
                        0int
                    }))
                    &&& (due ==> (acts@[0] matches Action::Write(job) && Option::Some(job.path)
                        == old(self).session.file && job.contents@ == old(self).session.buffer@))
                    &&& (tick ==> match old(self).session.file {
                        Option::Some(p) => (acts@.last() matches Action::CheckArtifact(q) && q@
                            == with_extension_of(p@, "pdf"@)),
                        Option::None => false,
                    })
                },
                // A fresh timestamp asks for a render exactly when the
                // artifact is newer than what is on show.
                Message::ArtifactChecked(mtime) => {
                    let due = reload_due_spec(mtime, old(self).render.last_rendered)
                        && old(self).session.file is Some;
                    &&& final(self).session == old(self).session
                    &&& final(self).file_tree == old(self).file_tree
                    &&& final(self).zoom_tenths == old(self).zoom_tenths
                    &&& final(self).render.watching == old(self).render.watching
                    &&& final(self).render.pages == old(self).render.pages
                    &&& final(self).render.last_rendered == old(self).render.last_rendered
                    &&& final(self).render.is_rendering == (due
                        || old(self).render.is_rendering)
                    &&& (if due {
                        match old(self).session.file {
                            Option::Some(p) => {
                                &&& acts@.len() == 1
                                &&& acts@[0] matches Action::RenderPages(q) && q@
                                    == with_extension_of(p@, "pdf"@)
                            },
                            Option::None => false,
                        }
                    } else {
                        acts@ =~= Seq::<Action>::empty()
                    })
                },
                // A finished render is taken over only when it produced
                // at least one page; pages are replaced as a whole.
                Message::PdfRendered(result, now) => {
                    &&& final(self).session == old(self).session
                    &&& final(self).file_tree == old(self).file_tree
                    &&& final(self).zoom_tenths == old(self).zoom_tenths
                    &&& !final(self).render.is_rendering
                    &&& final(self).render.watching == old(self).render.watching
                    &&& match result {
                        Result::Ok(pages) => if pages@.len() > 0 {
                            &&& final(self).render.pages == pages
                            &&& final(self).render.last_rendered == Option::Some(now)
                        } else {
                            &&& final(self).render.pages == old(self).render.pages
                            &&& final(self).render.last_rendered == old(
                                self,
                            ).render.last_rendered
                        },
                        Result::Err(_) => {
                            &&& final(self).render.pages == old(self).render.pages
                            &&& final(self).render.last_rendered == old(
                                self,
                            ).render.last_rendered
                        },
                    }
                    &&& acts@ =~= Seq::<Action>::empty()
                },
                // A watcher that could not be spawned leaves rendering
                // idle, with no pages, until the next file open.
                Message::WatchFailed => {
                    &&& final(self).session == old(self).session
                    &&& final(self).file_tree == old(self).file_tree
                    &&& final(self).zoom_tenths == old(self).zoom_tenths
                    &&& !final(self).render.watching
                    &&& !final(self).render.is_rendering
                    &&& final(self).render.pages@ == Seq::<Vec<u8>>::empty()
                    &&& final(self).render.last_rendered is None
                    &&& acts@ =~= Seq::<Action>::empty()
                },
                Message::ZoomIn => {
                    &&& final(self).zoom_tenths == (if old(self).zoom_tenths
                        + ZOOM_STEP_TENTHS >= ZOOM_MAX_TENTHS {
                        ZOOM_MAX_TENTHS
                    } else {
                        (old(self).zoom_tenths + ZOOM_STEP_TENTHS) as u32
                    })
                    &&& final(self).session == old(self).session
                    &&& final(self).file_tree == old(self).file_tree
                    &&& final(self).render == old(self).render
                    &&& acts@ =~= Seq::<Action>::empty()
                },
                Message::ZoomOut => {
                    &&& final(self).zoom_tenths == (if old(self).zoom_tenths <= ZOOM_MIN_TENTHS
                        + ZOOM_STEP_TENTHS {
                        ZOOM_MIN_TENTHS
                    } else {
                        (old(self).zoom_tenths - ZOOM_STEP_TENTHS) as u32
                    })
                    &&& final(self).session == old(self).session
                    &&& final(self).file_tree == old(self).file_tree
                    &&& final(self).render == old(self).render
                    &&& acts@ =~= Seq::<Action>::empty()
                },
                Message::ResetZoom => {
                    &&& final(self).zoom_tenths == ZOOM_DEFAULT_TENTHS
                    &&& final(self).session == old(self).session
                    &&& final(self).file_tree == old(self).file_tree
                    &&& final(self).render == old(self).render
                    &&& acts@ =~= Seq::<Action>::empty()
                },
            },
    {
        match msg {
            Message::Edit(t) => {
                self.session.apply_edit(t);
                Vec::new()
            },
            Message::OpenFile => {
                let mut acts: Vec<Action> = Vec::new();
                acts.push(Action::PickFile);
                proof {
                    assert(acts@ =~= seq![Action::PickFile]);
                }
                acts
            },
            Message::FileOpened(res) => match res {
                Result::Ok(of) => {
                    let OpenedFile { path, content } = of;
                    let mut acts: Vec<Action> = Vec::new();
                    let was_watching = self.render.watching;
                    if was_watching {
                        acts.push(Action::KillWatcher);
                    }
                    let spawn_path = path.clone();
                    self.session.open_file(path, content);
                    self.render.start_watching(true);
                    acts.push(Action::SpawnWatcher(spawn_path));
                    proof {
                        if was_watching {
                            assert(acts@ =~= seq![
                                Action::KillWatcher,
                                Action::SpawnWatcher(spawn_path),
                            ]);
                        } else {
                            assert(acts@ =~= seq![Action::SpawnWatcher(spawn_path)]);
                        }
                    }
                    acts
                },
                Result::Err(_) => Vec::new(),
            },
            Message::OpenDir => {
                let mut acts: Vec<Action> = Vec::new();
                acts.push(Action::PickDirectory);
                proof {
                    assert(acts@ =~= seq![Action::PickDirectory]);
                }
                acts
            },
            Message::DirOpened(res) => match res {
                Result::Ok(p) => {
                    let mut acts: Vec<Action> = Vec::new();
                    acts.push(Action::LoadDirectory(p));
                    proof {
                        assert(acts@.len() == 1);
                    }
                    acts
                },
                Result::Err(_) => Vec::new(),
            },
            Message::SaveFile(now) => {
                let mut acts: Vec<Action> = Vec::new();
                match self.session.manual_save(now) {
                    Option::Some(job) => {
                        acts.push(Action::Write(job));
                    },
                    Option::None => {},
                }
                acts
            },
            Message::ToggleDir(p) => {
                let mut needs_load = false;
                toggle_dir_recursive(&mut self.file_tree, &p, &mut needs_load);
                let mut acts: Vec<Action> = Vec::new();
                if needs_load {
                    acts.push(Action::LoadDirectory(p));
                }
                proof {
                    if needs_load {
                        assert(acts@ =~= seq![Action::LoadDirectory(p)]);
                    } else {
                        assert(acts@ =~= Seq::<Action>::empty());
                    }
                }
                acts
            },
            Message::DirLoaded(p, entries) => {
                update_dir_children_recursive(&mut self.file_tree, &p, entries);
                Vec::new()
            },
            Message::ReloadRequested(now) => {
                let mut acts: Vec<Action> = Vec::new();
                match self.session.autosave(now) {
                    Option::Some(job) => {
                        acts.push(Action::Write(job));
                    },
                    Option::None => {},
                }
                if !self.render.is_rendering {
                    match &self.session.file {
                        Option::Some(p) => {
                            let q = with_extension(p.as_str(), "pdf");
                            acts.push(Action::CheckArtifact(q));
                        },
                        Option::None => {},
                    }
                }
                acts
            },
            Message::ArtifactChecked(mtime) => {
                let mut acts: Vec<Action> = Vec::new();
                if reload_due(mtime, self.render.last_rendered) {
                    match &self.session.file {
                        Option::Some(p) => {
                            let q = with_extension(p.as_str(), "pdf");
                            self.render.begin_reload();
                            acts.push(Action::RenderPages(q));
                        },
                        Option::None => {},
                    }
                }
                acts
            },
            Message::PdfRendered(result, now) => {
                self.render.apply_render(result, now);
                Vec::new()
            },
            Message::WatchFailed => {
                self.render.start_watching(false);
                Vec::new()
            },
            Message::ZoomIn => {
                if self.zoom_tenths >= ZOOM_MAX_TENTHS - ZOOM_STEP_TENTHS {
                    self.zoom_tenths = ZOOM_MAX_TENTHS;
                } else {
                    self.zoom_tenths = self.zoom_tenths + ZOOM_STEP_TENTHS;
                }
                Vec::new()
            },
            Message::ZoomOut => {
                if self.zoom_tenths <= ZOOM_MIN_TENTHS + ZOOM_STEP_TENTHS {
                    self.zoom_tenths = ZOOM_MIN_TENTHS;
                } else {
                    self.zoom_tenths = self.zoom_tenths - ZOOM_STEP_TENTHS;
                }
                Vec::new()
            },
            Message::ResetZoom => {
                self.zoom_tenths = ZOOM_DEFAULT_TENTHS;
                Vec::new()
            },
        }
    }
}

} // verus!
