use typtaps::app::TypTaps;
use typtaps::message::{key_intent, Action, KeyCommand, Message, OpenedFile};
use typtaps::render::RenderPhase;
use typtaps::tree::TreeEntry;

fn opened(path: &str, content: &str) -> Message {
    Message::FileOpened(Ok(OpenedFile {
        path: path.to_string(),
        content: Some(content.to_string()),
    }))
}

#[test]
fn open_file_starts_watching_and_poll_brings_one_page() {
    // Open /tmp/doc.typ with no prior render: Idle -> Watching, the
    // watcher is spawned; once the watcher wrote an artifact, the next
    // poll tick loads it and the state turns Ready with 1 page.
    let mut app = TypTaps::default();
    assert_eq!(app.render.current_phase(), RenderPhase::Idle);

    let acts = app.update(opened("/tmp/doc.typ", "= Title"));
    assert_eq!(app.render.current_phase(), RenderPhase::Watching);
    assert_eq!(acts.len(), 1);
    assert!(matches!(&acts[0], Action::SpawnWatcher(p) if p == "/tmp/doc.typ"));

    // The tick asks for the artifact's timestamp.
    let acts = app.update(Message::ReloadRequested(100));
    assert_eq!(acts.len(), 1);
    assert!(matches!(&acts[0], Action::CheckArtifact(p) if p == "/tmp/doc.pdf"));

    // The artifact exists and no render was taken over yet: render.
    let acts = app.update(Message::ArtifactChecked(Some(50)));
    assert_eq!(acts.len(), 1);
    assert!(matches!(&acts[0], Action::RenderPages(p) if p == "/tmp/doc.pdf"));
    assert!(app.render.is_rendering);

    // One page came back: Ready with 1 page.
    let acts = app.update(Message::PdfRendered(Ok(vec![vec![0u8, 1u8]]), 120));
    assert!(acts.is_empty());
    assert_eq!(app.render.current_phase(), RenderPhase::Ready);
    assert_eq!(app.render.pages.len(), 1);
}

#[test]
fn open_second_file_kills_previous_watcher() {
    let mut app = TypTaps::default();
    app.update(opened("/tmp/a.typ", ""));
    let acts = app.update(opened("/tmp/b.typ", ""));
    assert_eq!(acts.len(), 2);
    assert!(matches!(&acts[0], Action::KillWatcher));
    assert!(matches!(&acts[1], Action::SpawnWatcher(p) if p == "/tmp/b.typ"));
    assert_eq!(app.render.current_phase(), RenderPhase::Watching);
    assert!(app.render.pages.is_empty());
}

#[test]
fn spawn_failure_leaves_idle_without_pages() {
    let mut app = TypTaps::default();
    app.update(opened("/tmp/a.typ", ""));
    let acts = app.update(Message::WatchFailed);
    assert!(acts.is_empty());
    assert_eq!(app.render.current_phase(), RenderPhase::Idle);
    assert!(app.render.pages.is_empty());
}

#[test]
fn tick_while_rendering_schedules_nothing() {
    let mut app = TypTaps::default();
    app.update(opened("/tmp/a.typ", ""));
    app.update(Message::ReloadRequested(1));
    app.update(Message::ArtifactChecked(Some(1)));
    assert!(app.render.is_rendering);
    let acts = app.update(Message::ReloadRequested(2));
    assert!(acts.is_empty());
}

#[test]
fn stale_artifact_schedules_no_render() {
    let mut app = TypTaps::default();
    app.update(opened("/tmp/a.typ", ""));
    app.update(Message::ArtifactChecked(Some(50)));
    app.update(Message::PdfRendered(Ok(vec![vec![9u8]]), 60));
    // The artifact is not newer than what is on show.
    let acts = app.update(Message::ArtifactChecked(Some(60)));
    assert!(acts.is_empty());
    assert!(!app.render.is_rendering);
}

#[test]
fn tick_without_file_schedules_nothing() {
    let mut app = TypTaps::default();
    let acts = app.update(Message::ReloadRequested(5000));
    assert!(acts.is_empty());
}

#[test]
fn edit_updates_cursor_and_saves_later() {
    let mut app = TypTaps::default();
    app.update(opened("/tmp/doc.typ", "v1"));
    let acts = app.update(Message::Edit("hello\nworld".to_string()));
    assert!(acts.is_empty());
    assert_eq!(app.session.cursor_line, 2);
    assert_eq!(app.session.cursor_column, 6);
    assert!(app.session.dirty);
    // The next tick autosaves the dirty buffer (never saved before).
    let acts = app.update(Message::ReloadRequested(10));
    assert_eq!(acts.len(), 2);
    match &acts[0] {
        Action::Write(job) => {
            assert_eq!(job.path, "/tmp/doc.typ");
            assert_eq!(job.contents, "hello\nworld");
        }
        _ => panic!("expected a write"),
    }
    assert!(matches!(&acts[1], Action::CheckArtifact(_)));
    assert!(!app.session.dirty);
}

#[test]
fn save_without_file_does_nothing() {
    let mut app = TypTaps::default();
    app.update(Message::Edit("text".to_string()));
    let acts = app.update(Message::SaveFile(1));
    assert!(acts.is_empty());
    assert!(app.session.dirty);
}

#[test]
fn save_with_file_writes_buffer() {
    let mut app = TypTaps::default();
    app.update(opened("/tmp/doc.typ", "v1"));
    app.update(Message::Edit("v2".to_string()));
    let acts = app.update(Message::SaveFile(3));
    assert_eq!(acts.len(), 1);
    match &acts[0] {
        Action::Write(job) => assert_eq!(job.contents, "v2"),
        _ => panic!("expected a write"),
    }
    assert!(!app.session.dirty);
}

#[test]
fn toggle_unloaded_directory_schedules_load() {
    let mut app = TypTaps::default();
    let listing = vec![TreeEntry::Directory {
        path: "/r/d".to_string(),
        name: "d".to_string(),
        is_expanded: false,
        children: vec![],
    }];
    let acts = app.update(Message::DirLoaded("/r".to_string(), listing));
    assert!(acts.is_empty());
    assert_eq!(app.file_tree.len(), 1);
    let acts = app.update(Message::ToggleDir("/r/d".to_string()));
    assert_eq!(acts.len(), 1);
    assert!(matches!(&acts[0], Action::LoadDirectory(p) if p == "/r/d"));
}

#[test]
fn dialog_cancellations_change_nothing() {
    let mut app = TypTaps::default();
    let acts = app.update(Message::FileOpened(Err("cancelled".to_string())));
    assert!(acts.is_empty());
    let acts = app.update(Message::DirOpened(Err("cancelled".to_string())));
    assert!(acts.is_empty());
    assert!(app.session.file.is_none());
}

#[test]
fn open_dialog_requests() {
    let mut app = TypTaps::default();
    let acts = app.update(Message::OpenFile);
    assert!(matches!(acts[0], Action::PickFile));
    let acts = app.update(Message::OpenDir);
    assert!(matches!(acts[0], Action::PickDirectory));
    let acts = app.update(Message::DirOpened(Ok("/r".to_string())));
    assert!(matches!(&acts[0], Action::LoadDirectory(p) if p == "/r"));
}

#[test]
fn zoom_steps_and_bounds() {
    let mut app = TypTaps::default();
    assert_eq!(app.zoom_tenths, 10);
    app.update(Message::ZoomIn);
    assert_eq!(app.zoom_tenths, 12);
    app.update(Message::ZoomOut);
    app.update(Message::ZoomOut);
    assert_eq!(app.zoom_tenths, 8);
    for _ in 0..60 {
        app.update(Message::ZoomIn);
    }
    assert_eq!(app.zoom_tenths, 100);
    for _ in 0..60 {
        app.update(Message::ZoomOut);
    }
    assert_eq!(app.zoom_tenths, 1);
    app.update(Message::ResetZoom);
    assert_eq!(app.zoom_tenths, 10);
}

#[test]
fn key_shortcuts() {
    assert_eq!(key_intent('s', true), Some(KeyCommand::Save));
    assert_eq!(key_intent('s', false), None);
    assert_eq!(key_intent('+', true), Some(KeyCommand::ZoomIn));
    assert_eq!(key_intent('=', true), Some(KeyCommand::ZoomIn));
    assert_eq!(key_intent('-', true), Some(KeyCommand::ZoomOut));
    assert_eq!(key_intent('_', true), Some(KeyCommand::ZoomOut));
    assert_eq!(key_intent(')', true), Some(KeyCommand::ZoomReset));
    assert_eq!(key_intent('0', true), Some(KeyCommand::ZoomReset));
    assert_eq!(key_intent('x', true), None);
}
