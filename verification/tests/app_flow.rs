use download_manager::app::App;
use download_manager::app_event::{AppEvent, AppMode, Effect, KeyCode, KeyPress};
use download_manager::job::{DownloadJob, DownloadStrategy, Status};
use download_manager::key_events::KeyEvent;
use download_manager::view::View;

fn key(code: KeyCode) -> KeyPress {
    KeyPress { code, ctrl: false }
}

fn ctrl(c: char) -> KeyPress {
    KeyPress { code: KeyCode::Char(c), ctrl: true }
}

#[test]
fn new_app_state() {
    let app = App::new();
    assert!(app.running);
    assert_eq!(app.mode, AppMode::Normal);
    assert!(!app.show_popup);
    assert!(app.table.items.is_empty());
    assert_eq!(app.dev_table.items.len(), 12);
}

#[test]
fn quit_stops() {
    let mut app = App::new();
    app.tick();
    let effects = app.handle_app_event(AppEvent::Quit);
    assert!(effects.is_empty());
    assert!(!app.running);
}

#[test]
fn job_events_update_the_matching_job() {
    let mut app = App::new();
    app.handle_app_event(AppEvent::Job(DownloadJob::with_id(1, "u1", "a")));
    app.handle_app_event(AppEvent::Job(DownloadJob::with_id(2, "u2", "b")));
    app.handle_app_event(AppEvent::JobSize(2, 500));
    app.handle_app_event(AppEvent::JobStrategy(2, DownloadStrategy::Parallel));
    app.handle_app_event(AppEvent::JobProgress(2, 250, 50, 5));
    app.handle_app_event(AppEvent::JobStatus(2, Status::InProgress));
    app.handle_app_event(AppEvent::JobStatus(77, Status::Failed));
    assert_eq!(app.table.items.len(), 2);
    let a = &app.table.items[0];
    assert_eq!(a.size, 1);
    assert_eq!(a.status, Status::Pending);
    let b = &app.table.items[1];
    assert_eq!(b.size, 500);
    assert_eq!(b.strategy, DownloadStrategy::Parallel);
    assert_eq!((b.progress, b.speed, b.eta), (250, 50, 5));
    assert_eq!(b.status, Status::InProgress);
}

#[test]
fn job_event_updates_first_of_equal_ids() {
    let mut app = App::new();
    app.handle_app_event(AppEvent::Job(DownloadJob::with_id(5, "u", "first")));
    app.handle_app_event(AppEvent::Job(DownloadJob::with_id(5, "u", "second")));
    app.handle_app_event(AppEvent::JobStatus(5, Status::Completed));
    assert_eq!(app.table.items[0].status, Status::Completed);
    assert_eq!(app.table.items[1].status, Status::Pending);
}

#[test]
fn table_navigation() {
    let mut app = App::new();
    for id in 0..3 {
        app.handle_app_event(AppEvent::Job(DownloadJob::with_id(id, "u", "f")));
    }
    app.handle_app_event(AppEvent::MoveDown);
    assert_eq!(app.table.state.selected(), Some(0));
    app.handle_app_event(AppEvent::MoveUp);
    assert_eq!(app.table.state.selected(), Some(2));
}

#[test]
fn editing_events() {
    let mut app = App::new();
    app.mode = AppMode::Insert;
    for c in "abc".chars() {
        app.handle_app_event(AppEvent::EnterChar(c));
    }
    app.handle_app_event(AppEvent::MoveCursorLeft);
    app.handle_app_event(AppEvent::Backspace);
    assert_eq!(app.insert.url, "ac");
    app.handle_app_event(AppEvent::MoveCursorRight);
    assert_eq!(app.insert.character_index, 2);
    app.handle_app_event(AppEvent::EscInsert);
    assert_eq!(app.insert.url, "");
    assert_eq!(app.mode, AppMode::Normal);
}

#[test]
fn submitting_a_url_starts_a_download() {
    let mut app = App::new();
    app.mode = AppMode::Insert;
    for c in "https://example.com/x.bin".chars() {
        app.handle_app_event(AppEvent::EnterChar(c));
    }
    let effects = app.handle_app_event(AppEvent::EnterInsert);
    assert_eq!(effects.len(), 2);
    let id = match &effects[0] {
        Effect::Emit(AppEvent::Job(job)) => {
            assert_eq!(job.filename, "x.bin");
            job.id
        }
        other => panic!("unexpected {:?}", other),
    };
    match &effects[1] {
        Effect::StartDownload(job) => assert_eq!(job.id, id),
        other => panic!("unexpected {:?}", other),
    }
    assert_eq!(app.insert.url, "");
    assert_eq!(app.mode, AppMode::Insert);
}

#[test]
fn submitting_garbage_only_reports() {
    let mut app = App::new();
    app.insert.url = "::".to_string();
    let effects = app.handle_app_event(AppEvent::EnterInsert);
    assert_eq!(effects.len(), 1);
    match &effects[0] {
        Effect::Emit(AppEvent::Job(job)) => assert_eq!(job.status, Status::Failed),
        other => panic!("unexpected {:?}", other),
    }
}

#[test]
fn normal_mode_keys() {
    let mut app = App::new();
    assert!(KeyEvent::handle_key_events(&mut app, key(KeyCode::Char('x'))).is_empty());
    assert_eq!(app.mode, AppMode::Normal);
    KeyEvent::handle_key_events(&mut app, key(KeyCode::Char('I')));
    assert_eq!(app.mode, AppMode::Insert);
    app.mode = AppMode::Normal;
    KeyEvent::handle_key_events(&mut app, key(KeyCode::Char('t')));
    assert_eq!(app.mode, AppMode::Table);
    app.mode = AppMode::Normal;
    KeyEvent::handle_key_events(&mut app, key(KeyCode::Char('d')));
    assert!(app.show_popup);
    app.show_popup = false;
    let effects = KeyEvent::handle_key_events(&mut app, ctrl('c'));
    assert!(matches!(effects[..], [Effect::Emit(AppEvent::Quit)]));
    assert!(KeyEvent::handle_key_events(&mut app, key(KeyCode::Char('c'))).is_empty());
}

#[test]
fn insert_mode_keys() {
    let mut app = App::new();
    app.mode = AppMode::Insert;
    let cases = [
        (key(KeyCode::Esc), "EscInsert"),
        (key(KeyCode::Backspace), "Backspace"),
        (key(KeyCode::Char('q')), "EnterChar('q')"),
        (key(KeyCode::Left), "MoveCursorLeft"),
        (key(KeyCode::Right), "MoveCursorRight"),
        (key(KeyCode::Enter), "EnterInsert"),
        (ctrl('C'), "Quit"),
        (ctrl('x'), "EnterChar('x')"),
    ];
    for (k, expected) in cases {
        let effects = KeyEvent::handle_key_events(&mut app, k);
        assert_eq!(effects.len(), 1);
        assert_eq!(format!("{:?}", effects[0]), format!("Emit({expected})"));
    }
    assert!(KeyEvent::handle_key_events(&mut app, key(KeyCode::Up)).is_empty());
    assert_eq!(app.mode, AppMode::Insert);
}

#[test]
fn table_mode_keys() {
    let mut app = App::new();
    app.mode = AppMode::Table;
    let cases = [
        (key(KeyCode::Esc), "EscInsert"),
        (key(KeyCode::Up), "MoveUp"),
        (key(KeyCode::Down), "MoveDown"),
        (ctrl('c'), "Quit"),
    ];
    for (k, expected) in cases {
        let effects = KeyEvent::handle_key_events(&mut app, k);
        assert_eq!(effects.len(), 1);
        assert_eq!(format!("{:?}", effects[0]), format!("Emit({expected})"));
    }
    assert!(KeyEvent::handle_key_events(&mut app, key(KeyCode::Char('a'))).is_empty());
}

#[test]
fn popup_navigation_and_closing() {
    let mut app = App::new();
    app.show_popup = true;
    KeyEvent::handle_key_events(&mut app, key(KeyCode::Down));
    KeyEvent::handle_key_events(&mut app, key(KeyCode::Down));
    assert_eq!(app.dev_table.state.selected(), Some(1));
    KeyEvent::handle_key_events(&mut app, key(KeyCode::Up));
    KeyEvent::handle_key_events(&mut app, key(KeyCode::Up));
    assert_eq!(app.dev_table.state.selected(), Some(11));
    KeyEvent::handle_key_events(&mut app, key(KeyCode::Char('D')));
    assert!(!app.show_popup);
}

#[test]
fn popup_enter_submits_sample() {
    let mut app = App::new();
    app.show_popup = true;
    assert!(KeyEvent::handle_key_events(&mut app, key(KeyCode::Enter)).is_empty());
    KeyEvent::handle_key_events(&mut app, key(KeyCode::Down));
    assert!(KeyEvent::handle_key_events(&mut app, key(KeyCode::Enter)).is_empty());
    KeyEvent::handle_key_events(&mut app, key(KeyCode::Down));
    let effects = KeyEvent::handle_key_events(&mut app, key(KeyCode::Enter));
    assert_eq!(effects.len(), 2);
    match &effects[1] {
        Effect::StartDownload(job) => {
            assert_eq!(job.filename, "ubuntu-24.04.2-desktop-amd64.iso");
            assert_eq!(job.url, "https://releases.ubuntu.com/24.04.2/ubuntu-24.04.2-desktop-amd64.iso");
        }
        other => panic!("unexpected {:?}", other),
    }
    assert!(app.show_popup);
    assert_eq!(app.insert.url, "");
}

#[test]
fn view_helpers() {
    assert_eq!(View::input_height(AppMode::Insert), 3);
    assert_eq!(View::input_height(AppMode::Table), 1);
    assert_eq!(View::cursor_position(10, 20, 4), (15, 21));
    assert_eq!(View::mode_title(AppMode::Normal), " Normal Mode ");
    let hint: String = View::footer_hint(AppMode::Table).into_iter().map(|(t, _)| t).collect();
    assert_eq!(
        hint,
        "Press [Esc] to return back. [\u{2191}] to move up.[\u{2193}] to move down. Press [Ctrl+C] to exit."
    );
    let normal = View::footer_hint(AppMode::Normal);
    assert_eq!(normal[1], ("[I]".to_string(), true));
    assert_eq!(normal[0], ("Press ".to_string(), false));
}

#[test]
fn control_c_quits_in_every_mode() {
    for (mode, popup) in [
        (AppMode::Normal, false),
        (AppMode::Insert, false),
        (AppMode::Table, false),
        (AppMode::Normal, true),
    ] {
        let mut app = App::new();
        app.mode = mode;
        app.show_popup = popup;
        let effects = KeyEvent::handle_key_events(&mut app, ctrl('c'));
        assert_eq!(effects.len(), 1);
        assert_eq!(app.mode, mode);
        let mut events = vec![];
        for e in effects {
            match e {
                Effect::Emit(ev) => events.push(ev),
                other => panic!("unexpected {:?}", other),
            }
        }
        for ev in events {
            app.handle_app_event(ev);
        }
        assert!(!app.running);
    }
}

#[test]
fn escape_returns_to_normal_mode() {
    for mode in [AppMode::Insert, AppMode::Table] {
        let mut app = App::new();
        app.mode = mode;
        app.insert.url = "abc".to_string();
        app.insert.character_index = 1;
        let effects = KeyEvent::handle_key_events(&mut app, key(KeyCode::Esc));
        for e in effects {
            if let Effect::Emit(ev) = e {
                app.handle_app_event(ev);
            }
        }
        assert_eq!(app.mode, AppMode::Normal);
        assert_eq!(app.insert.url, "");
        assert_eq!(app.insert.character_index, 0);
    }
}

#[test]
fn guards_report_unhandled_moves() {
    let mut app = App::new();
    assert!(app.can_handle(&AppEvent::MoveDown));
    app.handle_app_event(AppEvent::MoveDown);
    assert!(!app.can_handle(&AppEvent::MoveDown));
    assert!(!app.can_handle(&AppEvent::MoveUp));
    app.show_popup = true;
    app.dev_table.state.select(Some(40));
    assert!(!KeyEvent::can_handle(&app, &key(KeyCode::Enter)));
    assert!(KeyEvent::can_handle(&app, &key(KeyCode::Down)));
    assert!(KeyEvent::can_handle(&app, &ctrl('c')));
}
