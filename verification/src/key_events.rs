//! Key bindings: what each key press does in each mode.

use vstd::prelude::*;
use crate::app::{App, event_step, same_but_editor, submitted};
use crate::app_event::{AppEvent, AppMode, Effect, KeyCode, KeyPress, is_quit_key, quit_key};
use crate::list_state::{can_move_down, can_move_up, row_above, row_below};

verus! {

/// Dispatches key presses to the application.
pub struct KeyEvent;

/// The event a key queues while typing a URL.
pub open spec fn insert_mode_event(k: KeyPress) -> Option<AppEvent> {
    if is_quit_key(k) {
        Some(AppEvent::Quit)
    } else {
        match k.code {
            KeyCode::Esc => Some(AppEvent::EscInsert),
            KeyCode::Backspace => Some(AppEvent::Backspace),
            KeyCode::Char(c) => Some(AppEvent::EnterChar(c)),
            KeyCode::Left => Some(AppEvent::MoveCursorLeft),
            KeyCode::Right => Some(AppEvent::MoveCursorRight),
            KeyCode::Enter => Some(AppEvent::EnterInsert),
            _ => None,
        }
    }
}

/// The event a key queues while moving through the table.
pub open spec fn table_mode_event(k: KeyPress) -> Option<AppEvent> {
    if is_quit_key(k) {
        Some(AppEvent::Quit)
    } else {
        match k.code {
            KeyCode::Esc => Some(AppEvent::EscInsert),
            KeyCode::Up => Some(AppEvent::MoveUp),
            KeyCode::Down => Some(AppEvent::MoveDown),
            _ => None,
        }
    }
}

/// The effects that queue `e`, if any.
pub open spec fn emits(effects: Seq<Effect>, e: Option<AppEvent>) -> bool {
    match e {
        Some(ev) => effects == seq![Effect::Emit(ev)],
        None => effects.len() == 0,
    }
}

/// The mode a key switches to in normal mode, if it switches.
pub open spec fn normal_mode_target(k: KeyPress) -> Option<AppMode> {
    if is_quit_key(k) {
        None
    } else if k.code == KeyCode::Char('i') || k.code == KeyCode::Char('I') {
        Some(AppMode::Insert)
    } else if k.code == KeyCode::Char('t') || k.code == KeyCode::Char('T') {
        Some(AppMode::Table)
    } else {
        None
    }
}

/// Whether a key opens the pop-up in normal mode.
pub open spec fn opens_popup(k: KeyPress) -> bool {
    !is_quit_key(k) && (k.code == KeyCode::Char('d') || k.code == KeyCode::Char('D'))
}

/// Whether a key closes the pop-up.
pub open spec fn closes_popup(k: KeyPress) -> bool {
    !is_quit_key(k) && (k.code == KeyCode::Esc || k.code == KeyCode::Char('d') || k.code
        == KeyCode::Char('D'))
}

/// Whether a key press can be handled in a state: moving in the pop-up list
/// needs a row to move to, and choosing from it needs the selected row to
/// exist.
pub open spec fn key_allowed(app: App, k: KeyPress) -> bool {
    app.show_popup && !is_quit_key(k) ==> match k.code {
        KeyCode::Up => can_move_up(app.dev_table.state.selected, app.dev_table.items@.len()),
        KeyCode::Down => can_move_down(app.dev_table.state.selected, app.dev_table.items@.len()),
        KeyCode::Enter => match app.dev_table.state.selected {
            Some(i) => i < app.dev_table.items@.len(),
            None => true,
        },
        _ => true,
    }
}

/// How the state `new` and the effects follow from `old` and a key press
/// while the pop-up is shown.
pub open spec fn popup_step(old: App, k: KeyPress, new: App, effects: Seq<Effect>) -> bool {
    if is_quit_key(k) {
        new == old && effects == seq![Effect::Emit(AppEvent::Quit)]
    } else if closes_popup(k) {
        new == App { show_popup: false, ..old } && effects.len() == 0
    } else {
        match k.code {
            KeyCode::Up => {
                &&& new.dev_table.items@ == old.dev_table.items@
                &&& new.dev_table.state.selected == Some(
                    row_above(old.dev_table.state.selected, old.dev_table.items@.len()),
                )
                &&& new.running == old.running && new.insert == old.insert && new.mode == old.mode
                &&& new.show_popup == old.show_popup && new.table == old.table
                &&& effects.len() == 0
            },
            KeyCode::Down => {
                &&& new.dev_table.items@ == old.dev_table.items@
                &&& new.dev_table.state.selected == Some(
                    row_below(old.dev_table.state.selected, old.dev_table.items@.len()),
                )
                &&& new.running == old.running && new.insert == old.insert && new.mode == old.mode
                &&& new.show_popup == old.show_popup && new.table == old.table
                &&& effects.len() == 0
            },
            KeyCode::Enter => match old.dev_table.state.selected {
                Some(i) if old.dev_table.items@[i as int].url@.len() > 0 => {
                    &&& same_but_editor(new, old)
                    &&& new.mode == old.mode
                    &&& new.insert.url@ == Seq::<char>::empty()
                    &&& new.insert.character_index == 0
                    &&& submitted(effects, old.dev_table.items@[i as int].url@)
                },
                _ => new == old && effects.len() == 0,
            },
            _ => new == old && effects.len() == 0,
        }
    }
}

/// How the state `new` and the effects follow from `old` and a key press.
pub open spec fn key_step(old: App, k: KeyPress, new: App, effects: Seq<Effect>) -> bool {
    if old.show_popup {
        popup_step(old, k, new, effects)
    } else {
        match old.mode {
            AppMode::Normal => if is_quit_key(k) {
                new == old && effects == seq![Effect::Emit(AppEvent::Quit)]
            } else if normal_mode_target(k) is Some {
                new == App { mode: normal_mode_target(k).unwrap(), ..old } && effects.len() == 0
            } else if opens_popup(k) {
                new == App { show_popup: true, ..old } && effects.len() == 0
            } else {
                new == old && effects.len() == 0
            },
            AppMode::Insert => new == old && emits(effects, insert_mode_event(k)),
            AppMode::Table => new == old && emits(effects, table_mode_event(k)),
        }
    }
}

fn emit(e: Option<AppEvent>) -> (effects: Vec<Effect>)
    ensures
        emits(effects@, e),
{
    let ghost given = e;
    let mut effects: Vec<Effect> = Vec::new();
    if let Some(ev) = e {
        effects.push(Effect::Emit(ev));
        assert(effects@ =~= seq![Effect::Emit(given.unwrap())]);
    }
    effects
}

impl KeyEvent {
    /// Whether a key press can be handled now (see [`key_allowed`]).
    pub fn can_handle(app: &App, key_event: &KeyPress) -> (r: bool)
        ensures
            r == key_allowed(*app, *key_event),
    {
        if !app.show_popup || quit_key(key_event) {
            return true;
        }
        let len = app.dev_table.items.len();
        match key_event.code {
            KeyCode::Up => match app.dev_table.state.selected() {
                Some(i) => !(i == 0 && len == 0),
                None => true,
            },
            KeyCode::Down => match app.dev_table.state.selected() {
                Some(_) => len > 0,
                None => true,
            },
            KeyCode::Enter => match app.dev_table.state.selected() {
                Some(i) => i < len,
                None => true,
            },
            _ => true,
        }
    }

    /// Reacts to a key press in the current mode; the pop-up, when shown,
    /// takes every key.
    pub fn handle_key_events(app: &mut App, key_event: KeyPress) -> (effects: Vec<Effect>)
        requires
            key_allowed(*old(app), key_event),
        ensures
            key_step(*old(app), key_event, *final(app), effects@),
    {
        if app.show_popup {
            return KeyEvent::handle_popup(app, key_event);
        }
        match app.mode {
            AppMode::Normal => KeyEvent::handle_normal(app, key_event),
            AppMode::Insert => KeyEvent::handle_input_mode(key_event),
            AppMode::Table => KeyEvent::handle_table_mode(key_event),
        }
    }

    fn handle_popup(app: &mut App, key_event: KeyPress) -> (effects: Vec<Effect>)
        requires
            old(app).show_popup,
            key_allowed(*old(app), key_event),
        ensures
            popup_step(*old(app), key_event, *final(app), effects@),
    {
        if quit_key(&key_event) {
            return emit(Some(AppEvent::Quit));
        }
        match key_event.code {
            KeyCode::Esc | KeyCode::Char('d') | KeyCode::Char('D') => {
                app.show_popup = false;
                Vec::new()
            },
            KeyCode::Up => {
                app.dev_table.move_up();
                Vec::new()
            },
            KeyCode::Down => {
                app.dev_table.move_down();
                Vec::new()
            },
            KeyCode::Enter => {
                let index = match app.dev_table.state.selected() {
                    Some(index) => index,
                    None => return Vec::new(),
                };
                if app.dev_table.items[index].url.as_str().is_empty() {
                    return Vec::new();
                }
                app.insert.url = app.dev_table.items[index].url.clone();
                app.submit()
            },
            _ => Vec::new(),
        }
    }

    fn handle_normal(app: &mut App, key_event: KeyPress) -> (effects: Vec<Effect>)
        requires
            !old(app).show_popup,
            old(app).mode == AppMode::Normal,
        ensures
            key_step(*old(app), key_event, *final(app), effects@),
    {
        if quit_key(&key_event) {
            return emit(Some(AppEvent::Quit));
        }
        match key_event.code {
            KeyCode::Char('i') | KeyCode::Char('I') => app.mode = AppMode::Insert,
            KeyCode::Char('t') | KeyCode::Char('T') => app.mode = AppMode::Table,
            KeyCode::Char('d') | KeyCode::Char('D') => app.show_popup = true,
            _ => {},
        }
        Vec::new()
    }

    fn handle_input_mode(key_event: KeyPress) -> (effects: Vec<Effect>)
        ensures
            emits(effects@, insert_mode_event(key_event)),
    {
        if quit_key(&key_event) {
            return emit(Some(AppEvent::Quit));
        }
        let e = match key_event.code {
            KeyCode::Esc => Some(AppEvent::EscInsert),
            KeyCode::Backspace => Some(AppEvent::Backspace),
            KeyCode::Char(c) => Some(AppEvent::EnterChar(c)),
            KeyCode::Left => Some(AppEvent::MoveCursorLeft),
            KeyCode::Right => Some(AppEvent::MoveCursorRight),
            KeyCode::Enter => Some(AppEvent::EnterInsert),
            _ => None,
        };
        emit(e)
    }

    fn handle_table_mode(key_event: KeyPress) -> (effects: Vec<Effect>)
        ensures
            emits(effects@, table_mode_event(key_event)),
    {
        if quit_key(&key_event) {
            return emit(Some(AppEvent::Quit));
        }
        let e = match key_event.code {
            KeyCode::Esc => Some(AppEvent::EscInsert),
            KeyCode::Up => Some(AppEvent::MoveUp),
            KeyCode::Down => Some(AppEvent::MoveDown),
            _ => None,
        };
        emit(e)
    }
}

} // verus!

verus! {

/// Control-C quits from everywhere: in every mode, and with the pop-up shown
/// or not, it changes nothing and queues the quit event, whose handling stops
/// the application.
pub proof fn control_c_quits_everywhere(
    a: App,
    k: KeyPress,
    b: App,
    effects: Seq<Effect>,
    c: App,
    more: Seq<Effect>,
)
    requires
        is_quit_key(k),
        key_step(a, k, b, effects),
        event_step(b, AppEvent::Quit, c, more),
    ensures
        b == a,
        effects == seq![Effect::Emit(AppEvent::Quit)],
        !c.running,
{
}

/// Escape leaves typing and table navigation: it queues the event that
/// empties the editor and returns to normal mode.
pub proof fn escape_returns_to_normal(
    a: App,
    b: App,
    effects: Seq<Effect>,
    c: App,
    more: Seq<Effect>,
)
    requires
        !a.show_popup,
        a.mode == AppMode::Insert || a.mode == AppMode::Table,
        key_step(a, KeyPress { code: KeyCode::Esc, ctrl: false }, b, effects),
        event_step(b, AppEvent::EscInsert, c, more),
    ensures
        effects == seq![Effect::Emit(AppEvent::EscInsert)],
        c.mode == AppMode::Normal,
        c.insert.url@ == Seq::<char>::empty(),
        c.insert.character_index == 0,
{
}

} // verus!

verus! {

/// In normal mode (pop-up hidden), `i` and `I` open the editor, `t` and `T`
/// switch to the table, `d` and `D` show the pop-up, with or without Control;
/// each changes only that and asks for nothing.
pub proof fn normal_mode_bindings(a: App, ctrl: bool, c: char, b: App, effects: Seq<Effect>)
    requires
        !a.show_popup,
        a.mode == AppMode::Normal,
        c == 'i' || c == 'I' || c == 't' || c == 'T' || c == 'd' || c == 'D',
        key_step(a, KeyPress { code: KeyCode::Char(c), ctrl }, b, effects),
    ensures
        effects.len() == 0,
        (c == 'i' || c == 'I') ==> b == (App { mode: AppMode::Insert, ..a }),
        (c == 't' || c == 'T') ==> b == (App { mode: AppMode::Table, ..a }),
        (c == 'd' || c == 'D') ==> b == (App { show_popup: true, ..a }),
{
}

/// In normal mode, any other key without Control changes nothing and asks
/// for nothing.
pub proof fn normal_mode_other_keys(a: App, k: KeyPress, b: App, effects: Seq<Effect>)
    requires
        !a.show_popup,
        a.mode == AppMode::Normal,
        !k.ctrl,
        k.code != KeyCode::Char('i') && k.code != KeyCode::Char('I'),
        k.code != KeyCode::Char('t') && k.code != KeyCode::Char('T'),
        k.code != KeyCode::Char('d') && k.code != KeyCode::Char('D'),
        key_step(a, k, b, effects),
    ensures
        b == a,
        effects.len() == 0,
{
}

/// With the pop-up shown, Esc, `d` and `D` hide it (with or without Control)
/// and change nothing else, asking for nothing.
pub proof fn popup_closes(a: App, code: KeyCode, ctrl: bool, b: App, effects: Seq<Effect>)
    requires
        a.show_popup,
        code == KeyCode::Esc || code == KeyCode::Char('d') || code == KeyCode::Char('D'),
        key_step(a, KeyPress { code, ctrl }, b, effects),
    ensures
        b == (App { show_popup: false, ..a }),
        effects.len() == 0,
{
}

/// With the pop-up shown, Up and Down move through the sample list with
/// wrap-around and change nothing else; the mode keys do nothing there.
pub proof fn popup_navigation(a: App, code: KeyCode, b: App, effects: Seq<Effect>)
    requires
        a.show_popup,
        key_step(a, KeyPress { code, ctrl: false }, b, effects),
    ensures
        code == KeyCode::Up ==> (b.dev_table.state.selected == Some(
            row_above(a.dev_table.state.selected, a.dev_table.items@.len()),
        ) && b.dev_table.items@ == a.dev_table.items@ && b.table == a.table && b.insert == a.insert
            && b.mode == a.mode && b.show_popup && effects.len() == 0),
        code == KeyCode::Down ==> (b.dev_table.state.selected == Some(
            row_below(a.dev_table.state.selected, a.dev_table.items@.len()),
        ) && b.dev_table.items@ == a.dev_table.items@ && b.table == a.table && b.insert == a.insert
            && b.mode == a.mode && b.show_popup && effects.len() == 0),
        (code == KeyCode::Char('i') || code == KeyCode::Char('t')) ==> (b == a && effects.len()
            == 0),
{
}

/// With the pop-up shown, Enter on a sample with a URL submits that URL,
/// empties the editor and keeps the pop-up; on a heading, or with nothing
/// selected, it does nothing.
pub proof fn popup_enter(a: App, b: App, effects: Seq<Effect>)
    requires
        a.show_popup,
        key_step(a, KeyPress { code: KeyCode::Enter, ctrl: false }, b, effects),
    ensures
        a.dev_table.state.selected is None ==> (b == a && effects.len() == 0),
        (a.dev_table.state.selected is Some && a.dev_table.items@[a.dev_table.state.selected.unwrap() as int].url@.len() == 0)
            ==> (b == a && effects.len() == 0),
        (a.dev_table.state.selected is Some && a.dev_table.items@[a.dev_table.state.selected.unwrap() as int].url@.len() > 0)
            ==> (submitted(effects, a.dev_table.items@[a.dev_table.state.selected.unwrap() as int].url@) && b.show_popup
            && b.insert.url@.len() == 0 && b.table == a.table && b.mode == a.mode),
{
}

/// While typing a URL, each key queues its editing event: Esc leaves,
/// Backspace deletes, a character (without Control, or with Control unless
/// it is `c`/`C`) is typed, the arrows move the cursor and Enter submits; the
/// state itself is left to the queued event.
pub proof fn insert_mode_bindings(a: App, k: KeyPress, b: App, effects: Seq<Effect>)
    requires
        !a.show_popup,
        a.mode == AppMode::Insert,
        !is_quit_key(k),
        key_step(a, k, b, effects),
    ensures
        b == a,
        k.code == KeyCode::Esc ==> effects == seq![Effect::Emit(AppEvent::EscInsert)],
        k.code == KeyCode::Backspace ==> effects == seq![Effect::Emit(AppEvent::Backspace)],
        k.code matches KeyCode::Char(c) ==> effects == seq![Effect::Emit(AppEvent::EnterChar(c))],
        k.code == KeyCode::Left ==> effects == seq![Effect::Emit(AppEvent::MoveCursorLeft)],
        k.code == KeyCode::Right ==> effects == seq![Effect::Emit(AppEvent::MoveCursorRight)],
        k.code == KeyCode::Enter ==> effects == seq![Effect::Emit(AppEvent::EnterInsert)],
        (k.code == KeyCode::Up || k.code == KeyCode::Down || k.code == KeyCode::Other)
            ==> effects.len() == 0,
{
}

/// While moving through the table, Esc leaves, Up and Down queue the moves,
/// and other keys do nothing.
pub proof fn table_mode_bindings(a: App, k: KeyPress, b: App, effects: Seq<Effect>)
    requires
        !a.show_popup,
        a.mode == AppMode::Table,
        !is_quit_key(k),
        key_step(a, k, b, effects),
    ensures
        b == a,
        k.code == KeyCode::Esc ==> effects == seq![Effect::Emit(AppEvent::EscInsert)],
        k.code == KeyCode::Up ==> effects == seq![Effect::Emit(AppEvent::MoveUp)],
        k.code == KeyCode::Down ==> effects == seq![Effect::Emit(AppEvent::MoveDown)],
        !(k.code == KeyCode::Esc || k.code == KeyCode::Up || k.code == KeyCode::Down)
            ==> effects.len() == 0,
{
}

} // verus!
