//! The application's state and how it reacts to each event.

use vstd::prelude::*;
use crate::app_event::{AppEvent, AppMode, Effect};
use crate::dev::{DevList, dev_row, sample_catalog};
use crate::insert::{
    Insert, Submission, SubmissionView, cursor_after_delete, cursor_after_enter, expected_submission,
    text_after_delete, text_after_enter, trim, url_parse, at_most,
};
use crate::job::{DownloadJob, is_random_uuid};
use crate::list_state::{ListState, can_move_down, can_move_up, row_above, row_below};

verus! {

/// The state of the application.
#[derive(Debug)]
pub struct App {
    pub running: bool,
    pub insert: Insert,
    pub mode: AppMode,
    /// Whether the pop-up list of sample downloads is shown.
    pub show_popup: bool,
    pub dev_table: ListState<DevList>,
    pub table: ListState<DownloadJob>,
}

/// `k` is the first position of a job with identifier `id`.
pub open spec fn is_first_with_id(jobs: Seq<DownloadJob>, id: u128, k: int) -> bool {
    &&& 0 <= k < jobs.len()
    &&& jobs[k].id == id
    &&& forall|j: int| 0 <= j < k ==> jobs[j].id != id
}

/// The position of the first job with identifier `id`, if there is one.
pub open spec fn first_with_id(jobs: Seq<DownloadJob>, id: u128) -> Option<int> {
    if exists|k: int| is_first_with_id(jobs, id, k) {
        Some(choose|k: int| is_first_with_id(jobs, id, k))
    } else {
        None
    }
}

/// `jobs` with the first job of identifier `id` replaced by `f` of it; the
/// same jobs when none has that identifier.
pub open spec fn update_first(
    jobs: Seq<DownloadJob>,
    id: u128,
    f: spec_fn(DownloadJob) -> DownloadJob,
) -> Seq<DownloadJob> {
    match first_with_id(jobs, id) {
        Some(k) => jobs.update(k, f(jobs[k])),
        None => jobs,
    }
}

/// The first position of an identifier is unique.
pub proof fn first_with_id_unique(jobs: Seq<DownloadJob>, id: u128, k1: int, k2: int)
    requires
        is_first_with_id(jobs, id, k1),
        is_first_with_id(jobs, id, k2),
    ensures
        k1 == k2,
{
    if k1 < k2 {
        assert(jobs[k1].id != id);
    } else if k2 < k1 {
        assert(jobs[k2].id != id);
    }
}

/// The effects of a submission: a job that failed at once is queued for the
/// table; an accepted job is queued for the table and handed to the
/// downloader.
pub open spec fn submission_effects(effects: Seq<Effect>, s: SubmissionView) -> bool {
    match s {
        SubmissionView::Nothing => effects.len() == 0,
        SubmissionView::Rejected(v) => {
            &&& effects.len() == 1
            &&& effects[0] matches Effect::Emit(AppEvent::Job(j)) && j@ == v
        },
        SubmissionView::Accepted(v) => {
            &&& effects.len() == 2
            &&& effects[0] matches Effect::Emit(AppEvent::Job(j)) && j@ == v && effects[1]
                == Effect::StartDownload(j)
        },
    }
}

/// The effects of submitting `text`: those of its submission with some
/// random identifier.
pub open spec fn submitted(effects: Seq<Effect>, text: Seq<char>) -> bool {
    exists|id: u128|
        #![trigger is_random_uuid(id)]
        is_random_uuid(id) && submission_effects(
            effects,
            expected_submission(trim(text), url_parse(trim(text)), id),
        )
}

/// The state apart from the table of downloads is the same.
pub open spec fn same_but_table(a: App, b: App) -> bool {
    &&& a.running == b.running
    &&& a.insert == b.insert
    &&& a.mode == b.mode
    &&& a.show_popup == b.show_popup
    &&& a.dev_table == b.dev_table
}

/// The state apart from the editor (and mode) is the same.
pub open spec fn same_but_editor(a: App, b: App) -> bool {
    &&& a.running == b.running
    &&& a.show_popup == b.show_popup
    &&& a.dev_table == b.dev_table
    &&& a.table == b.table
}

/// Whether an event can be handled in a state: moving the selection of the
/// table needs a row to move to.
pub open spec fn event_allowed(app: App, event: AppEvent) -> bool {
    match event {
        AppEvent::MoveUp => can_move_up(app.table.state.selected, app.table.items@.len()),
        AppEvent::MoveDown => can_move_down(app.table.state.selected, app.table.items@.len()),
        _ => true,
    }
}

/// How the state `new` and the effects follow from `old` and an event.
pub open spec fn event_step(old: App, event: AppEvent, new: App, effects: Seq<Effect>) -> bool {
    match event {
        AppEvent::Job(job) => {
            &&& same_but_table(new, old)
            &&& new.table.state == old.table.state
            &&& new.table.items@ == old.table.items@.push(job)
            &&& effects.len() == 0
        },
        AppEvent::JobSize(id, size) => {
            &&& same_but_table(new, old)
            &&& new.table.state == old.table.state
            &&& new.table.items@ == update_first(
                old.table.items@,
                id,
                |j: DownloadJob| DownloadJob { size, ..j },
            )
            &&& effects.len() == 0
        },
        AppEvent::JobStrategy(id, strategy) => {
            &&& same_but_table(new, old)
            &&& new.table.state == old.table.state
            &&& new.table.items@ == update_first(
                old.table.items@,
                id,
                |j: DownloadJob| DownloadJob { strategy, ..j },
            )
            &&& effects.len() == 0
        },
        AppEvent::JobProgress(id, progress, speed, eta) => {
            &&& same_but_table(new, old)
            &&& new.table.state == old.table.state
            &&& new.table.items@ == update_first(
                old.table.items@,
                id,
                |j: DownloadJob| DownloadJob { progress, speed, eta, ..j },
            )
            &&& effects.len() == 0
        },
        AppEvent::JobStatus(id, status) => {
            &&& same_but_table(new, old)
            &&& new.table.state == old.table.state
            &&& new.table.items@ == update_first(
                old.table.items@,
                id,
                |j: DownloadJob| DownloadJob { status, ..j },
            )
            &&& effects.len() == 0
        },
        AppEvent::MoveUp => {
            &&& same_but_table(new, old)
            &&& new.table.items@ == old.table.items@
            &&& new.table.state.selected == Some(
                row_above(old.table.state.selected, old.table.items@.len()),
            )
            &&& effects.len() == 0
        },
        AppEvent::MoveDown => {
            &&& same_but_table(new, old)
            &&& new.table.items@ == old.table.items@
            &&& new.table.state.selected == Some(
                row_below(old.table.state.selected, old.table.items@.len()),
            )
            &&& effects.len() == 0
        },
        AppEvent::EscInsert => {
            &&& same_but_editor(new, old)
            &&& new.insert.url@ == Seq::<char>::empty()
            &&& new.insert.character_index == 0
            &&& new.mode == AppMode::Normal
            &&& effects.len() == 0
        },
        AppEvent::Backspace => {
            &&& same_but_editor(new, old)
            &&& new.mode == old.mode
            &&& new.insert.url@ == text_after_delete(old.insert.url@, old.insert.character_index)
            &&& new.insert.character_index == cursor_after_delete(
                old.insert.url@,
                old.insert.character_index,
            )
            &&& effects.len() == 0
        },
        AppEvent::EnterChar(c) => {
            &&& same_but_editor(new, old)
            &&& new.mode == old.mode
            &&& new.insert.url@ == text_after_enter(old.insert.url@, old.insert.character_index, c)
            &&& new.insert.character_index == cursor_after_enter(
                old.insert.url@,
                old.insert.character_index,
            )
            &&& effects.len() == 0
        },
        AppEvent::MoveCursorLeft => {
            &&& same_but_editor(new, old)
            &&& new.mode == old.mode
            &&& new.insert.url@ == old.insert.url@
            &&& new.insert.character_index == at_most(
                if old.insert.character_index == 0 {
                    0
                } else {
                    old.insert.character_index - 1
                },
                old.insert.url@.len() as int,
            )
            &&& effects.len() == 0
        },
        AppEvent::MoveCursorRight => {
            &&& same_but_editor(new, old)
            &&& new.mode == old.mode
            &&& new.insert.url@ == old.insert.url@
            &&& new.insert.character_index == at_most(
                if old.insert.character_index == usize::MAX {
                    usize::MAX as int
                } else {
                    old.insert.character_index + 1
                },
                old.insert.url@.len() as int,
            )
            &&& effects.len() == 0
        },
        AppEvent::EnterInsert => {
            &&& same_but_editor(new, old)
            &&& new.mode == old.mode
            &&& new.insert.url@ == Seq::<char>::empty()
            &&& new.insert.character_index == 0
            &&& submitted(effects, old.insert.url@)
        },
        AppEvent::Quit => {
            &&& new.running == false
            &&& new.insert == old.insert
            &&& new.mode == old.mode
            &&& new.show_popup == old.show_popup
            &&& new.dev_table == old.dev_table
            &&& new.table == old.table
            &&& effects.len() == 0
        },
    }
}

fn position_of(jobs: &Vec<DownloadJob>, id: u128) -> (r: Option<usize>)
    ensures
        match r {
            Some(k) => first_with_id(jobs@, id) == Some(k as int),
            None => first_with_id(jobs@, id) is None,
        },
{
    let mut i: usize = 0;
    while i < jobs.len()
        invariant
            i <= jobs@.len(),
            forall|j: int| 0 <= j < i ==> jobs@[j].id != id,
        decreases jobs@.len() - i,
    {
        if jobs[i].id == id {
            assert(is_first_with_id(jobs@, id, i as int));
            proof {
                let k = choose|k: int| is_first_with_id(jobs@, id, k);
                first_with_id_unique(jobs@, id, k, i as int);
            }
            return Some(i);
        }
        i = i + 1;
    }
    assert forall|k: int| !is_first_with_id(jobs@, id, k) by {
        if 0 <= k < jobs@.len() {
            assert(jobs@[k].id != id);
        }
    }
    None
}

/// The effects of a submission.
fn effects_of(s: Submission) -> (effects: Vec<Effect>)
    ensures
        submission_effects(effects@, s@),
{
    let mut effects: Vec<Effect> = Vec::new();
    match s {
        Submission::Nothing => {},
        Submission::Rejected(job) => {
            effects.push(Effect::Emit(AppEvent::Job(job)));
        },
        Submission::Accepted(job) => {
            let copy = job.duplicate();
            effects.push(Effect::Emit(AppEvent::Job(copy)));
            effects.push(Effect::StartDownload(job));
        },
    }
    effects
}

impl App {
    /// The state at start: running, in normal mode, with an empty editor, an
    /// empty table and the sample list loaded but hidden.
    pub fn new() -> (app: Self)
        ensures
            app.running,
            app.mode == AppMode::Normal,
            !app.show_popup,
            app.insert.url@ == Seq::<char>::empty(),
            app.insert.character_index == 0,
            app.table.items@.len() == 0,
            app.table.state.selected == None::<usize>,
            app.dev_table.state.selected == None::<usize>,
            app.dev_table.items@.len() == sample_catalog().len(),
            forall|i: int|
                0 <= i < app.dev_table.items@.len() ==> dev_row(#[trigger] app.dev_table.items@[i])
                    == sample_catalog()[i],
    {
        App {
            running: true,
            insert: Insert::new(),
            mode: AppMode::Normal,
            show_popup: false,
            dev_table: DevList::list(),
            table: ListState::new(),
        }
    }

    /// Called at each tick of the terminal; there is nothing to update.
    pub fn tick(&self) {
    }

    /// Stops the application.
    pub fn quit(&mut self)
        ensures
            !final(self).running,
            final(self).insert == old(self).insert,
            final(self).mode == old(self).mode,
            final(self).show_popup == old(self).show_popup,
            final(self).dev_table == old(self).dev_table,
            final(self).table == old(self).table,
    {
        self.running = false;
    }

    /// Submits the editor's text and says what to queue and start.
    pub fn submit(&mut self) -> (effects: Vec<Effect>)
        ensures
            same_but_editor(*final(self), *old(self)),
            final(self).mode == old(self).mode,
            final(self).insert.url@ == Seq::<char>::empty(),
            final(self).insert.character_index == 0,
            submitted(effects@, old(self).insert.url@),
    {
        let s = self.insert.submit_message();
        effects_of(s)
    }

    /// Whether an event can be handled now (see [`event_allowed`]).
    pub fn can_handle(&self, event: &AppEvent) -> (r: bool)
        ensures
            r == event_allowed(*self, *event),
    {
        match event {
            AppEvent::MoveUp => match self.table.state.selected() {
                Some(i) => !(i == 0 && self.table.items.len() == 0),
                None => true,
            },
            AppEvent::MoveDown => match self.table.state.selected() {
                Some(_) => self.table.items.len() > 0,
                None => true,
            },
            _ => true,
        }
    }

    /// Reacts to one event: updates the state and returns the effects to carry
    /// out, in order.
    pub fn handle_app_event(&mut self, event: AppEvent) -> (effects: Vec<Effect>)
        requires
            event_allowed(*old(self), event),
        ensures
            event_step(*old(self), event, *final(self), effects@),
    {
        match event {
            AppEvent::Job(job) => {
                self.table.items.push(job);
                Vec::new()
            },
            AppEvent::JobSize(id, size) => {
                if let Some(k) = position_of(&self.table.items, id) {
                    self.table.items[k].size = size;
                }
                Vec::new()
            },
            AppEvent::JobStrategy(id, strategy) => {
                if let Some(k) = position_of(&self.table.items, id) {
                    self.table.items[k].strategy = strategy;
                }
                Vec::new()
            },
            AppEvent::JobProgress(id, progress, speed, eta) => {
                if let Some(k) = position_of(&self.table.items, id) {
                    let ghost before = self.table.items@;
                    self.table.items[k].progress = progress;
                    self.table.items[k].speed = speed;
                    self.table.items[k].eta = eta;
                    assert(self.table.items@ =~= before.update(
                        k as int,
                        DownloadJob { progress, speed, eta, ..before[k as int] },
                    ));
                }
                Vec::new()
            },
            AppEvent::JobStatus(id, status) => {
                if let Some(k) = position_of(&self.table.items, id) {
                    self.table.items[k].status = status;
                }
                Vec::new()
            },
            AppEvent::MoveUp => {
                self.table.move_up();
                Vec::new()
            },
            AppEvent::MoveDown => {
                self.table.move_down();
                Vec::new()
            },
            AppEvent::EscInsert => {
                self.insert.clean();
                self.mode = AppMode::Normal;
                Vec::new()
            },
            AppEvent::Backspace => {
                self.insert.delete_char();
                Vec::new()
            },
            AppEvent::EnterChar(c) => {
                self.insert.enter_char(c);
                Vec::new()
            },
            AppEvent::MoveCursorLeft => {
                self.insert.move_cursor_left();
                Vec::new()
            },
            AppEvent::MoveCursorRight => {
                self.insert.move_cursor_right();
                Vec::new()
            },
            AppEvent::EnterInsert => self.submit(),
            AppEvent::Quit => {
                self.quit();
                Vec::new()
            },
        }
    }
}

} // verus!

verus! {

/// An event about a job changes at most the first job with its identifier:
/// the table keeps its length and every other job.
pub proof fn job_update_touches_one(
    jobs: Seq<DownloadJob>,
    id: u128,
    f: spec_fn(DownloadJob) -> DownloadJob,
    i: int,
)
    requires
        0 <= i < jobs.len(),
        first_with_id(jobs, id) != Some(i),
    ensures
        update_first(jobs, id, f).len() == jobs.len(),
        update_first(jobs, id, f)[i] == jobs[i],
{
}

/// An event about a job whose identifier is not in the table leaves the
/// table as it is.
pub proof fn job_update_unknown_id(jobs: Seq<DownloadJob>, id: u128, f: spec_fn(DownloadJob) -> DownloadJob)
    requires
        forall|i: int| 0 <= i < jobs.len() ==> jobs[i].id != id,
    ensures
        update_first(jobs, id, f) == jobs,
{
}

} // verus!

verus! {

/// A new job always joins the table, failed or not: it becomes the last row
/// after all the rows there were, and nothing else changes.
pub proof fn new_job_is_appended(old: App, job: DownloadJob, new: App, effects: Seq<Effect>)
    requires
        event_step(old, AppEvent::Job(job), new, effects),
    ensures
        new.table.items@.len() == old.table.items@.len() + 1,
        new.table.items@.last() == job,
        forall|i: int| 0 <= i < old.table.items@.len() ==> new.table.items@[i] == old.table.items@[i],
        new.table.state == old.table.state,
        effects.len() == 0,
{
}

/// An event about a job sets the named fields of the first job with that
/// identifier and leaves every other row, and the number of rows, as they
/// were.
pub proof fn job_events_update_first_match(
    old: App,
    event: AppEvent,
    new: App,
    effects: Seq<Effect>,
    k: int,
)
    requires
        event_step(old, event, new, effects),
        is_first_with_id(old.table.items@, event_job_id(event), k),
        is_job_update(event),
    ensures
        new.table.items@.len() == old.table.items@.len(),
        forall|i: int|
            0 <= i < old.table.items@.len() && i != k ==> new.table.items@[i] == old.table.items@[i],
        new.table.items@[k].id == old.table.items@[k].id,
        new.table.items@[k].filename == old.table.items@[k].filename,
        new.table.items@[k].url == old.table.items@[k].url,
        (event matches AppEvent::JobSize(_, n) ==> new.table.items@[k] == (DownloadJob {
            size: n,
            ..old.table.items@[k]
        })),
        (event matches AppEvent::JobStrategy(_, st) ==> new.table.items@[k] == (DownloadJob {
            strategy: st,
            ..old.table.items@[k]
        })),
        (event matches AppEvent::JobStatus(_, st) ==> new.table.items@[k] == (DownloadJob {
            status: st,
            ..old.table.items@[k]
        })),
        (event matches AppEvent::JobProgress(_, p, sp, e) ==> new.table.items@[k] == (DownloadJob {
            progress: p,
            speed: sp,
            eta: e,
            ..old.table.items@[k]
        })),
        effects.len() == 0,
{
    let jobs = old.table.items@;
    let id = event_job_id(event);
    assert(exists|j: int| is_first_with_id(jobs, id, j));
    let c = choose|j: int| is_first_with_id(jobs, id, j);
    first_with_id_unique(jobs, id, c, k);
}

/// Whether an event updates a job of the table.
pub open spec fn is_job_update(event: AppEvent) -> bool {
    event is JobSize || event is JobStrategy || event is JobProgress || event is JobStatus
}

/// The job identifier an update event names.
pub open spec fn event_job_id(event: AppEvent) -> u128 {
    match event {
        AppEvent::JobSize(id, _) => id,
        AppEvent::JobStrategy(id, _) => id,
        AppEvent::JobProgress(id, _, _, _) => id,
        AppEvent::JobStatus(id, _) => id,
        _ => 0,
    }
}

/// Quitting stops the application and changes nothing else; editing and
/// navigation events never stop it.
pub proof fn only_quit_stops(old: App, event: AppEvent, new: App, effects: Seq<Effect>)
    requires
        event_step(old, event, new, effects),
    ensures
        (event is Quit) ==> (!new.running && new.table == old.table && new.insert == old.insert
            && new.mode == old.mode && new.show_popup == old.show_popup),
        !(event is Quit) ==> (new.running == old.running),
{
}

} // verus!

verus! {

/// Moving through the table wraps around: down goes to the next row, from the
/// last to the first; up goes to the previous row, from the first to the last;
/// with nothing selected, both select the first row. The rows stay as they are.
pub proof fn table_moves_wrap(old: App, event: AppEvent, new: App, effects: Seq<Effect>)
    requires
        event is MoveUp || event is MoveDown,
        event_step(old, event, new, effects),
        old.table.items@.len() > 0,
        old.table.items@.len() <= usize::MAX,
    ensures
        new.table.items@ == old.table.items@,
        effects.len() == 0,
        old.table.state.selected is None ==> new.table.state.selected == Some(0usize),
        ({
            let n = old.table.items@.len() as int;
            let i = old.table.state.selected.unwrap() as int;
            let j = new.table.state.selected.unwrap() as int;
            (old.table.state.selected is Some && i < n) ==> (new.table.state.selected is Some
                && (event is MoveDown ==> j == (i + 1) % n) && (event is MoveUp ==> j == (i + n
                - 1) % n))
        }),
{
    let n = old.table.items@.len() as int;
    if old.table.state.selected is Some {
        let i = old.table.state.selected.unwrap() as int;
        if i < n {
            if i + 1 < n {
                vstd::arithmetic::div_mod::lemma_small_mod((i + 1) as nat, n as nat);
            } else {
                vstd::arithmetic::div_mod::lemma_mod_self_0(n);
            }
            if i > 0 {
                vstd::arithmetic::div_mod::lemma_mod_add_multiples_vanish(i - 1, n);
                vstd::arithmetic::div_mod::lemma_small_mod((i - 1) as nat, n as nat);
            } else {
                vstd::arithmetic::div_mod::lemma_small_mod((n - 1) as nat, n as nat);
            }
        }
    }
}

/// The editing events keep the cursor inside the text and move it by one:
/// left goes back one character (not before the start), right forward one
/// (not past the end), typing moves past the typed character and deleting
/// goes back one, over the deleted character.
pub proof fn editing_moves_cursor_by_one(old: App, event: AppEvent, new: App, effects: Seq<Effect>)
    requires
        event_step(old, event, new, effects),
        old.insert.character_index <= old.insert.url@.len(),
        old.insert.url@.len() < usize::MAX,
    ensures
        event is MoveCursorLeft ==> new.insert.url@ == old.insert.url@
            && new.insert.character_index == (if old.insert.character_index == 0 {
            0
        } else {
            old.insert.character_index - 1
        }),
        event is MoveCursorRight ==> new.insert.url@ == old.insert.url@
            && new.insert.character_index == (if old.insert.character_index
            == old.insert.url@.len() {
            old.insert.character_index as int
        } else {
            old.insert.character_index + 1
        }),
        event is EnterChar ==> new.insert.url@.len() == old.insert.url@.len() + 1
            && new.insert.character_index == old.insert.character_index + 1
            && new.insert.url@[old.insert.character_index as int] == event->EnterChar_0,
        event is Backspace && old.insert.character_index > 0 ==> new.insert.url@.len()
            == old.insert.url@.len() - 1 && new.insert.character_index
            == old.insert.character_index - 1,
        event is Backspace && old.insert.character_index == 0 ==> new.insert.url@
            == old.insert.url@ && new.insert.character_index == 0,
        (event is MoveCursorLeft || event is MoveCursorRight || event is EnterChar
            || event is Backspace) ==> new.mode == old.mode && new.table == old.table
            && new.running == old.running && effects.len() == 0,
{
}

} // verus!
