//! The view composer: a pure function from `(state, snapshot)` to a
//! layout tree of plain renderable regions — a tabs row, a body (the
//! home placeholder, or the task list beside a detail table) and a
//! footer. The terminal renderer consumes this tree; composing it has
//! no side effects and is deterministic, so drawing the same state and
//! snapshot twice paints the same frame.

use vstd::prelude::*;
use vstd::string::StringExecFns;

use crate::state::{AppState, Menu, selection_ok, spec_confirm_delete, spec_menu_ordinal};
use crate::task::{Error, Task, spec_error_message};

verus! {

/// The text that chrono renders for a moment given as whole seconds
/// since the Unix epoch, in UTC and chrono's default format.
pub uninterp spec fn timestamp_text_of(secs: i64) -> Seq<char>;

/// Relies on chrono::DateTime::<Utc>::from_timestamp and on the Display
/// impl of DateTime<Utc>: the rendered text depends on the seconds value
/// alone, since the zone is fixed to UTC and the format is chrono's
/// default. An out-of-range moment renders as empty text.
#[verifier::external_body]
fn timestamp_text(secs: i64) -> (r: String)
    ensures
        r@ == timestamp_text_of(secs),
{
    match chrono::DateTime::<chrono::Utc>::from_timestamp(secs, 0) {
        Some(dt) => dt.to_string(),
        None => String::new(),
    }
}

/// The tabs row: the fixed menu titles with the active one highlighted.
#[derive(Clone, Debug, PartialEq, Eq)]
pub struct TabsPanel {
    pub titles: Vec<String>,
    /// Ordinal of the active menu, the highlighted tab.
    pub selected: usize,
}

/// Mathematical content of a [`TabsPanel`].
#[verifier::ext_equal]
pub struct TabsView {
    pub titles: Seq<Seq<char>>,
    pub selected: usize,
}

impl View for TabsPanel {
    type V = TabsView;

    open spec fn view(&self) -> TabsView {
        TabsView { titles: self.titles@.map_values(|t: String| t@), selected: self.selected }
    }
}

/// The detail table inside the task view: the fields of the task at the
/// selection, or an explicit empty-state row when nothing is selected.
#[derive(Clone, Debug, PartialEq, Eq)]
pub enum DetailPanel {
    Empty,
    Row { id: u64, title: String, category: String, created_at: String },
}

/// Mathematical content of a [`DetailPanel`].
#[verifier::ext_equal]
pub enum DetailView {
    Empty,
    Row { id: u64, title: Seq<char>, category: Seq<char>, created_at: Seq<char> },
}

impl View for DetailPanel {
    type V = DetailView;

    open spec fn view(&self) -> DetailView {
        match self {
            DetailPanel::Empty => DetailView::Empty,
            DetailPanel::Row { id, title, category, created_at } => DetailView::Row {
                id: *id,
                title: title@,
                category: category@,
                created_at: created_at@,
            },
        }
    }
}

/// The task view body: the selectable list of task titles on the left
/// and the detail table on the right.
#[derive(Clone, Debug, PartialEq, Eq)]
pub struct TaskPanel {
    /// One list row per task: its title.
    pub items: Vec<String>,
    /// The highlighted list row, `None` on an empty snapshot.
    pub selected: Option<usize>,
    pub detail: DetailPanel,
    /// Width of the list region, in percent of the body row.
    pub list_width_pct: u8,
    /// Width of the detail region, in percent of the body row.
    pub detail_width_pct: u8,
}

/// Mathematical content of a [`TaskPanel`].
#[verifier::ext_equal]
pub struct TaskPanelView {
    pub items: Seq<Seq<char>>,
    pub selected: Option<usize>,
    pub detail: DetailView,
    pub list_width_pct: u8,
    pub detail_width_pct: u8,
}

impl View for TaskPanel {
    type V = TaskPanelView;

    open spec fn view(&self) -> TaskPanelView {
        TaskPanelView {
            items: self.items@.map_values(|t: String| t@),
            selected: self.selected,
            detail: self.detail@,
            list_width_pct: self.list_width_pct,
            detail_width_pct: self.detail_width_pct,
        }
    }
}

/// The body row: the home placeholder text, or the task view.
#[derive(Clone, Debug, PartialEq, Eq)]
pub enum BodyPanel {
    Home { lines: Vec<String> },
    Task(TaskPanel),
}

/// Mathematical content of a [`BodyPanel`].
#[verifier::ext_equal]
pub enum BodyView {
    Home { lines: Seq<Seq<char>> },
    Task(TaskPanelView),
}

impl View for BodyPanel {
    type V = BodyView;

    open spec fn view(&self) -> BodyView {
        match self {
            BodyPanel::Home { lines } => BodyView::Home {
                lines: lines@.map_values(|t: String| t@),
            },
            BodyPanel::Task(p) => BodyView::Task(p@),
        }
    }
}

/// One composed frame: the fixed three-row vertical split (tabs, body,
/// footer) plus an optional one-line error banner for a failed store
/// call.
#[derive(Clone, Debug, PartialEq, Eq)]
pub struct LayoutFrame {
    pub tabs: TabsPanel,
    pub body: BodyPanel,
    pub footer: String,
    /// Banner text when the last store call failed; the frame then shows
    /// the last-known-good snapshot.
    pub banner: Option<String>,
}

/// Mathematical content of a [`LayoutFrame`].
#[verifier::ext_equal]
pub struct FrameView {
    pub tabs: TabsView,
    pub body: BodyView,
    pub footer: Seq<char>,
    pub banner: Option<Seq<char>>,
}

impl View for LayoutFrame {
    type V = FrameView;

    open spec fn view(&self) -> FrameView {
        FrameView {
            tabs: self.tabs@,
            body: self.body@,
            footer: self.footer@,
            banner: match self.banner {
                None => None,
                Some(b) => Some(b@),
            },
        }
    }
}

/// The fixed menu titles of the tabs row, in tab order.
pub open spec fn spec_menu_titles() -> Seq<Seq<char>> {
    seq!["HOME"@, "TASK"@, "ADD"@, "DELETE"@, "QUIT"@]
}

/// The fixed footer text.
pub open spec fn spec_footer() -> Seq<char> {
    "This is the footer of the App"@
}

/// The fixed home placeholder lines.
pub open spec fn spec_home_lines() -> Seq<Seq<char>> {
    seq![
        ""@,
        "Welcome"@,
        ""@,
        "to"@,
        ""@,
        "TODO_LIST"@,
        ""@,
        "Press t to access tasks, 'a' to add a random new task and 'd' to delete the currently selected task"@,
    ]
}

/// The detail table content for a selection over a snapshot: the fields
/// of the selected task, or the empty state when nothing is selected
/// (or the selection is out of range, which the invariant rules out).
pub open spec fn spec_detail(sel: Option<usize>, tasks: Seq<Task>) -> DetailView {
    match sel {
        None => DetailView::Empty,
        Some(i) => if i < tasks.len() {
            DetailView::Row {
                id: tasks[i as int].id,
                title: tasks[i as int].title@,
                category: tasks[i as int].category@,
                created_at: timestamp_text_of(tasks[i as int].created_at),
            }
        } else {
            DetailView::Empty
        },
    }
}

/// The body row for a state and snapshot.
pub open spec fn spec_body(s: AppState, tasks: Seq<Task>) -> BodyView {
    match s.menu {
        Menu::Home => BodyView::Home { lines: spec_home_lines() },
        Menu::Task => BodyView::Task(
            TaskPanelView {
                items: tasks.map_values(|t: Task| t.title@),
                selected: s.selection,
                detail: spec_detail(s.selection, tasks),
                list_width_pct: 20u8,
                detail_width_pct: 80u8,
            },
        ),
    }
}

/// The whole frame for a state, snapshot and last store error.
pub open spec fn spec_compose(s: AppState, tasks: Seq<Task>, err: Option<Error>) -> FrameView {
    FrameView {
        tabs: TabsView { titles: spec_menu_titles(), selected: spec_menu_ordinal(s.menu) },
        body: spec_body(s, tasks),
        footer: spec_footer(),
        banner: match err {
            None => None,
            Some(e) => Some(spec_error_message(e)),
        },
    }
}

/// The home placeholder: the welcome text, one entry per line.
pub fn render_home() -> (r: Vec<String>)
    ensures
        r@.map_values(|t: String| t@) == spec_home_lines(),
{
    let mut lines: Vec<String> = Vec::new();
    lines.push(String::from_str(""));
    lines.push(String::from_str("Welcome"));
    lines.push(String::from_str(""));
    lines.push(String::from_str("to"));
    lines.push(String::from_str(""));
    lines.push(String::from_str("TODO_LIST"));
    lines.push(String::from_str(""));
    lines.push(
        String::from_str(
            "Press t to access tasks, 'a' to add a random new task and 'd' to delete the currently selected task",
        ),
    );
    proof {
        assert(lines@.map_values(|t: String| t@) =~= spec_home_lines());
    }
    lines
}

/// The task view: the list of task titles beside the detail table for
/// the task at the selection (the empty state when nothing is selected).
pub fn render_task(selection: Option<usize>, tasks: &Vec<Task>) -> (r: TaskPanel)
    ensures
        r@ == (TaskPanelView {
            items: tasks@.map_values(|t: Task| t.title@),
            selected: selection,
            detail: spec_detail(selection, tasks@),
            list_width_pct: 20u8,
            detail_width_pct: 80u8,
        }),
{
    let mut items: Vec<String> = Vec::new();
    let mut idx: usize = 0;
    while idx < tasks.len()
        invariant
            idx <= tasks.len(),
            items@.len() == idx,
            forall|j: int| 0 <= j < idx ==> items@[j]@ == tasks@[j].title@,
        decreases tasks.len() - idx,
    {
        items.push(tasks[idx].title.clone());
        idx += 1;
    }
    proof {
        assert(items@.map_values(|t: String| t@) =~= tasks@.map_values(|t: Task| t.title@));
    }
    let detail = match selection {
        None => DetailPanel::Empty,
        Some(i) => if i < tasks.len() {
            DetailPanel::Row {
                id: tasks[i].id,
                title: tasks[i].title.clone(),
                category: tasks[i].category.clone(),
                created_at: timestamp_text(tasks[i].created_at),
            }
        } else {
            DetailPanel::Empty
        },
    };
    TaskPanel { items, selected: selection, detail, list_width_pct: 20, detail_width_pct: 80 }
}

/// Compose one frame from the state, the task snapshot and the last
/// store error (if the last load failed). Side-effect free and
/// deterministic: the result is pinned, field by field, to
/// [`spec_compose`], so two frames composed from the same inputs are
/// equal.
pub fn compose(state: &AppState, tasks: &Vec<Task>, error: &Option<Error>) -> (r: LayoutFrame)
    ensures
        r@ == spec_compose(*state, tasks@, *error),
{
    let mut titles: Vec<String> = Vec::new();
    titles.push(String::from_str("HOME"));
    titles.push(String::from_str("TASK"));
    titles.push(String::from_str("ADD"));
    titles.push(String::from_str("DELETE"));
    titles.push(String::from_str("QUIT"));
    proof {
        assert(titles@.map_values(|t: String| t@) =~= spec_menu_titles());
    }
    let tabs = TabsPanel { titles, selected: state.menu.ordinal() };
    let body = match state.menu {
        Menu::Home => BodyPanel::Home { lines: render_home() },
        Menu::Task => BodyPanel::Task(render_task(state.selection, tasks)),
    };
    let banner = match error {
        None => None,
        Some(e) => Some(e.message()),
    };
    let r = LayoutFrame { tabs, body, footer: String::from_str("This is the footer of the App"), banner };
    proof {
        assert(r@ =~~= spec_compose(*state, tasks@, *error));
    }
    r
}

/// Composing the view is deterministic: two frames composed from the
/// same state, snapshot and error have the same content.
pub proof fn lemma_compose_deterministic(
    s: AppState,
    tasks: Seq<Task>,
    err: Option<Error>,
    r1: FrameView,
    r2: FrameView,
)
    requires
        r1 == spec_compose(s, tasks, err),
        r2 == spec_compose(s, tasks, err),
    ensures
        r1 == r2,
{
}

/// Deleting the last remaining task leaves nothing selected, and the
/// next frame of the task view shows the empty-state detail.
pub proof fn lemma_delete_last_shows_empty(s: AppState, err: Option<Error>)
    requires
        s.menu == Menu::Task,
    ensures
        ({
            let s1 = spec_confirm_delete(s, 0);
            &&& s1.selection is None
            &&& selection_ok(s1.selection, 0)
            &&& spec_compose(s1, Seq::<Task>::empty(), err).body == BodyView::Task(
                TaskPanelView {
                    items: Seq::<Seq<char>>::empty(),
                    selected: None,
                    detail: DetailView::Empty,
                    list_width_pct: 20u8,
                    detail_width_pct: 80u8,
                },
            )
        }),
{
    assert(Seq::<Task>::empty().map_values(|t: Task| t.title@) =~= Seq::<Seq<char>>::empty());
}

} // verus!
