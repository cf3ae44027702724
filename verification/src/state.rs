//! The application state machine: menu, task-list selection and the
//! running flag, driven one event at a time. Transitions are pure; the
//! requested store mutations come out as [`Intent`] values so that the
//! machine itself never touches storage.

use vstd::prelude::*;

use crate::task::Task;

verus! {

/// The two top-level menus of the dashboard. Exactly one is active.
#[derive(Copy, Clone, Debug, PartialEq, Eq, Structural)]
pub enum Menu {
    Home,
    Task,
}

/// Ordinal of a menu tab, used to highlight the active tab.
pub open spec fn spec_menu_ordinal(m: Menu) -> usize {
    match m {
        Menu::Home => 0usize,
        Menu::Task => 1usize,
    }
}

impl Menu {
    /// Ordinal of the menu tab, used to highlight the active tab.
    pub fn ordinal(self) -> (r: usize)
        ensures
            r == spec_menu_ordinal(self),
    {
        match self {
            Menu::Home => 0,
            Menu::Task => 1,
        }
    }
}

impl From<Menu> for usize {
    fn from(input: Menu) -> (r: usize) {
        match input {
            Menu::Home => 0,
            Menu::Task => 1,
        }
    }
}

impl vstd::std_specs::convert::FromSpecImpl<Menu> for usize {
    open spec fn obeys_from_spec() -> bool {
        true
    }

    open spec fn from_spec(m: Menu) -> usize {
        spec_menu_ordinal(m)
    }
}

/// A key press, reduced to what the transition table reads.
#[derive(Copy, Clone, Debug, PartialEq, Eq, Structural)]
pub enum Key {
    Char(char),
    Up,
    Down,
    Other,
}

/// One element of the merged event stream: either a key press handed in
/// by the input producer, or a periodic tick that keeps the loop alive.
#[derive(Copy, Clone, Debug, PartialEq, Eq, Structural)]
pub enum Event<I> {
    Input(I),
    Tick,
}

/// A mutation requested from the task store: the state machine emits
/// these instead of performing storage work itself.
#[derive(Copy, Clone, Debug, PartialEq, Eq, Structural)]
pub enum Intent {
    AddTask,
    DeleteTask(u64),
}

/// The whole application state owned by the render loop.
#[derive(Copy, Clone, Debug, PartialEq, Eq)]
pub struct AppState {
    pub menu: Menu,
    /// Index into the current task snapshot, or `None` on an empty snapshot.
    pub selection: Option<usize>,
    pub running: bool,
}

/// The selection invariant: `None` exactly when the snapshot is empty,
/// otherwise a valid index into it.
pub open spec fn selection_ok(sel: Option<usize>, count: usize) -> bool {
    match sel {
        None => count == 0,
        Some(i) => i < count,
    }
}

/// Clamp a selection into range against `count` tasks: an empty snapshot
/// selects nothing, an out-of-range index moves to the last task, and a
/// missing selection over a non-empty snapshot moves to the first.
pub open spec fn spec_clamp(sel: Option<usize>, count: usize) -> Option<usize> {
    if count == 0 {
        None
    } else {
        match sel {
            None => Some(0usize),
            Some(i) => if i < count {
                Some(i)
            } else {
                Some((count - 1) as usize)
            },
        }
    }
}

/// Clamp a selection into range against the current task count.
pub fn clamp_selection(sel: Option<usize>, count: usize) -> (r: Option<usize>)
    ensures
        r == spec_clamp(sel, count),
        selection_ok(r, count),
{
    if count == 0 {
        None
    } else {
        match sel {
            None => Some(0),
            Some(i) => if i < count {
                Some(i)
            } else {
                Some(count - 1)
            },
        }
    }
}

/// Move the selection one task down (clamped to the last index).
pub open spec fn spec_move_down(sel: Option<usize>, count: usize) -> Option<usize> {
    match sel {
        None => None,
        Some(i) => if count == 0 {
            None
        } else if i + 1 < count {
            Some((i + 1) as usize)
        } else {
            Some((count - 1) as usize)
        },
    }
}

/// Move the selection one task up (clamped to the first index).
pub open spec fn spec_move_up(sel: Option<usize>, count: usize) -> Option<usize> {
    match sel {
        None => None,
        Some(i) => if count == 0 {
            None
        } else if i == 0 {
            Some(0usize)
        } else if i - 1 < count {
            Some((i - 1) as usize)
        } else {
            Some((count - 1) as usize)
        },
    }
}

/// The startup state: home menu, running, first task selected when the
/// snapshot is non-empty.
pub open spec fn spec_init(task_count: usize) -> AppState {
    AppState {
        menu: Menu::Home,
        selection: if task_count > 0 {
            Some(0usize)
        } else {
            None
        },
        running: true,
    }
}

/// Build the startup state for a snapshot of `task_count` tasks.
pub fn init_state(task_count: usize) -> (r: AppState)
    ensures
        r == spec_init(task_count),
        selection_ok(r.selection, task_count),
{
    AppState {
        menu: Menu::Home,
        selection: if task_count > 0 {
            Some(0)
        } else {
            None
        },
        running: true,
    }
}

/// The transition table: what one event does to the state, and which
/// store mutation (if any) it requests. Unmatched keys and ticks leave
/// the state unchanged.
pub open spec fn spec_step(s: AppState, ev: Event<Key>, tasks: Seq<Task>) -> (AppState, Option<
    Intent,
>) {
    match ev {
        Event::Tick => (s, None),
        Event::Input(k) => match k {
            Key::Char(c) => if c == 'q' {
                (AppState { running: false, ..s }, None)
            } else if c == 'h' {
                (AppState { menu: Menu::Home, ..s }, None)
            } else if c == 't' {
                (
                    AppState {
                        menu: Menu::Task,
                        selection: spec_clamp(s.selection, tasks.len() as usize),
                        ..s
                    },
                    None,
                )
            } else if c == 'a' && s.menu == Menu::Task {
                (s, Some(Intent::AddTask))
            } else if c == 'd' && s.menu == Menu::Task {
                match s.selection {
                    Some(i) => if i < tasks.len() {
                        (s, Some(Intent::DeleteTask(tasks[i as int].id)))
                    } else {
                        (s, None)
                    },
                    None => (s, None),
                }
            } else {
                (s, None)
            },
            Key::Down => if s.menu == Menu::Task {
                (
                    AppState { selection: spec_move_down(s.selection, tasks.len() as usize), ..s },
                    None,
                )
            } else {
                (s, None)
            },
            Key::Up => if s.menu == Menu::Task {
                (
                    AppState { selection: spec_move_up(s.selection, tasks.len() as usize), ..s },
                    None,
                )
            } else {
                (s, None)
            },
            Key::Other => (s, None),
        },
    }
}

/// Consume one event: pure transition plus an optional requested store
/// mutation. The snapshot is read only for its length and for the id of
/// the task at the selection (for a delete request).
pub fn step(state: &AppState, event: &Event<Key>, tasks: &Vec<Task>) -> (r: (
    AppState,
    Option<Intent>,
))
    ensures
        r == spec_step(*state, *event, tasks@),
{
    match event {
        Event::Tick => (*state, None),
        Event::Input(k) => match k {
            Key::Char(c) => if *c == 'q' {
                (AppState { running: false, ..*state }, None)
            } else if *c == 'h' {
                (AppState { menu: Menu::Home, ..*state }, None)
            } else if *c == 't' {
                (
                    AppState {
                        menu: Menu::Task,
                        selection: clamp_selection(state.selection, tasks.len()),
                        ..*state
                    },
                    None,
                )
            } else if *c == 'a' && matches!(state.menu, Menu::Task) {
                (*state, Some(Intent::AddTask))
            } else if *c == 'd' && matches!(state.menu, Menu::Task) {
                match state.selection {
                    Some(i) => if i < tasks.len() {
                        (*state, Some(Intent::DeleteTask(tasks[i].id)))
                    } else {
                        (*state, None)
                    },
                    None => (*state, None),
                }
            } else {
                (*state, None)
            },
            Key::Down => if matches!(state.menu, Menu::Task) {
                let count = tasks.len();
                let sel = match state.selection {
                    None => None,
                    Some(i) => if count == 0 {
                        None
                    } else if i < count - 1 {
                        Some(i + 1)
                    } else {
                        Some(count - 1)
                    },
                };
                (AppState { selection: sel, ..*state }, None)
            } else {
                (*state, None)
            },
            Key::Up => if matches!(state.menu, Menu::Task) {
                let count = tasks.len();
                let sel = match state.selection {
                    None => None,
                    Some(i) => if count == 0 {
                        None
                    } else if i == 0 {
                        Some(0)
                    } else if i - 1 < count {
                        Some(i - 1)
                    } else {
                        Some(count - 1)
                    },
                };
                (AppState { selection: sel, ..*state }, None)
            } else {
                (*state, None)
            },
            Key::Other => (*state, None),
        },
    }
}

/// Selection after the store confirms an append: the new task sits at
/// the end of the snapshot and becomes the selection.
pub open spec fn spec_confirm_add(s: AppState, new_count: usize) -> AppState {
    AppState { selection: Some((new_count - 1) as usize), ..s }
}

/// Record a confirmed append: the snapshot now holds `new_count` tasks
/// and the selection moves to the new task's position (the last index).
pub fn confirm_add(state: &AppState, new_count: usize) -> (r: AppState)
    requires
        new_count >= 1,
    ensures
        r == spec_confirm_add(*state, new_count),
        selection_ok(r.selection, new_count),
        r.menu == state.menu && r.running == state.running,
{
    AppState { selection: Some(new_count - 1), ..*state }
}

/// Selection after the store confirms a removal: re-clamped against the
/// shrunken snapshot, so an emptied list selects nothing.
pub open spec fn spec_confirm_delete(s: AppState, new_count: usize) -> AppState {
    AppState { selection: spec_clamp(s.selection, new_count), ..s }
}

/// Record a confirmed removal: the snapshot now holds `new_count` tasks
/// and the selection is clamped back into range (`None` when the last
/// task went away).
pub fn confirm_delete(state: &AppState, new_count: usize) -> (r: AppState)
    ensures
        r == spec_confirm_delete(*state, new_count),
        selection_ok(r.selection, new_count),
        r.menu == state.menu && r.running == state.running,
{
    AppState { selection: clamp_selection(state.selection, new_count), ..*state }
}

/// One confirmed store mutation applied to (selection, count): an append
/// (`add` true) grows the snapshot and selects the new last task; a
/// removal of the task at the selection shrinks it and re-clamps. A
/// removal with nothing selected is a no-op.
pub open spec fn spec_apply_confirmed(sel: Option<usize>, count: usize, add: bool) -> (
    Option<usize>,
    usize,
) {
    if add {
        (Some(count), (count + 1) as usize)
    } else if sel is Some && count > 0 {
        (spec_clamp(sel, (count - 1) as usize), (count - 1) as usize)
    } else {
        (sel, count)
    }
}

/// A whole run of confirmed add/delete mutations, applied in order
/// (`true` for an add, `false` for a delete at the selection).
pub open spec fn spec_run_intents(sel: Option<usize>, count: usize, ops: Seq<bool>) -> (
    Option<usize>,
    usize,
)
    decreases ops.len(),
{
    if ops.len() == 0 {
        (sel, count)
    } else {
        let next = spec_apply_confirmed(sel, count, ops[0]);
        spec_run_intents(next.0, next.1, ops.subrange(1, ops.len() as int))
    }
}

/// After any sequence of confirmed add/delete mutations, the selection
/// invariant still holds: it is `None` exactly when the task count is
/// zero, and otherwise a valid index. (The bound on `count + ops.len()`
/// only keeps the abstract count within the machine word.)
pub proof fn lemma_selection_always_ok(sel: Option<usize>, count: usize, ops: Seq<bool>)
    requires
        selection_ok(sel, count),
        count + ops.len() <= usize::MAX,
    ensures
        selection_ok(spec_run_intents(sel, count, ops).0, spec_run_intents(sel, count, ops).1),
    decreases ops.len(),
{
    if ops.len() > 0 {
        let next = spec_apply_confirmed(sel, count, ops[0]);
        assert(selection_ok(next.0, next.1));
        lemma_selection_always_ok(next.0, next.1, ops.subrange(1, ops.len() as int));
    }
}

/// Every transition of the state machine keeps the selection invariant
/// against the snapshot it read: an event can never leave the selection
/// pointing outside the snapshot.
pub proof fn lemma_step_preserves_selection_ok(s: AppState, ev: Event<Key>, tasks: Seq<Task>)
    requires
        selection_ok(s.selection, tasks.len() as usize),
        tasks.len() <= usize::MAX,
    ensures
        selection_ok(spec_step(s, ev, tasks).0.selection, tasks.len() as usize),
{
}

/// Clamping is idempotent: once a selection is in range for `count`
/// tasks, clamping it again against the same count changes nothing.
pub proof fn lemma_clamp_idempotent(sel: Option<usize>, count: usize)
    ensures
        spec_clamp(spec_clamp(sel, count), count) == spec_clamp(sel, count),
{
}

/// Switching to the task view, back home, and to the task view again
/// leaves the selection (and the menu) where the first switch put it,
/// as long as the snapshot has not changed in between.
pub proof fn lemma_menu_switch_preserves_selection(s: AppState, tasks: Seq<Task>)
    ensures
        ({
            let s1 = spec_step(s, Event::Input(Key::Char('t')), tasks).0;
            let s2 = spec_step(s1, Event::Input(Key::Char('h')), tasks).0;
            let s3 = spec_step(s2, Event::Input(Key::Char('t')), tasks).0;
            s3.selection == s1.selection && s3.menu == s1.menu
        }),
{
    lemma_clamp_idempotent(s.selection, tasks.len() as usize);
}

/// The render loop, seen as a fold of the transition function: events
/// are consumed in order until the stream ends or `running` goes false;
/// after that no event is processed.
pub open spec fn spec_run_events(s: AppState, events: Seq<Event<Key>>, tasks: Seq<Task>) -> AppState
    decreases events.len(),
{
    if events.len() == 0 || !s.running {
        s
    } else {
        spec_run_events(
            spec_step(s, events[0], tasks).0,
            events.subrange(1, events.len() as int),
            tasks,
        )
    }
}

/// `q` is terminal: from any running state, in any menu, it turns
/// `running` off, and whatever events arrive afterwards are not
/// processed — the state stays exactly as `q` left it.
pub proof fn lemma_quit_halts(s: AppState, rest: Seq<Event<Key>>, tasks: Seq<Task>)
    requires
        s.running,
    ensures
        ({
            let s1 = spec_step(s, Event::Input(Key::Char('q')), tasks).0;
            !s1.running && spec_run_events(s1, rest, tasks) == s1
        }),
{
}

} // verus!
