use vstd::prelude::*;
use vstd::string::StringExecFns;

use crate::models::{Priority, Status};
use crate::records::Task;

verus! {

/// A key that the interactive list reacts to.
#[derive(Debug, Clone, Copy, PartialEq, Eq, Structural)]
pub enum Key {
    Down,
    Up,
    Activate,
    Quit,
    Other,
}

/// What the loop around the list does after a key.
#[derive(Debug, Clone, Copy, PartialEq, Eq, Structural)]
pub enum Action {
    /// Nothing beyond drawing the list again.
    Nothing,
    /// Mark the task with this identifier done in the store, then reload the list.
    Complete(i64),
    /// Reload the list from the store.
    Reload,
    /// Leave the interactive list.
    Quit,
}

/// The selection after moving down in a list of `n` items: one further, back to
/// the top past the end; unchanged in an empty list.
pub open spec fn next_selection(sel: Option<usize>, n: nat) -> Option<usize> {
    if n == 0 {
        sel
    } else {
        match sel {
            None => Some(0),
            Some(i) => if i + 1 >= n { Some(0) } else { Some((i + 1) as usize) },
        }
    }
}

/// The selection after moving up in a list of `n` items: one back, to the last
/// item from the top; unchanged in an empty list.
pub open spec fn previous_selection(sel: Option<usize>, n: nat) -> Option<usize> {
    if n == 0 {
        sel
    } else {
        match sel {
            None => Some(0),
            Some(i) => if i == 0 { Some((n - 1) as usize) } else { Some((i - 1) as usize) },
        }
    }
}

/// In a list of `n` items, moving down from the last item selects the first,
/// moving up from the first selects the last, and in an empty list neither move
/// changes the selection.
pub proof fn lemma_navigation_wraps(n: nat, sel: Option<usize>)
    requires
        n <= usize::MAX,
    ensures
        n > 0 ==> next_selection(Some((n - 1) as usize), n) == Some(0usize),
        n > 0 ==> previous_selection(Some(0usize), n) == Some((n - 1) as usize),
        n == 0 ==> next_selection(sel, n) == sel && previous_selection(sel, n) == sel,
{
}

/// What activating the selection of `tasks` asks for: completing the selected
/// task where it is stored and not done, a reload where it is done, and nothing
/// where no task is selected.
pub open spec fn activation(tasks: Seq<Task>, sel: Option<usize>) -> Action {
    match sel {
        Some(i) => if i < tasks.len() {
            let t = tasks[i as int];
            match t.id {
                Some(id) => if t.status != Status::Done { Action::Complete(id) } else { Action::Reload },
                None => Action::Reload,
            }
        } else {
            Action::Nothing
        },
        None => Action::Nothing,
    }
}

/// The colour in which the interactive list shows a priority.
#[derive(Debug, Clone, Copy, PartialEq, Eq, Structural)]
pub enum Shade {
    Red,
    Yellow,
    Blue,
}

/// The colour of priority `p` in the interactive list.
pub open spec fn shade_of(p: Priority) -> Shade {
    match p {
        Priority::High | Priority::Critical => Shade::Red,
        Priority::Medium => Shade::Yellow,
        Priority::Low => Shade::Blue,
    }
}

/// How one task is drawn in the interactive list.
pub struct TaskLine {
    /// A tick for a done task, an empty box otherwise.
    pub icon: String,
    pub title: String,
    /// The title is struck through, for a done task.
    pub crossed: bool,
    /// The priority's name in brackets.
    pub badge: String,
    pub shade: Shade,
}

/// `l` draws task `t`: done tasks get a tick and a struck-through title, the
/// others an empty box; the priority follows in brackets, in its colour.
pub open spec fn draws(t: Task, l: TaskLine) -> bool {
    &&& l.crossed == (t.status == Status::Done)
    &&& l.icon@ == (if t.status == Status::Done { "\u{2714}"@ } else { "\u{2610}"@ })
    &&& l.title@ == t.title@
    &&& l.badge@ == seq!['['] + t.priority.label() + seq![']']
    &&& l.shade == shade_of(t.priority)
}

/// How task `t` is drawn in the interactive list.
pub fn line_of(t: &Task) -> (r: TaskLine)
    ensures
        draws(*t, r),
{
    let done = t.status == Status::Done;
    let icon = if done {
        String::from_str("\u{2714}")
    } else {
        String::from_str("\u{2610}")
    };
    let mut badge = String::from_str("[");
    let name = t.priority.to_string();
    badge.append(name.as_str());
    badge.append("]");
    proof {
        reveal_strlit("[");
        reveal_strlit("]");
    }
    let shade = match t.priority {
        Priority::High | Priority::Critical => Shade::Red,
        Priority::Medium => Shade::Yellow,
        Priority::Low => Shade::Blue,
    };
    let r = TaskLine { icon, title: t.title.clone(), crossed: done, badge, shade };
    assert(r.title@ == t.title@);
    assert(r.badge@ == seq!['['] + t.priority.label() + seq![']']);
    r
}

/// The interactive list: a snapshot of the tasks of the current scope and the
/// selected position in it. The position is kept as a number across reloads,
/// so after one it may point past the end.
pub struct App {
    pub tasks: Vec<Task>,
    pub selected: Option<usize>,
}

impl App {
    /// A list showing `tasks`, its first task selected where there is one.
    pub fn new(tasks: Vec<Task>) -> (r: App)
        ensures
            r.tasks@ == tasks@,
            r.selected == (if tasks.len() == 0 { None } else { Some(0usize) }),
    {
        let selected = if tasks.len() == 0 {
            None
        } else {
            Some(0)
        };
        App { tasks, selected }
    }

    /// Moves the selection down by one, wrapping to the top.
    pub fn next(&mut self)
        ensures
            final(self).tasks@ == old(self).tasks@,
            final(self).selected == next_selection(old(self).selected, old(self).tasks.len() as nat),
    {
        let n = self.tasks.len();
        if n == 0 {
            return;
        }
        let i = match self.selected {
            Some(i) => if i >= n - 1 {
                0
            } else {
                i + 1
            },
            None => 0,
        };
        self.selected = Some(i);
    }

    /// Moves the selection up by one, wrapping to the last task.
    pub fn previous(&mut self)
        ensures
            final(self).tasks@ == old(self).tasks@,
            final(self).selected == previous_selection(
                old(self).selected,
                old(self).tasks.len() as nat,
            ),
    {
        let n = self.tasks.len();
        if n == 0 {
            return;
        }
        let i = match self.selected {
            Some(i) => if i == 0 {
                n - 1
            } else {
                i - 1
            },
            None => 0,
        };
        self.selected = Some(i);
    }

    /// What activating the selected task asks of the store.
    pub fn activate(&self) -> (r: Action)
        ensures
            r == activation(self.tasks@, self.selected),
    {
        match self.selected {
            Some(i) => if i < self.tasks.len() {
                let t = &self.tasks[i];
                match t.id {
                    Some(id) => if t.status != Status::Done {
                        Action::Complete(id)
                    } else {
                        Action::Reload
                    },
                    None => Action::Reload,
                }
            } else {
                Action::Nothing
            },
            None => Action::Nothing,
        }
    }

    /// Handles one key: moves the selection, or says what the loop must do.
    pub fn handle_key(&mut self, key: Key) -> (r: Action)
        ensures
            final(self).tasks@ == old(self).tasks@,
            key == Key::Down ==> final(self).selected == next_selection(
                old(self).selected,
                old(self).tasks.len() as nat,
            ) && r == Action::Nothing,
            key == Key::Up ==> final(self).selected == previous_selection(
                old(self).selected,
                old(self).tasks.len() as nat,
            ) && r == Action::Nothing,
            key == Key::Activate ==> final(self).selected == old(self).selected && r == activation(
                old(self).tasks@,
                old(self).selected,
            ),
            key == Key::Quit ==> final(self).selected == old(self).selected && r == Action::Quit,
            key == Key::Other ==> final(self).selected == old(self).selected && r == Action::Nothing,
    {
        match key {
            Key::Down => {
                self.next();
                Action::Nothing
            },
            Key::Up => {
                self.previous();
                Action::Nothing
            },
            Key::Activate => self.activate(),
            Key::Quit => Action::Quit,
            Key::Other => Action::Nothing,
        }
    }

    /// Replaces the snapshot with `tasks` freshly read from the store; the
    /// selected position is kept as it is.
    pub fn reload(&mut self, tasks: Vec<Task>)
        ensures
            final(self).tasks@ == tasks@,
            final(self).selected == old(self).selected,
    {
        self.tasks = tasks;
    }

    /// How each task of the snapshot is drawn, in order.
    pub fn lines(&self) -> (r: Vec<TaskLine>)
        ensures
            r.len() == self.tasks.len(),
            forall|i: int| 0 <= i < r.len() ==> draws(self.tasks@[i], #[trigger] r@[i]),
    {
        let mut r: Vec<TaskLine> = Vec::new();
        let mut i: usize = 0;
        while i < self.tasks.len()
            invariant
                i <= self.tasks.len(),
                r.len() == i,
                forall|j: int| 0 <= j < i ==> draws(self.tasks@[j], #[trigger] r@[j]),
            decreases self.tasks.len() - i,
        {
            r.push(line_of(&self.tasks[i]));
            i = i + 1;
        }
        r
    }
}

} // verus!
