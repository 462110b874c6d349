use vstd::prelude::*;

use crate::models::{lower_text, lowercase, Status};
use crate::records::{
    decodes_note, decodes_task, encodes_note, encodes_task, is_rfc3339, json_of_tags, opt_ts_view,
    opt_view, tags_view, task_dates_wf, Note, NoteFields, NoteRow, Task, TaskFields, TaskRow,
    Timestamp,
};

verus! {

/// A record stored under `path` is visible in `scope`: every record where no
/// scope is given, else those whose scope is exactly that text.
pub open spec fn in_scope(path: Option<Seq<char>>, scope: Option<Seq<char>>) -> bool {
    match scope {
        None => true,
        Some(s) => path == Some(s),
    }
}

/// The stored tasks visible in `scope`, in stored order.
pub open spec fn task_rows_in(rows: Seq<TaskRow>, scope: Option<Seq<char>>) -> Seq<TaskRow> {
    rows.filter(|row: TaskRow| in_scope(opt_view(row.fields.project_path), scope))
}

/// The stored notes visible in `scope`, in stored order.
pub open spec fn note_rows_in(rows: Seq<NoteRow>, scope: Option<Seq<char>>) -> Seq<NoteRow> {
    rows.filter(|row: NoteRow| in_scope(opt_view(row.fields.project_path), scope))
}

/// The characters of an optional scope.
pub open spec fn scope_view(scope: Option<&str>) -> Option<Seq<char>> {
    match scope {
        Some(s) => Some(s@),
        None => None,
    }
}

fn visible(path: &Option<String>, scope: Option<&str>) -> (r: bool)
    ensures
        r == in_scope(opt_view(*path), scope_view(scope)),
{
    match scope {
        None => true,
        Some(s) => match path {
            Some(p) => *p == s.to_owned(),
            None => false,
        },
    }
}

/// The tasks of `rows` visible in `scope`, read back in stored order; `now`
/// stands in for a creation time that cannot be read.
pub fn select_tasks(rows: &Vec<TaskRow>, scope: Option<&str>, now: &Timestamp) -> (r: Vec<Task>)
    ensures
        r.len() == task_rows_in(rows@, scope_view(scope)).len(),
        forall|i: int|
            0 <= i < r.len() ==> decodes_task(
                #[trigger] task_rows_in(rows@, scope_view(scope))[i],
                now@,
                r@[i],
            ),
{
    let ghost sc = scope_view(scope);
    let mut r: Vec<Task> = Vec::new();
    let mut i: usize = 0;
    while i < rows.len()
        invariant
            i <= rows.len(),
            sc == scope_view(scope),
            r.len() == task_rows_in(rows@.subrange(0, i as int), sc).len(),
            forall|j: int|
                0 <= j < r.len() ==> decodes_task(
                    #[trigger] task_rows_in(rows@.subrange(0, i as int), sc)[j],
                    now@,
                    r@[j],
                ),
        decreases rows.len() - i,
    {
        proof {
            assert(rows@.subrange(0, i + 1) =~= rows@.subrange(0, i as int).push(rows@[i as int]));
            lemma_task_rows_in_push(rows@.subrange(0, i as int), rows@[i as int], sc);
        }
        if visible(&rows[i].fields.project_path, scope) {
            let t = Task::from_row(&rows[i], now);
            r.push(t);
        }
        i = i + 1;
    }
    assert(rows@.subrange(0, i as int) =~= rows@);
    r
}

/// The notes of `rows` visible in `scope`, read back in stored order; `now`
/// stands in for a creation time that cannot be read.
pub fn select_notes(rows: &Vec<NoteRow>, scope: Option<&str>, now: &Timestamp) -> (r: Vec<Note>)
    ensures
        r.len() == note_rows_in(rows@, scope_view(scope)).len(),
        forall|i: int|
            0 <= i < r.len() ==> decodes_note(
                #[trigger] note_rows_in(rows@, scope_view(scope))[i],
                now@,
                r@[i],
            ),
{
    let ghost sc = scope_view(scope);
    let mut r: Vec<Note> = Vec::new();
    let mut i: usize = 0;
    while i < rows.len()
        invariant
            i <= rows.len(),
            sc == scope_view(scope),
            r.len() == note_rows_in(rows@.subrange(0, i as int), sc).len(),
            forall|j: int|
                0 <= j < r.len() ==> decodes_note(
                    #[trigger] note_rows_in(rows@.subrange(0, i as int), sc)[j],
                    now@,
                    r@[j],
                ),
        decreases rows.len() - i,
    {
        proof {
            assert(rows@.subrange(0, i + 1) =~= rows@.subrange(0, i as int).push(rows@[i as int]));
            lemma_note_rows_in_push(rows@.subrange(0, i as int), rows@[i as int], sc);
        }
        if visible(&rows[i].fields.project_path, scope) {
            let n = Note::from_row(&rows[i], now);
            r.push(n);
        }
        i = i + 1;
    }
    assert(rows@.subrange(0, i as int) =~= rows@);
    r
}

proof fn lemma_task_rows_in_push(s: Seq<TaskRow>, x: TaskRow, sc: Option<Seq<char>>)
    ensures
        task_rows_in(s.push(x), sc) == if in_scope(opt_view(x.fields.project_path), sc) {
            task_rows_in(s, sc).push(x)
        } else {
            task_rows_in(s, sc)
        },
{
    reveal(Seq::filter);
    assert(s.push(x).drop_last() =~= s);
}

proof fn lemma_note_rows_in_push(s: Seq<NoteRow>, x: NoteRow, sc: Option<Seq<char>>)
    ensures
        note_rows_in(s.push(x), sc) == if in_scope(opt_view(x.fields.project_path), sc) {
            note_rows_in(s, sc).push(x)
        } else {
            note_rows_in(s, sc)
        },
{
    reveal(Seq::filter);
    assert(s.push(x).drop_last() =~= s);
}

/// Why a point lookup in the store failed.
#[derive(Debug, Clone, Copy, PartialEq, Eq, Structural)]
pub enum StoreError {
    /// No record has this identifier.
    NotFound(i64),
}

/// The note with identifier `id` among `rows`, read back; `NotFound` where no
/// row has that identifier. Where several have it, the first counts.
pub fn find_note(rows: &Vec<NoteRow>, id: i64, now: &Timestamp) -> (r: Result<Note, StoreError>)
    ensures
        r is Err <==> (forall|j: int| 0 <= j < rows.len() ==> #[trigger] rows@[j].id != id),
        r matches Err(e) ==> e == StoreError::NotFound(id),
        r matches Ok(n) ==> exists|j: int|
            0 <= j < rows.len() && #[trigger] rows@[j].id == id && (forall|k: int|
                0 <= k < j ==> rows@[k].id != id) && decodes_note(rows@[j], now@, n),
{
    let mut i: usize = 0;
    while i < rows.len()
        invariant
            i <= rows.len(),
            forall|k: int| 0 <= k < i ==> rows@[k].id != id,
        decreases rows.len() - i,
    {
        if rows[i].id == id {
            let n = Note::from_row(&rows[i], now);
            assert(rows@[i as int].id == id);
            return Ok(n);
        }
        i = i + 1;
    }
    Err(StoreError::NotFound(id))
}

/// One column of a stored note to overwrite, with its new stored text.
pub enum NoteColumn {
    Title(String),
    Content(String),
    Tags(String),
}

/// `w` overwrites the title with `t`.
pub open spec fn writes_title(w: NoteColumn, t: Seq<char>) -> bool {
    w matches NoteColumn::Title(x) && x@ == t
}

/// `w` overwrites the content with `c`.
pub open spec fn writes_content(w: NoteColumn, c: Seq<char>) -> bool {
    w matches NoteColumn::Content(x) && x@ == c
}

/// `w` overwrites the tags with the stored text of `g`.
pub open spec fn writes_tags(w: NoteColumn, g: Seq<Seq<char>>) -> bool {
    w matches NoteColumn::Tags(x) && x@ == json_of_tags(g)
}

/// The column writes of an edit of a note: one for each field that is given,
/// in the order title, content, tags; none for a field that is not.
pub fn note_edits(title: Option<String>, content: Option<String>, tags: Option<Vec<String>>) -> (r:
    Vec<NoteColumn>)
    ensures
        r.len() == (if title is Some { 1int } else { 0 }) + (if content is Some { 1int } else { 0 })
            + (if tags is Some { 1int } else { 0 }),
        title matches Some(t) ==> writes_title(r@[0], t@),
        content matches Some(c) ==> writes_content(
            r@[if title is Some { 1int } else { 0 }],
            c@,
        ),
        tags matches Some(g) ==> writes_tags(r@[r.len() - 1], tags_view(g@)),
{
    let mut r: Vec<NoteColumn> = Vec::new();
    match title {
        Some(t) => r.push(NoteColumn::Title(t)),
        None => {},
    }
    match content {
        Some(c) => r.push(NoteColumn::Content(c)),
        None => {},
    }
    match tags {
        Some(g) => {
            let text = crate::records::encode_tags(&g);
            r.push(NoteColumn::Tags(text));
        },
        None => {},
    }
    r
}

/// Whether a task of status `s` passes the status filter `filter`: the name of
/// the status and the filter agree, letter case aside.
pub fn status_matches(s: Status, filter: &str) -> (r: bool)
    ensures
        r == (lower_text(s.label()) == lower_text(filter@)),
{
    let name = s.to_string();
    let a = lowercase(name.as_str());
    let b = lowercase(filter);
    a == b
}

/// A scoped listing holds exactly the stored records of that scope, and a
/// listing without a scope holds every stored record.
pub proof fn lemma_scoped_listing_exact(rows: Seq<TaskRow>, s: Seq<char>)
    ensures
        forall|row: TaskRow| #[trigger]
            task_rows_in(rows, Some(s)).contains(row) <==> (rows.contains(row) && opt_view(
                row.fields.project_path,
            ) == Some(s)),
        task_rows_in(rows, None) == rows,
    decreases rows.len(),
{
    reveal(Seq::filter);
    if rows.len() > 0 {
        let init = rows.drop_last();
        lemma_scoped_listing_exact(init, s);
        assert(rows =~= init.push(rows.last()));
        lemma_task_rows_in_push(init, rows.last(), Some(s));
        lemma_task_rows_in_push(init, rows.last(), None);
        assert forall|row: TaskRow| #[trigger]
            task_rows_in(rows, Some(s)).contains(row) <==> (rows.contains(row) && opt_view(
                row.fields.project_path,
            ) == Some(s)) by {
            let fi = task_rows_in(init, Some(s));
            let f = task_rows_in(rows, Some(s));
            let x = rows.last();
            let n = rows.len() - 1;
            assert(rows[n] == x);
            if f.contains(row) {
                let j = choose|j: int| 0 <= j < f.len() && f[j] == row;
                if j < fi.len() {
                    assert(fi[j] == row);
                    assert(fi.contains(row));
                    let k = choose|k: int| 0 <= k < init.len() && init[k] == row;
                    assert(rows[k] == row);
                } else {
                    assert(row == x);
                }
            }
            if rows.contains(row) && opt_view(row.fields.project_path) == Some(s) {
                let j = choose|j: int| 0 <= j < rows.len() && rows[j] == row;
                if j < n {
                    assert(init[j] == row);
                    assert(init.contains(row));
                    assert(fi.contains(row));
                    let k = choose|k: int| 0 <= k < fi.len() && fi[k] == row;
                    assert(f[k] == row);
                } else {
                    assert(f[fi.len() as int] == row);
                }
            }
        }
    } else {
        assert(task_rows_in(rows, Some(s)) =~= Seq::empty());
    }
}

/// A task stored and read back has every field unchanged: title, description,
/// status, priority, scope, due date, creation time and tags.
pub proof fn lemma_task_round_trip(t: Task, id: i64, f: TaskFields, now: Seq<char>, r: Task)
    requires
        task_dates_wf(t),
        encodes_task(t, f),
        decodes_task(TaskRow { id, fields: f }, now, r),
    ensures
        r.id == Some(id),
        r.title@ == t.title@,
        opt_view(r.description) == opt_view(t.description),
        r.status == t.status,
        r.priority == t.priority,
        opt_view(r.project_path) == opt_view(t.project_path),
        opt_ts_view(r.due_date) == opt_ts_view(t.due_date),
        r.created_at@ == t.created_at@,
        tags_view(r.tags@) == tags_view(t.tags@),
{
    crate::models::lemma_priority_label_round_trip(t.priority);
    crate::models::lemma_status_label_round_trip(t.status);
}

/// A note stored and read back has every field unchanged: title, content,
/// scope, creation time and tags.
pub proof fn lemma_note_round_trip(n: Note, id: i64, f: NoteFields, now: Seq<char>, r: Note)
    requires
        is_rfc3339(n.created_at@),
        encodes_note(n, f),
        decodes_note(NoteRow { id, fields: f }, now, r),
    ensures
        r.id == Some(id),
        r.title@ == n.title@,
        opt_view(r.content) == opt_view(n.content),
        opt_view(r.project_path) == opt_view(n.project_path),
        r.created_at@ == n.created_at@,
        tags_view(r.tags@) == tags_view(n.tags@),
{
}

/// Of the tasks added to the store, each under the row of the same position, a
/// listing in scope `s` holds exactly the rows of the tasks added under `s`, and
/// a listing without a scope holds the rows of all of them.
pub proof fn lemma_add_then_list(tasks: Seq<Task>, rows: Seq<TaskRow>, s: Seq<char>)
    requires
        rows.len() == tasks.len(),
        forall|k: int| 0 <= k < rows.len() ==> encodes_task(tasks[k], #[trigger] rows[k].fields),
    ensures
        forall|row: TaskRow| #[trigger]
            task_rows_in(rows, Some(s)).contains(row) <==> exists|k: int|
                0 <= k < rows.len() && rows[k] == row && opt_view(tasks[k].project_path) == Some(s),
        task_rows_in(rows, None) == rows,
{
    lemma_scoped_listing_exact(rows, s);
    assert forall|row: TaskRow| #[trigger]
        task_rows_in(rows, Some(s)).contains(row) <==> exists|k: int|
            0 <= k < rows.len() && rows[k] == row && opt_view(tasks[k].project_path) == Some(s) by {
        if task_rows_in(rows, Some(s)).contains(row) {
            let k = choose|k: int| 0 <= k < rows.len() && rows[k] == row;
            assert(encodes_task(tasks[k], rows[k].fields));
        }
        if exists|k: int|
            0 <= k < rows.len() && rows[k] == row && opt_view(tasks[k].project_path) == Some(s) {
            let k = choose|k: int|
                0 <= k < rows.len() && rows[k] == row && opt_view(tasks[k].project_path) == Some(s);
            assert(encodes_task(tasks[k], rows[k].fields));
            assert(rows.contains(row));
        }
    }
}

/// Where the stored rows have pairwise distinct identifiers, as the store's key
/// makes them, so do the rows of every listing, scoped or not.
pub proof fn lemma_listing_ids_distinct(rows: Seq<TaskRow>, sc: Option<Seq<char>>)
    requires
        forall|i: int, j: int| 0 <= i < j < rows.len() ==> rows[i].id != rows[j].id,
    ensures
        forall|i: int, j: int|
            0 <= i < j < task_rows_in(rows, sc).len() ==> task_rows_in(rows, sc)[i].id
                != task_rows_in(rows, sc)[j].id,
    decreases rows.len(),
{
    if rows.len() > 0 {
        let init = rows.drop_last();
        let x = rows.last();
        assert(rows =~= init.push(x));
        lemma_listing_ids_distinct(init, sc);
        lemma_task_rows_in_push(init, x, sc);
        let fi = task_rows_in(init, sc);
        let f = task_rows_in(rows, sc);
        if in_scope(opt_view(x.fields.project_path), sc) {
            assert forall|i: int| 0 <= i < fi.len() implies fi[i].id != x.id by {
                assert(fi.contains(fi[i]));
                match sc {
                    Some(s) => lemma_scoped_listing_exact(init, s),
                    None => lemma_scoped_listing_exact(init, seq![]),
                }
                assert(init.contains(fi[i]));
                let k = choose|k: int| 0 <= k < init.len() && init[k] == fi[i];
                assert(rows[k] == init[k]);
                assert(rows[rows.len() - 1] == x);
            }
            assert forall|i: int, j: int| 0 <= i < j < f.len() implies f[i].id != f[j].id by {
                if j == fi.len() {
                    assert(f[i] == fi[i]);
                } else {
                    assert(f[i] == fi[i] && f[j] == fi[j]);
                }
            }
        }
    }
}

} // verus!
