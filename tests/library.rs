use flow::context::ContextManager;
use flow::models::{Priority, Status};
use flow::records::{check_date_text, due_from_parsed, due_from_text, join_tags, DueDateError, Note, NoteFields, NoteRow, Task, TaskFields, TaskRow, Timestamp};
use flow::store::{find_note, note_edits, select_notes, select_tasks, status_matches, NoteColumn, StoreError};
use flow::view::{line_of, Action, App, Key, Shade};

fn ts(s: &str) -> Timestamp {
    Timestamp::parse(s).expect("valid timestamp")
}

fn now() -> Timestamp {
    ts("2030-01-01T00:00:00+00:00")
}

fn task_row(id: i64, title: &str, scope: Option<&str>) -> TaskRow {
    let t = Task::create(
        title.to_string(),
        Priority::Medium,
        None,
        scope.unwrap_or("").to_string(),
        ts("2024-05-01T10:00:00+02:00"),
    );
    let mut fields = t.to_fields();
    fields.project_path = scope.map(|s| s.to_string());
    TaskRow { id, fields }
}

fn titles(tasks: &[Task]) -> Vec<String> {
    tasks.iter().map(|t| t.title.clone()).collect()
}

#[test]
fn status_reads_names_in_any_case() {
    assert_eq!(Status::from_text("todo"), Status::Todo);
    assert_eq!(Status::from_text("DOING"), Status::InProgress);
    assert_eq!(Status::from_text("in-progress"), Status::InProgress);
    assert_eq!(Status::from_text("InProgress"), Status::InProgress);
    assert_eq!(Status::from_text("Completed"), Status::Done);
    assert_eq!(Status::from_text("done"), Status::Done);
    assert_eq!(Status::from_text("garbage"), Status::Todo);
    assert_eq!(Status::from(String::from("DONE")), Status::Done);
}

#[test]
fn priority_reads_names_in_any_case() {
    assert_eq!(Priority::from_text("low"), Priority::Low);
    assert_eq!(Priority::from_text("HIGH"), Priority::High);
    assert_eq!(Priority::from_text("Critical"), Priority::Critical);
    assert_eq!(Priority::from_text("medium"), Priority::Medium);
    assert_eq!(Priority::from_text("urgent"), Priority::Medium);
    assert_eq!(Priority::from(String::from("LOW")), Priority::Low);
    assert!(Priority::Low < Priority::Medium);
    assert!(Priority::High < Priority::Critical);
}

#[test]
fn names_of_status_and_priority() {
    assert_eq!(Status::Todo.to_string(), "Todo");
    assert_eq!(Status::InProgress.to_string(), "In Progress");
    assert_eq!(Status::Done.to_string(), "Done");
    assert_eq!(Priority::Low.to_string(), "Low");
    assert_eq!(Priority::Medium.to_string(), "Medium");
    assert_eq!(Priority::High.to_string(), "High");
    assert_eq!(Priority::Critical.to_string(), "Critical");
}

#[test]
fn every_status_reads_back_from_its_name() {
    for st in [Status::Todo, Status::InProgress, Status::Done] {
        assert_eq!(Status::from_text(&st.to_string()), st);
    }
    assert_eq!(Status::from_text("in progress"), Status::InProgress);
}

#[test]
fn timestamps_accept_only_rfc3339() {
    assert!(Timestamp::parse("2024-01-02T03:04:05+00:00").is_some());
    assert!(Timestamp::parse("2024-01-02T03:04:05.123456789-07:00").is_some());
    assert!(Timestamp::parse("tomorrow").is_none());
    assert!(Timestamp::parse("").is_none());
    assert_eq!(ts("2024-01-02T03:04:05Z").as_str(), "2024-01-02T03:04:05Z");
}

#[test]
fn task_round_trip_keeps_fields() {
    let mut t = Task::create(
        "Write report".to_string(),
        Priority::Critical,
        Some(ts("2024-06-30T17:00:00+02:00")),
        "/repo/a".to_string(),
        ts("2024-06-01T09:00:00+02:00"),
    );
    t.tags = vec!["work".to_string(), "q3".to_string()];
    t.description = Some("quarterly".to_string());
    let fields = t.to_fields();
    assert_eq!(fields.status, "Todo");
    assert_eq!(fields.priority, "Critical");
    assert_eq!(fields.tags.as_deref(), Some("[\"work\",\"q3\"]"));
    let back = Task::from_row(&TaskRow { id: 7, fields }, &now());
    assert_eq!(back.id, Some(7));
    assert_eq!(back.title, "Write report");
    assert_eq!(back.description.as_deref(), Some("quarterly"));
    assert_eq!(back.status, Status::Todo);
    assert_eq!(back.priority, Priority::Critical);
    assert_eq!(back.due_date.as_ref().map(|d| d.as_str()), Some("2024-06-30T17:00:00+02:00"));
    assert_eq!(back.project_path.as_deref(), Some("/repo/a"));
    assert_eq!(back.created_at.as_str(), "2024-06-01T09:00:00+02:00");
    assert_eq!(back.tags, vec!["work".to_string(), "q3".to_string()]);
}

#[test]
fn corrupted_columns_read_as_defaults() {
    let fields = TaskFields {
        title: "t".to_string(),
        description: None,
        status: "weird".to_string(),
        priority: "??".to_string(),
        due_date: Some("next tuesday".to_string()),
        project_path: None,
        created_at: "not a date".to_string(),
        tags: Some("{broken".to_string()),
    };
    let back = Task::from_row(&TaskRow { id: 1, fields }, &now());
    assert_eq!(back.status, Status::Todo);
    assert_eq!(back.priority, Priority::Medium);
    assert!(back.due_date.is_none());
    assert_eq!(back.created_at.as_str(), "2030-01-01T00:00:00+00:00");
    assert!(back.tags.is_empty());
}

#[test]
fn scoped_listing_holds_exactly_its_scope() {
    let rows = vec![
        task_row(1, "a1", Some("/repo/a")),
        task_row(2, "b1", Some("/repo/b")),
        task_row(3, "a2", Some("/repo/a")),
        task_row(4, "none", None),
        task_row(5, "prefix", Some("/repo/a/sub")),
    ];
    let a = select_tasks(&rows, Some("/repo/a"), &now());
    assert_eq!(titles(&a), vec!["a1", "a2"]);
    assert_eq!(a[0].id, Some(1));
    assert_eq!(a[1].id, Some(3));
    let b = select_tasks(&rows, Some("/repo/b"), &now());
    assert_eq!(titles(&b), vec!["b1"]);
    let all = select_tasks(&rows, None, &now());
    assert_eq!(titles(&all), vec!["a1", "b1", "a2", "none", "prefix"]);
    assert!(select_tasks(&rows, Some("/elsewhere"), &now()).is_empty());
    assert!(select_tasks(&Vec::new(), None, &now()).is_empty());
}

#[test]
fn write_report_example() {
    let t = Task::create(
        "Write report".to_string(),
        Priority::from_text("high"),
        None,
        "/repo/a".to_string(),
        ts("2024-06-01T09:00:00+02:00"),
    );
    let mut rows = vec![TaskRow { id: 1, fields: t.to_fields() }];
    let listed = select_tasks(&rows, Some("/repo/a"), &now());
    assert_eq!(listed.len(), 1);
    assert_eq!(listed[0].priority, Priority::High);
    assert_eq!(listed[0].status, Status::Todo);
    assert!(!line_of(&listed[0]).crossed);

    let mut app = App::new(listed);
    assert_eq!(app.handle_key(Key::Activate), Action::Complete(1));
    rows[0].fields.status = Status::Done.to_string();
    app.reload(select_tasks(&rows, Some("/repo/a"), &now()));
    assert_eq!(app.tasks[0].status, Status::Done);
    let line = line_of(&app.tasks[0]);
    assert!(line.crossed);
    assert_eq!(line.icon, "\u{2714}");
    assert_eq!(line.badge, "[High]");
    assert_eq!(line.shade, Shade::Red);
    assert_eq!(app.handle_key(Key::Activate), Action::Reload);
}

#[test]
fn meeting_note_example() {
    let n = Note::create(
        "Meeting".to_string(),
        None,
        "/repo/a".to_string(),
        ts("2024-06-01T09:00:00+02:00"),
        vec!["work".to_string(), "q3".to_string()],
    );
    let rows = vec![NoteRow { id: 3, fields: n.to_fields() }];
    let shown = find_note(&rows, 3, &now()).ok().expect("note 3");
    assert_eq!(shown.content_text(), "");
    assert_eq!(shown.tags_text(), "work, q3");
    assert_eq!(shown.title, "Meeting");
}

#[test]
fn missing_note_is_not_found() {
    let rows: Vec<NoteRow> = Vec::new();
    assert!(matches!(find_note(&rows, 9999, &now()), Err(StoreError::NotFound(9999))));
}

#[test]
fn notes_are_scoped() {
    let mk = |id: i64, scope: &str| {
        let n = Note::create(format!("n{}", id), Some("c".to_string()), scope.to_string(), now(), Vec::new());
        NoteRow { id, fields: n.to_fields() }
    };
    let rows = vec![mk(1, "/x"), mk(2, "/y"), mk(3, "/x")];
    let x = select_notes(&rows, Some("/x"), &now());
    assert_eq!(x.iter().map(|n| n.id.unwrap()).collect::<Vec<_>>(), vec![1, 3]);
    assert_eq!(select_notes(&rows, None, &now()).len(), 3);
    assert_eq!(x[0].content_text(), "c");
}

#[test]
fn note_fields_hold_tags_as_json() {
    let n = Note::create("t".to_string(), None, "/p".to_string(), now(), vec!["a b".to_string()]);
    let f: NoteFields = n.to_fields();
    assert_eq!(f.tags.as_deref(), Some("[\"a b\"]"));
    assert!(f.content.is_none());
}

#[test]
fn navigation_wraps() {
    let rows = vec![task_row(1, "a", Some("/p")), task_row(2, "b", Some("/p")), task_row(3, "c", Some("/p"))];
    let mut app = App::new(select_tasks(&rows, None, &now()));
    assert_eq!(app.selected, Some(0));
    app.previous();
    assert_eq!(app.selected, Some(2));
    app.next();
    assert_eq!(app.selected, Some(0));
    app.next();
    assert_eq!(app.selected, Some(1));
    app.selected = Some(2);
    assert_eq!(app.handle_key(Key::Down), Action::Nothing);
    assert_eq!(app.selected, Some(0));
    assert_eq!(app.handle_key(Key::Up), Action::Nothing);
    assert_eq!(app.selected, Some(2));
    assert_eq!(app.handle_key(Key::Quit), Action::Quit);
    assert_eq!(app.handle_key(Key::Other), Action::Nothing);
}

#[test]
fn navigation_in_empty_list_keeps_no_selection() {
    let mut app = App::new(Vec::new());
    assert_eq!(app.selected, None);
    app.next();
    assert_eq!(app.selected, None);
    app.previous();
    assert_eq!(app.selected, None);
    assert_eq!(app.handle_key(Key::Activate), Action::Nothing);
}

#[test]
fn selection_survives_reload_by_position() {
    let rows = vec![task_row(1, "a", Some("/p")), task_row(2, "b", Some("/p"))];
    let mut app = App::new(select_tasks(&rows, None, &now()));
    app.next();
    app.reload(select_tasks(&rows[..1].to_vec_rows(), None, &now()));
    assert_eq!(app.selected, Some(1));
    assert_eq!(app.handle_key(Key::Activate), Action::Nothing);
}

trait ToVecRows {
    fn to_vec_rows(&self) -> Vec<TaskRow>;
}

impl ToVecRows for [TaskRow] {
    fn to_vec_rows(&self) -> Vec<TaskRow> {
        self.iter().map(|r| task_row(r.id, &r.fields.title, r.fields.project_path.as_deref())).collect()
    }
}

#[test]
fn context_prefers_repository_root() {
    assert_eq!(ContextManager::resolve("/repo/a/src".to_string(), Some("/repo/a/".to_string())), "/repo/a/");
    assert_eq!(ContextManager::resolve("/tmp/x".to_string(), None), "/tmp/x");
}

#[test]
fn edits_write_only_given_fields() {
    let w = note_edits(Some("T".to_string()), None, Some(vec!["x".to_string(), "y".to_string()]));
    assert_eq!(w.len(), 2);
    assert!(matches!(&w[0], NoteColumn::Title(t) if t == "T"));
    assert!(matches!(&w[1], NoteColumn::Tags(t) if t == "[\"x\",\"y\"]"));
    let w = note_edits(None, Some("body".to_string()), None);
    assert_eq!(w.len(), 1);
    assert!(matches!(&w[0], NoteColumn::Content(c) if c == "body"));
    assert!(note_edits(None, None, None).is_empty());
}

#[test]
fn status_filter_ignores_case() {
    assert!(status_matches(Status::Done, "done"));
    assert!(status_matches(Status::InProgress, "IN PROGRESS"));
    assert!(!status_matches(Status::Todo, "done"));
}

#[test]
fn tags_join_with_comma() {
    assert_eq!(join_tags(&Vec::new()), "");
    assert_eq!(join_tags(&vec!["one".to_string()]), "one");
    assert_eq!(join_tags(&vec!["a".to_string(), "b".to_string(), "c".to_string()]), "a, b, c");
}

#[test]
fn long_content_is_cut_in_listing() {
    let mk = |c: Option<&str>| {
        Note::create("n".to_string(), c.map(|s| s.to_string()), "/p".to_string(), now(), Vec::new())
    };
    assert_eq!(mk(None).preview(), "");
    assert_eq!(mk(Some("short")).preview(), "short");
    let thirty = "a".repeat(30);
    assert_eq!(mk(Some(&thirty)).preview(), thirty);
    let long = "abcdefghijklmnopqrstuvwxyz0123456789";
    assert_eq!(mk(Some(long)).preview(), "abcdefghijklmnopqrstuvwxyz0...");
}

#[test]
fn due_dates_read_from_english() {
    let base = ts("2018-03-21T11:00:00+00:00");
    assert!(matches!(due_from_text(None, &base), Ok(None)));
    let friday = due_from_text(Some("friday"), &base).ok().flatten().expect("friday");
    assert_eq!(friday.as_str(), "2018-03-23T00:00:00+00:00");
    let evening = due_from_text(Some("friday 8pm"), &base).ok().flatten().expect("friday 8pm");
    assert_eq!(evening.as_str(), "2018-03-23T20:00:00+00:00");
    assert!(matches!(due_from_text(Some("not a date at all"), &base), Err(DueDateError::Unreadable)));
}

#[test]
fn parsed_due_dates_are_checked() {
    assert!(matches!(due_from_parsed(None), Err(DueDateError::Unreadable)));
    assert!(matches!(due_from_parsed(Some("soon".to_string())), Err(DueDateError::Unreadable)));
    let t = due_from_parsed(Some("2024-02-29T12:00:00-05:00".to_string())).ok().expect("valid");
    assert_eq!(t.as_str(), "2024-02-29T12:00:00-05:00");
}

#[test]
fn empty_tags_column_reads_as_no_tags() {
    let mut row = task_row(1, "t", Some("/p"));
    row.fields.tags = None;
    let listed = select_tasks(&vec![row], Some("/p"), &now());
    assert_eq!(listed.len(), 1);
    assert!(listed[0].tags.is_empty());
    let n = Note::create("n".to_string(), None, "/p".to_string(), now(), vec!["x".to_string()]);
    let mut fields = n.to_fields();
    fields.tags = None;
    let shown = find_note(&vec![NoteRow { id: 4, fields }], 4, &now()).ok().expect("note 4");
    assert!(shown.tags.is_empty());
    assert_eq!(shown.tags_text(), "");
}

#[test]
fn tags_with_special_characters_round_trip() {
    let tags = vec!["quote \"x\"".to_string(), "back\\slash".to_string(), "tab\tnew\nline".to_string(), "\u{e9}t\u{e9}".to_string()];
    let n = Note::create("n".to_string(), None, "/p".to_string(), now(), tags.clone());
    let back = Note::from_row(&NoteRow { id: 1, fields: n.to_fields() }, &now());
    assert_eq!(back.tags, tags);
}

#[test]
fn in_progress_task_round_trips() {
    let mut t = Task::create("t".to_string(), Priority::Low, None, "/p".to_string(), now());
    t.status = Status::InProgress;
    let back = Task::from_row(&TaskRow { id: 2, fields: t.to_fields() }, &now());
    assert_eq!(back.status, Status::InProgress);
    assert_eq!(back.priority, Priority::Low);
}

#[test]
fn due_text_outside_parser_reach_is_refused() {
    let base = ts("2018-03-21T11:00:00+00:00");
    assert!(matches!(due_from_text(Some("2 \u{e9}"), &base), Err(DueDateError::Unreadable)));
    assert!(matches!(due_from_text(Some("\u{e9}\u{e9}"), &base), Err(DueDateError::Unreadable)));
    assert!(matches!(due_from_text(Some("in 2147483648 days"), &base), Err(DueDateError::Unreadable)));
    assert!(check_date_text("in 999999 days"));
    assert!(!check_date_text("in 1000000 days"));
    assert!(check_date_text(""));
}
