use vstd::prelude::*;
use vstd::string::{StrSliceExecFns, StringExecFns};

use crate::models::{Priority, Status};

verus! {

/// Whether `s` is a date and time in RFC 3339 form, as chrono reads it.
pub uninterp spec fn is_rfc3339(s: Seq<char>) -> bool;

/// Relies on `chrono::DateTime::parse_from_rfc3339`: whether it accepts `s`.
#[verifier::external_body]
fn rfc3339_valid(s: &str) -> (r: bool)
    ensures
        r == is_rfc3339(s@),
{
    chrono::DateTime::parse_from_rfc3339(s).is_ok()
}

/// The JSON text that serde_json writes for a list of strings.
pub uninterp spec fn json_of_tags(tags: Seq<Seq<char>>) -> Seq<char>;

/// The list of strings that serde_json reads from `s`, if `s` is a JSON array of strings.
pub uninterp spec fn tags_of_json(s: Seq<char>) -> Option<Seq<Seq<char>>>;

/// The characters of each string of a list.
pub open spec fn tags_view(tags: Seq<String>) -> Seq<Seq<char>> {
    tags.map_values(|t: String| t@)
}

/// The characters of an optional string.
pub open spec fn opt_view(o: Option<String>) -> Option<Seq<char>> {
    match o {
        Some(s) => Some(s@),
        None => None,
    }
}

/// Relies on `serde_json::to_string` on a `Vec<String>`, which writes a JSON array
/// of strings; it fails only on maps with non-string keys or on a failing
/// `Serialize` impl, and a list of strings has neither. Each string is written
/// with its quotes, backslashes and control characters escaped, so that
/// serde_json reads the same list back from the text.
#[verifier::external_body]
pub(crate) fn encode_tags(tags: &Vec<String>) -> (r: String)
    ensures
        r@ == json_of_tags(tags_view(tags@)),
        tags_of_json(r@) == Some(tags_view(tags@)),
{
    serde_json::to_string(tags).unwrap_or_default()
}

/// Relies on `serde_json::from_str::<Vec<String>>`: the strings of a JSON array of
/// strings, or nothing where `s` is not one.
#[verifier::external_body]
fn parse_tags(s: &str) -> (r: Option<Vec<String>>)
    ensures
        match r {
            Some(v) => tags_of_json(s@) == Some(tags_view(v@)),
            None => tags_of_json(s@) is None,
        },
{
    serde_json::from_str::<Vec<String>>(s).ok()
}

/// A date and time, held as its RFC 3339 text.
pub struct Timestamp {
    text: String,
}

impl View for Timestamp {
    type V = Seq<char>;

    closed spec fn view(&self) -> Seq<char> {
        self.text@
    }
}

impl Timestamp {
    #[verifier::type_invariant]
    spec fn inv(self) -> bool {
        is_rfc3339(self.text@)
    }

    /// Every date and time held here is in RFC 3339 form.
    pub fn well_formed(&self)
        ensures
            is_rfc3339(self@),
    {
        proof {
            use_type_invariant(self);
        }
    }

    /// Reads a date and time in RFC 3339 form; anything else gives `None`.
    pub fn parse(s: &str) -> (r: Option<Timestamp>)
        ensures
            r is Some <==> is_rfc3339(s@),
            r matches Some(t) ==> t@ == s@,
    {
        if rfc3339_valid(s) {
            Some(Timestamp { text: s.to_owned() })
        } else {
            None
        }
    }

    /// The RFC 3339 text of this date and time.
    pub fn as_str(&self) -> (r: &str)
        ensures
            r@ == self@,
    {
        self.text.as_str()
    }

    /// A copy of this date and time.
    pub fn copy(&self) -> (r: Timestamp)
        ensures
            r@ == self@,
    {
        proof {
            use_type_invariant(self);
        }
        Timestamp { text: self.text.clone() }
    }
}

/// The date and time, in RFC 3339 form, that the English text `text` names
/// relative to `now`, as chrono_english reads it in its US dialect.
pub uninterp spec fn english_date(text: Seq<char>, now: Seq<char>) -> Option<Seq<char>>;

/// Whether `c` is an ASCII digit.
pub open spec fn is_digit(c: char) -> bool {
    '0' <= c && c <= '9'
}

/// The number of digits that stand in `s` right before position `i`.
pub open spec fn digits_before(s: Seq<char>, i: int) -> nat
    decreases i,
{
    if i <= 0 || i > s.len() {
        0
    } else if is_digit(s[i - 1]) {
        digits_before(s, i - 1) + 1
    } else {
        0
    }
}

/// Text that the English date parser can take: ASCII, with no run of more than
/// six digits. The parser cuts words by bytes, which fails inside a non-ASCII
/// letter, and its arithmetic on longer numbers can overflow.
pub open spec fn date_text_ok(s: Seq<char>) -> bool {
    &&& crate::models::all_ascii(s)
    &&& forall|i: int| 0 <= i <= s.len() ==> #[trigger] digits_before(s, i) <= 6
}

/// Whether `s` is text that the English date parser can take.
pub fn check_date_text(s: &str) -> (r: bool)
    ensures
        r == date_text_ok(s@),
{
    let n = s.unicode_len();
    let mut run: usize = 0;
    let mut i: usize = 0;
    while i < n
        invariant
            n == s@.len(),
            i <= n,
            run == digits_before(s@, i as int),
            run <= 6,
            crate::models::all_ascii(s@.subrange(0, i as int)),
            forall|k: int| 0 <= k <= i ==> #[trigger] digits_before(s@, k) <= 6,
        decreases n - i,
    {
        let c = s.get_char(i);
        if (c as u32) >= 128 {
            assert(!crate::models::all_ascii(s@)) by {
                assert((s@[i as int] as u32) >= 128);
            }
            return false;
        }
        if '0' <= c && c <= '9' {
            if run == 6 {
                assert(digits_before(s@, i + 1) == 7);
                return false;
            }
            run = run + 1;
        } else {
            run = 0;
        }
        proof {
            let pre = s@.subrange(0, i as int);
            let cur = s@.subrange(0, i + 1);
            assert forall|j: int| 0 <= j < cur.len() implies (#[trigger] cur[j] as u32) < 128 by {
                if j < i {
                    assert(cur[j] == pre[j]);
                }
            }
        }
        i = i + 1;
    }
    assert(s@.subrange(0, i as int) =~= s@);
    true
}

/// Relies on `chrono_english::parse_date_string` with `Dialect::Us`: the date
/// and time that `text` names relative to `now`, kept in the offset of `now`
/// and written by chrono's `to_rfc3339`; nothing where the text names none.
/// The result depends on `text` and `now` alone. The parser slices words by
/// byte, which panics inside a non-ASCII letter, and its arithmetic can overflow
/// on long numbers: `requires` keeps to ASCII text with digit runs of at most six.
#[verifier::external_body]
fn english_date_text(text: &str, now: &Timestamp) -> (r: Option<String>)
    requires
        date_text_ok(text@),
    ensures
        opt_view(r) == english_date(text@, now@),
{
    let base = chrono::DateTime::parse_from_rfc3339(&now.text).ok()?;
    chrono_english::parse_date_string(text, base, chrono_english::Dialect::Us).ok().map(
        |d| d.to_rfc3339(),
    )
}

/// Why the text of a due date was refused.
#[derive(Debug, Clone, Copy, PartialEq, Eq, Structural)]
pub enum DueDateError {
    /// The text names no date and time.
    Unreadable,
}

/// The due date that a date parser gave, checked: `parsed` must be RFC 3339 text.
pub fn due_from_parsed(parsed: Option<String>) -> (r: Result<Timestamp, DueDateError>)
    ensures
        r is Ok <==> (parsed matches Some(p) && is_rfc3339(p@)),
        r matches Ok(t) ==> parsed matches Some(p) && t@ == p@,
        r matches Err(e) ==> e == DueDateError::Unreadable,
{
    match parsed {
        Some(p) => match Timestamp::parse(p.as_str()) {
            Some(t) => Ok(t),
            None => Err(DueDateError::Unreadable),
        },
        None => Err(DueDateError::Unreadable),
    }
}

/// The due date of a new task from its optional English text, read relative to
/// `now`: none without text, an error where the text names no date or is text
/// that the parser cannot take.
pub fn due_from_text(due: Option<&str>, now: &Timestamp) -> (r: Result<Option<Timestamp>, DueDateError>)
    ensures
        due is None ==> r matches Ok(None),
        due matches Some(d) ==> (r is Ok <==> (date_text_ok(d@) && (english_date(d@, now@) matches Some(
            p) && is_rfc3339(p)))),
        due matches Some(d) ==> (r matches Ok(o) ==> o matches Some(t) && english_date(d@, now@) == Some(t@)),
        r matches Err(e) ==> e == DueDateError::Unreadable,
{
    match due {
        None => Ok(None),
        Some(d) => {
            if !check_date_text(d) {
                return Err(DueDateError::Unreadable);
            }
            match due_from_parsed(english_date_text(d, now)) {
                Ok(t) => Ok(Some(t)),
                Err(e) => Err(e),
            }
        },
    }
}

/// The characters of an optional date and time.
pub open spec fn opt_ts_view(o: Option<Timestamp>) -> Option<Seq<char>> {
    match o {
        Some(t) => Some(t@),
        None => None,
    }
}

/// The dates of `t` are in RFC 3339 form, as every `Timestamp` is.
pub open spec fn task_dates_wf(t: Task) -> bool {
    &&& is_rfc3339(t.created_at@)
    &&& (t.due_date matches Some(d) ==> is_rfc3339(d@))
}

/// A task; `id` is set once the store has kept it.
pub struct Task {
    pub id: Option<i64>,
    pub title: String,
    pub description: Option<String>,
    pub status: Status,
    pub priority: Priority,
    pub due_date: Option<Timestamp>,
    pub project_path: Option<String>,
    pub created_at: Timestamp,
    pub tags: Vec<String>,
}

/// A note; `id` is set once the store has kept it.
pub struct Note {
    pub id: Option<i64>,
    pub title: String,
    pub content: Option<String>,
    pub project_path: Option<String>,
    pub created_at: Timestamp,
    pub tags: Vec<String>,
}

/// The stored columns of a task other than its identifier, all as text.
pub struct TaskFields {
    pub title: String,
    pub description: Option<String>,
    pub status: String,
    pub priority: String,
    pub due_date: Option<String>,
    pub project_path: Option<String>,
    pub created_at: String,
    pub tags: Option<String>,
}

/// A stored task: its identifier and its columns.
pub struct TaskRow {
    pub id: i64,
    pub fields: TaskFields,
}

/// The stored columns of a note other than its identifier, all as text.
pub struct NoteFields {
    pub title: String,
    pub content: Option<String>,
    pub project_path: Option<String>,
    pub created_at: String,
    pub tags: Option<String>,
}

/// A stored note: its identifier and its columns.
pub struct NoteRow {
    pub id: i64,
    pub fields: NoteFields,
}

/// `f` holds the columns under which task `t` is stored.
pub open spec fn encodes_task(t: Task, f: TaskFields) -> bool {
    &&& f.title@ == t.title@
    &&& opt_view(f.description) == opt_view(t.description)
    &&& f.status@ == t.status.label()
    &&& f.priority@ == t.priority.label()
    &&& opt_view(f.due_date) == opt_ts_view(t.due_date)
    &&& opt_view(f.project_path) == opt_view(t.project_path)
    &&& f.created_at@ == t.created_at@
    &&& opt_view(f.tags) == Some(json_of_tags(tags_view(t.tags@)))
    &&& tags_of_text(opt_view(f.tags)) == tags_view(t.tags@)
}

/// `f` holds the columns under which note `n` is stored.
pub open spec fn encodes_note(n: Note, f: NoteFields) -> bool {
    &&& f.title@ == n.title@
    &&& opt_view(f.content) == opt_view(n.content)
    &&& opt_view(f.project_path) == opt_view(n.project_path)
    &&& f.created_at@ == n.created_at@
    &&& opt_view(f.tags) == Some(json_of_tags(tags_view(n.tags@)))
    &&& tags_of_text(opt_view(f.tags)) == tags_view(n.tags@)
}

/// A stored due date as read back: kept where it is RFC 3339, else dropped.
pub open spec fn due_of_text(d: Option<Seq<char>>) -> Option<Seq<char>> {
    match d {
        Some(s) => if is_rfc3339(s) { Some(s) } else { None },
        None => None,
    }
}

/// A stored creation time as read back: kept where it is RFC 3339, else `now`.
pub open spec fn created_of_text(c: Seq<char>, now: Seq<char>) -> Seq<char> {
    if is_rfc3339(c) { c } else { now }
}

/// Stored tags as read back: the list that the JSON text holds, else no tags;
/// an empty column holds no tags either.
pub open spec fn tags_of_text(c: Option<Seq<char>>) -> Seq<Seq<char>> {
    match c {
        Some(s) => match tags_of_json(s) {
            Some(v) => v,
            None => Seq::empty(),
        },
        None => Seq::empty(),
    }
}

/// `t` is the task read back from `row`, with `now` standing in for a creation
/// time that cannot be read.
pub open spec fn decodes_task(row: TaskRow, now: Seq<char>, t: Task) -> bool {
    &&& t.id == Some(row.id)
    &&& t.title@ == row.fields.title@
    &&& opt_view(t.description) == opt_view(row.fields.description)
    &&& t.status == crate::models::status_of_text(row.fields.status@)
    &&& t.priority == crate::models::priority_of_text(row.fields.priority@)
    &&& opt_ts_view(t.due_date) == due_of_text(opt_view(row.fields.due_date))
    &&& opt_view(t.project_path) == opt_view(row.fields.project_path)
    &&& t.created_at@ == created_of_text(row.fields.created_at@, now)
    &&& tags_view(t.tags@) == tags_of_text(opt_view(row.fields.tags))
}

/// `n` is the note read back from `row`, with `now` standing in for a creation
/// time that cannot be read.
pub open spec fn decodes_note(row: NoteRow, now: Seq<char>, n: Note) -> bool {
    &&& n.id == Some(row.id)
    &&& n.title@ == row.fields.title@
    &&& opt_view(n.content) == opt_view(row.fields.content)
    &&& opt_view(n.project_path) == opt_view(row.fields.project_path)
    &&& n.created_at@ == created_of_text(row.fields.created_at@, now)
    &&& tags_view(n.tags@) == tags_of_text(opt_view(row.fields.tags))
}

/// A copy of an optional string.
fn copy_opt(o: &Option<String>) -> (r: Option<String>)
    ensures
        opt_view(r) == opt_view(*o),
{
    match o {
        Some(s) => Some(s.clone()),
        None => None,
    }
}

/// The stored due date read back: `None` where it is absent or not RFC 3339.
fn read_due(d: &Option<String>) -> (r: Option<Timestamp>)
    ensures
        opt_ts_view(r) == due_of_text(opt_view(*d)),
{
    match d {
        Some(s) => Timestamp::parse(s.as_str()),
        None => None,
    }
}

/// The stored creation time read back: `now` where it is not RFC 3339.
fn read_created(c: &String, now: &Timestamp) -> (r: Timestamp)
    ensures
        r@ == created_of_text(c@, now@),
{
    match Timestamp::parse(c.as_str()) {
        Some(t) => t,
        None => now.copy(),
    }
}

/// The stored tags read back: no tags where the column is empty or its text is
/// not a JSON list of strings.
fn read_tags(c: &Option<String>) -> (r: Vec<String>)
    ensures
        tags_view(r@) == tags_of_text(opt_view(*c)),
{
    let parsed = match c {
        Some(s) => parse_tags(s.as_str()),
        None => None,
    };
    match parsed {
        Some(v) => v,
        None => {
            let e: Vec<String> = Vec::new();
            assert(tags_view(e@) =~= Seq::<Seq<char>>::empty());
            e
        },
    }
}

/// The texts of `tags` joined, each pair separated by a comma and a space.
pub open spec fn joined(tags: Seq<Seq<char>>) -> Seq<char>
    decreases tags.len(),
{
    if tags.len() == 0 {
        Seq::empty()
    } else if tags.len() == 1 {
        tags[0]
    } else {
        joined(tags.drop_last()) + ", "@ + tags.last()
    }
}

/// The tags of a record joined by a comma and a space, as they are shown.
pub fn join_tags(tags: &Vec<String>) -> (r: String)
    ensures
        r@ == joined(tags_view(tags@)),
{
    let mut r = String::new();
    let mut i: usize = 0;
    while i < tags.len()
        invariant
            i <= tags.len(),
            r@ == joined(tags_view(tags@.subrange(0, i as int))),
        decreases tags.len() - i,
    {
        proof {
            let pre = tags_view(tags@.subrange(0, i as int));
            let cur = tags_view(tags@.subrange(0, i + 1));
            assert(cur.drop_last() =~= pre);
            assert(cur.last() == tags@[i as int]@);
        }
        if i > 0 {
            r.append(", ");
        }
        r.append(tags[i].as_str());
        i = i + 1;
    }
    assert(tags@.subrange(0, i as int) =~= tags@);
    r
}

/// A content as listed: longer than thirty characters, it is cut to its first
/// twenty-seven and followed by three dots.
pub open spec fn preview_of(c: Seq<char>) -> Seq<char> {
    if c.len() > 30 {
        c.subrange(0, 27) + "..."@
    } else {
        c
    }
}

impl Task {
    /// A new task of scope `project_path`, made at `created_at`: not yet stored,
    /// with status `Todo`, no description and no tags.
    pub fn create(
        title: String,
        priority: Priority,
        due_date: Option<Timestamp>,
        project_path: String,
        created_at: Timestamp,
    ) -> (r: Task)
        ensures
            r.id is None,
            r.title@ == title@,
            r.description is None,
            r.status == Status::Todo,
            r.priority == priority,
            opt_ts_view(r.due_date) == opt_ts_view(due_date),
            opt_view(r.project_path) == Some(project_path@),
            r.created_at@ == created_at@,
            r.tags@.len() == 0,
    {
        Task {
            id: None,
            title,
            description: None,
            status: Status::Todo,
            priority,
            due_date,
            project_path: Some(project_path),
            created_at,
            tags: Vec::new(),
        }
    }

    /// Encodes a task for the store, writing its tags as a JSON array.
    pub fn to_fields(&self) -> (r: TaskFields)
        ensures
            encodes_task(*self, r),
    {
        TaskFields {
            title: self.title.clone(),
            description: copy_opt(&self.description),
            status: self.status.to_string(),
            priority: self.priority.to_string(),
            due_date: match &self.due_date {
                Some(d) => Some(d.as_str().to_owned()),
                None => None,
            },
            project_path: copy_opt(&self.project_path),
            created_at: self.created_at.as_str().to_owned(),
            tags: Some(encode_tags(&self.tags)),
        }
    }

    /// Reads a task back from its stored row. Unknown status or priority text
    /// reads as `Todo` or `Medium`, an unreadable due date as none, an
    /// unreadable creation time as `now`, and unreadable tags as no tags.
    pub fn from_row(row: &TaskRow, now: &Timestamp) -> (r: Task)
        ensures
            decodes_task(*row, now@, r),
    {
        Task {
            id: Some(row.id),
            title: row.fields.title.clone(),
            description: copy_opt(&row.fields.description),
            status: Status::from_text(row.fields.status.as_str()),
            priority: Priority::from_text(row.fields.priority.as_str()),
            due_date: read_due(&row.fields.due_date),
            project_path: copy_opt(&row.fields.project_path),
            created_at: read_created(&row.fields.created_at, now),
            tags: read_tags(&row.fields.tags),
        }
    }
}

impl Note {
    /// A new note of scope `project_path`, made at `created_at`, not yet stored.
    pub fn create(
        title: String,
        content: Option<String>,
        project_path: String,
        created_at: Timestamp,
        tags: Vec<String>,
    ) -> (r: Note)
        ensures
            r.id is None,
            r.title@ == title@,
            opt_view(r.content) == opt_view(content),
            opt_view(r.project_path) == Some(project_path@),
            r.created_at@ == created_at@,
            r.tags@ == tags@,
    {
        Note { id: None, title, content, project_path: Some(project_path), created_at, tags }
    }

    /// The content as shown: empty where the note has none.
    pub fn content_text(&self) -> (r: String)
        ensures
            r@ == (match self.content {
                Some(c) => c@,
                None => Seq::empty(),
            }),
    {
        match &self.content {
            Some(c) => c.clone(),
            None => String::new(),
        }
    }

    /// The content as listed: up to thirty characters as they are, a longer
    /// content cut to its first twenty-seven characters and three dots.
    pub fn preview(&self) -> (r: String)
        ensures
            r@ == preview_of(
                match self.content {
                    Some(c) => c@,
                    None => Seq::empty(),
                },
            ),
    {
        let text = self.content_text();
        if text.as_str().unicode_len() > 30 {
            let mut cut = text.as_str().substring_char(0, 27).to_owned();
            cut.append("...");
            cut
        } else {
            text
        }
    }

    /// The tags as shown: joined by a comma and a space.
    pub fn tags_text(&self) -> (r: String)
        ensures
            r@ == joined(tags_view(self.tags@)),
    {
        join_tags(&self.tags)
    }

    /// The stored columns of this note; the tags become a JSON array.
    pub fn to_fields(&self) -> (r: NoteFields)
        ensures
            encodes_note(*self, r),
    {
        NoteFields {
            title: self.title.clone(),
            content: copy_opt(&self.content),
            project_path: copy_opt(&self.project_path),
            created_at: self.created_at.as_str().to_owned(),
            tags: Some(encode_tags(&self.tags)),
        }
    }

    /// Reads a note back from its stored row. An unreadable creation time reads
    /// as `now`, and unreadable tags as no tags.
    pub fn from_row(row: &NoteRow, now: &Timestamp) -> (r: Note)
        ensures
            decodes_note(*row, now@, r),
    {
        Note {
            id: Some(row.id),
            title: row.fields.title.clone(),
            content: copy_opt(&row.fields.content),
            project_path: copy_opt(&row.fields.project_path),
            created_at: read_created(&row.fields.created_at, now),
            tags: read_tags(&row.fields.tags),
        }
    }
}

} // verus!
