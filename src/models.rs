use vstd::prelude::*;
use vstd::string::StringExecFns;

verus! {

/// The spelling of `s` in lower case, as `str::to_lowercase` gives it.
pub uninterp spec fn lower_of(s: Seq<char>) -> Seq<char>;

/// Whether every character of `s` is ASCII.
pub open spec fn all_ascii(s: Seq<char>) -> bool {
    forall|i: int| 0 <= i < s.len() ==> (#[trigger] s[i] as u32) < 128
}

/// An ASCII upper-case letter in lower case; any other character as it is.
pub open spec fn ascii_lower_char(c: char) -> char {
    if 'A' <= c && c <= 'Z' {
        ((c as u32) + 32) as char
    } else {
        c
    }
}

/// The lower-case spelling of `s`: letter by letter where `s` is ASCII.
pub open spec fn lower_text(s: Seq<char>) -> Seq<char> {
    if all_ascii(s) {
        s.map_values(|c: char| ascii_lower_char(c))
    } else {
        lower_of(s)
    }
}

/// Relies on `str::to_lowercase`: the result depends on the characters alone,
/// and on ASCII text it lowers the letters `A` to `Z` and keeps every other
/// character.
#[verifier::external_body]
pub(crate) fn lowercase(s: &str) -> (r: String)
    ensures
        all_ascii(s@) ==> r@ == s@.map_values(|c: char| ascii_lower_char(c)),
        !all_ascii(s@) ==> r@ == lower_of(s@),
{
    s.to_lowercase()
}

/// Progress of a task.
#[derive(Debug, Clone, Copy, PartialEq, Eq, Structural)]
pub enum Status {
    Todo,
    InProgress,
    Done,
}

/// The status that the lower-case text `t` names; unknown text is `Todo`.
pub open spec fn status_of_lower(t: Seq<char>) -> Status {
    if t == "todo"@ {
        Status::Todo
    } else if t == "inprogress"@ || t == "in progress"@ || t == "in-progress"@ || t == "doing"@ {
        Status::InProgress
    } else if t == "done"@ || t == "completed"@ {
        Status::Done
    } else {
        Status::Todo
    }
}

/// Reading back the stored name of a status gives that status.
pub proof fn lemma_status_label_round_trip(s: Status)
    ensures
        status_of_text(s.label()) == s,
{
    reveal_strlit("Todo");
    reveal_strlit("In Progress");
    reveal_strlit("Done");
    reveal_strlit("todo");
    reveal_strlit("inprogress");
    reveal_strlit("in progress");
    reveal_strlit("in-progress");
    reveal_strlit("doing");
    reveal_strlit("done");
    reveal_strlit("completed");
    let l = s.label();
    assert(all_ascii(l));
    match s {
        Status::Todo => {
            assert(lower_text(l) =~= "todo"@);
            assert(status_of_lower("todo"@) == Status::Todo);
        },
        Status::InProgress => {
            assert(lower_text(l) =~= "in progress"@);
            assert(status_of_lower("in progress"@) == Status::InProgress);
        },
        Status::Done => {
            assert(lower_text(l) =~= "done"@);
            assert("done"@ != "todo"@) by {
                assert("done"@[0] != "todo"@[0]);
            }
            assert(status_of_lower("done"@) == Status::Done);
        },
    }
}

/// The status that the text `s` names, letter case aside.
pub open spec fn status_of_text(s: Seq<char>) -> Status {
    status_of_lower(lower_text(s))
}

impl Status {
    /// The name under which a status is shown and stored.
    pub open spec fn label(self) -> Seq<char> {
        match self {
            Status::Todo => "Todo"@,
            Status::InProgress => "In Progress"@,
            Status::Done => "Done"@,
        }
    }

    /// The name under which this status is shown and stored.
    pub fn to_string(&self) -> (r: String)
        ensures
            r@ == self.label(),
    {
        match self {
            Status::Todo => String::from_str("Todo"),
            Status::InProgress => String::from_str("In Progress"),
            Status::Done => String::from_str("Done"),
        }
    }

    /// Reads a status from text of any letter case; unknown text reads as `Todo`.
    pub fn from_text(s: &str) -> (r: Status)
        ensures
            r == status_of_text(s@),
    {
        let t = lowercase(s);
        if t == String::from_str("todo") {
            Status::Todo
        } else if t == String::from_str("inprogress") || t == String::from_str("in progress")
            || t == String::from_str("in-progress")
            || t == String::from_str("doing") {
            Status::InProgress
        } else if t == String::from_str("done") || t == String::from_str("completed") {
            Status::Done
        } else {
            Status::Todo
        }
    }
}

impl From<String> for Status {
    fn from(s: String) -> (r: Status) {
        Status::from_text(s.as_str())
    }
}

impl vstd::std_specs::convert::FromSpecImpl<String> for Status {
    open spec fn obeys_from_spec() -> bool {
        true
    }

    open spec fn from_spec(s: String) -> Status {
        status_of_text(s@)
    }
}

/// Urgency of a task, ordered from `Low` to `Critical`.
#[derive(Debug, Clone, Copy, PartialEq, Eq, Structural, PartialOrd, Ord)]
pub enum Priority {
    Low,
    Medium,
    High,
    Critical,
}

/// The priority that the lower-case text `t` names; unknown text is `Medium`.
pub open spec fn priority_of_lower(t: Seq<char>) -> Priority {
    if t == "low"@ {
        Priority::Low
    } else if t == "medium"@ {
        Priority::Medium
    } else if t == "high"@ {
        Priority::High
    } else if t == "critical"@ {
        Priority::Critical
    } else {
        Priority::Medium
    }
}

/// Reading back the stored name of a priority gives that priority.
pub proof fn lemma_priority_label_round_trip(p: Priority)
    ensures
        priority_of_text(p.label()) == p,
{
    reveal_strlit("Low");
    reveal_strlit("Medium");
    reveal_strlit("High");
    reveal_strlit("Critical");
    reveal_strlit("low");
    reveal_strlit("medium");
    reveal_strlit("high");
    reveal_strlit("critical");
    let l = p.label();
    assert(all_ascii(l));
    match p {
        Priority::Low => assert(lower_text(l) =~= "low"@),
        Priority::Medium => assert(lower_text(l) =~= "medium"@),
        Priority::High => assert(lower_text(l) =~= "high"@),
        Priority::Critical => assert(lower_text(l) =~= "critical"@),
    }
}

/// Stored text that names no status or priority, letter case aside, reads as
/// `Todo` and `Medium`.
pub proof fn lemma_unknown_text_reads_as_default(status_text: Seq<char>, priority_text: Seq<char>)
    requires
        !(lower_text(status_text) == "todo"@ || lower_text(status_text) == "inprogress"@
            || lower_text(status_text) == "in progress"@
            || lower_text(status_text) == "in-progress"@ || lower_text(status_text) == "doing"@
            || lower_text(status_text) == "done"@ || lower_text(status_text) == "completed"@),
        !(lower_text(priority_text) == "low"@ || lower_text(priority_text) == "medium"@
            || lower_text(priority_text) == "high"@ || lower_text(priority_text) == "critical"@),
    ensures
        status_of_text(status_text) == Status::Todo,
        priority_of_text(priority_text) == Priority::Medium,
{
}

/// The priority that the text `s` names, letter case aside.
pub open spec fn priority_of_text(s: Seq<char>) -> Priority {
    priority_of_lower(lower_text(s))
}

impl Priority {
    /// The name under which a priority is shown and stored.
    pub open spec fn label(self) -> Seq<char> {
        match self {
            Priority::Low => "Low"@,
            Priority::Medium => "Medium"@,
            Priority::High => "High"@,
            Priority::Critical => "Critical"@,
        }
    }

    /// The name under which this priority is shown and stored.
    pub fn to_string(&self) -> (r: String)
        ensures
            r@ == self.label(),
    {
        match self {
            Priority::Low => String::from_str("Low"),
            Priority::Medium => String::from_str("Medium"),
            Priority::High => String::from_str("High"),
            Priority::Critical => String::from_str("Critical"),
        }
    }

    /// Reads a priority from text of any letter case; unknown text reads as `Medium`.
    pub fn from_text(s: &str) -> (r: Priority)
        ensures
            r == priority_of_text(s@),
    {
        let t = lowercase(s);
        if t == String::from_str("low") {
            Priority::Low
        } else if t == String::from_str("medium") {
            Priority::Medium
        } else if t == String::from_str("high") {
            Priority::High
        } else if t == String::from_str("critical") {
            Priority::Critical
        } else {
            Priority::Medium
        }
    }
}

impl From<String> for Priority {
    fn from(s: String) -> (r: Priority) {
        Priority::from_text(s.as_str())
    }
}

impl vstd::std_specs::convert::FromSpecImpl<String> for Priority {
    open spec fn obeys_from_spec() -> bool {
        true
    }

    open spec fn from_spec(s: String) -> Priority {
        priority_of_text(s@)
    }
}

} // verus!
