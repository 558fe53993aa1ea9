//! The enumerated columns of the schema: which texts the store accepts in
//! them, and which one it fills in where none is given.

use crate::text::same_text;
use vstd::prelude::*;

verus! {

/// The kind of a board.
#[derive(Clone, Copy, Debug, PartialEq, Eq, Structural)]
pub enum BoardType {
    Kanban,
    Scrum,
    Scrumban,
}

/// Who may see a board.
#[derive(Clone, Copy, Debug, PartialEq, Eq, Structural)]
pub enum Visibility {
    Private,
    Public,
    Team,
}

/// How urgent a task is.
#[derive(Clone, Copy, Debug, PartialEq, Eq, Structural)]
pub enum Priority {
    Low,
    Medium,
    High,
    Urgent,
}

/// Where a task stands.
#[derive(Clone, Copy, Debug, PartialEq, Eq, Structural)]
pub enum Status {
    Todo,
    InProgress,
    Done,
    Blocked,
    Archived,
}

impl BoardType {
    /// The text that the store holds for this kind.
    pub open spec fn text(self) -> Seq<char> {
        match self {
            BoardType::Kanban => "kanban"@,
            BoardType::Scrum => "scrum"@,
            BoardType::Scrumban => "scrumban"@,
        }
    }

    /// The texts that the store accepts as a board's kind.
    pub open spec fn legal_texts() -> Set<Seq<char>> {
        set!["kanban"@, "scrum"@, "scrumban"@]
    }

    /// The legal texts are the texts of the kind values, and no others.
    pub proof fn lemma_legal_texts(text: Seq<char>)
        ensures
            Self::legal_texts().contains(text) <==> exists|value: BoardType| value.text() == text,
    {
        if BoardType::Kanban.text() == text {
            assert(exists|value: BoardType| value.text() == text);
        }
        if BoardType::Scrum.text() == text {
            assert(exists|value: BoardType| value.text() == text);
        }
        if BoardType::Scrumban.text() == text {
            assert(exists|value: BoardType| value.text() == text);
        }
    }

    /// Different kinds have different texts.
    pub proof fn lemma_text_identifies(a: BoardType, b: BoardType)
        requires
            a.text() == b.text(),
        ensures
            a == b,
    {
        reveal_strlit("kanban");
        reveal_strlit("scrum");
        reveal_strlit("scrumban");
        assert("kanban"@.len() == 6 && "scrum"@.len() == 5 && "scrumban"@.len() == 8);
    }

    /// The text that the store holds for this value.
    pub fn as_text(self) -> (text: &'static str)
        ensures
            text@ == self.text(),
    {
        match self {
            BoardType::Kanban => "kanban",
            BoardType::Scrum => "scrum",
            BoardType::Scrumban => "scrumban",
        }
    }

    /// The kind that `text` names; none where the store would refuse it.
    pub fn from_text(text: &str) -> (parsed: Option<BoardType>)
        ensures
            parsed is Some <==> Self::legal_texts().contains(text@),
            parsed matches Some(kind) ==> kind.text() == text@,
    {
        if same_text(text, "kanban") {
            Some(BoardType::Kanban)
        } else if same_text(text, "scrum") {
            Some(BoardType::Scrum)
        } else if same_text(text, "scrumban") {
            Some(BoardType::Scrumban)
        } else {
            None
        }
    }
}

impl Default for BoardType {
    /// The kind that the store gives a board for which none is named.
    fn default() -> (kind: BoardType)
        ensures
            kind == BoardType::Kanban,
    {
        BoardType::Kanban
    }
}

impl Visibility {
    /// The text that the store holds for this visibility.
    pub open spec fn text(self) -> Seq<char> {
        match self {
            Visibility::Private => "private"@,
            Visibility::Public => "public"@,
            Visibility::Team => "team"@,
        }
    }

    /// The texts that the store accepts as a board's visibility.
    pub open spec fn legal_texts() -> Set<Seq<char>> {
        set!["private"@, "public"@, "team"@]
    }

    /// The legal texts are the texts of the visibility values, and no others.
    pub proof fn lemma_legal_texts(text: Seq<char>)
        ensures
            Self::legal_texts().contains(text) <==> exists|value: Visibility| value.text() == text,
    {
        if Visibility::Private.text() == text {
            assert(exists|value: Visibility| value.text() == text);
        }
        if Visibility::Public.text() == text {
            assert(exists|value: Visibility| value.text() == text);
        }
        if Visibility::Team.text() == text {
            assert(exists|value: Visibility| value.text() == text);
        }
    }

    /// Different visibilities have different texts.
    pub proof fn lemma_text_identifies(a: Visibility, b: Visibility)
        requires
            a.text() == b.text(),
        ensures
            a == b,
    {
        reveal_strlit("private");
        reveal_strlit("public");
        reveal_strlit("team");
        assert("private"@.len() == 7 && "public"@.len() == 6 && "team"@.len() == 4);
    }

    /// The text that the store holds for this value.
    pub fn as_text(self) -> (text: &'static str)
        ensures
            text@ == self.text(),
    {
        match self {
            Visibility::Private => "private",
            Visibility::Public => "public",
            Visibility::Team => "team",
        }
    }

    /// The visibility that `text` names; none where the store would refuse
    /// it.
    pub fn from_text(text: &str) -> (parsed: Option<Visibility>)
        ensures
            parsed is Some <==> Self::legal_texts().contains(text@),
            parsed matches Some(visibility) ==> visibility.text() == text@,
    {
        if same_text(text, "private") {
            Some(Visibility::Private)
        } else if same_text(text, "public") {
            Some(Visibility::Public)
        } else if same_text(text, "team") {
            Some(Visibility::Team)
        } else {
            None
        }
    }
}

impl Default for Visibility {
    /// The visibility that the store gives a board for which none is named.
    fn default() -> (visibility: Visibility)
        ensures
            visibility == Visibility::Private,
    {
        Visibility::Private
    }
}

impl Priority {
    /// The text that the store holds for this priority.
    pub open spec fn text(self) -> Seq<char> {
        match self {
            Priority::Low => "low"@,
            Priority::Medium => "medium"@,
            Priority::High => "high"@,
            Priority::Urgent => "urgent"@,
        }
    }

    /// The texts that the store accepts as a task's priority.
    pub open spec fn legal_texts() -> Set<Seq<char>> {
        set!["low"@, "medium"@, "high"@, "urgent"@]
    }

    /// The legal texts are the texts of the priority values, and no others.
    pub proof fn lemma_legal_texts(text: Seq<char>)
        ensures
            Self::legal_texts().contains(text) <==> exists|value: Priority| value.text() == text,
    {
        if Priority::Low.text() == text {
            assert(exists|value: Priority| value.text() == text);
        }
        if Priority::Medium.text() == text {
            assert(exists|value: Priority| value.text() == text);
        }
        if Priority::High.text() == text {
            assert(exists|value: Priority| value.text() == text);
        }
        if Priority::Urgent.text() == text {
            assert(exists|value: Priority| value.text() == text);
        }
    }

    /// Different priorities have different texts.
    pub proof fn lemma_text_identifies(a: Priority, b: Priority)
        requires
            a.text() == b.text(),
        ensures
            a == b,
    {
        reveal_strlit("low");
        reveal_strlit("medium");
        reveal_strlit("high");
        reveal_strlit("urgent");
        assert("low"@.len() == 3 && "high"@.len() == 4);
        assert("medium"@.len() == 6 && "medium"@[0] == 'm');
        assert("urgent"@.len() == 6 && "urgent"@[0] == 'u');
    }

    /// The text that the store holds for this value.
    pub fn as_text(self) -> (text: &'static str)
        ensures
            text@ == self.text(),
    {
        match self {
            Priority::Low => "low",
            Priority::Medium => "medium",
            Priority::High => "high",
            Priority::Urgent => "urgent",
        }
    }

    /// The priority that `text` names; none where the store would refuse
    /// it.
    pub fn from_text(text: &str) -> (parsed: Option<Priority>)
        ensures
            parsed is Some <==> Self::legal_texts().contains(text@),
            parsed matches Some(priority) ==> priority.text() == text@,
    {
        if same_text(text, "low") {
            Some(Priority::Low)
        } else if same_text(text, "medium") {
            Some(Priority::Medium)
        } else if same_text(text, "high") {
            Some(Priority::High)
        } else if same_text(text, "urgent") {
            Some(Priority::Urgent)
        } else {
            None
        }
    }
}

impl Default for Priority {
    /// The priority that the store gives a task for which none is named.
    fn default() -> (priority: Priority)
        ensures
            priority == Priority::Medium,
    {
        Priority::Medium
    }
}

impl Status {
    /// The text that the store holds for this status.
    pub open spec fn text(self) -> Seq<char> {
        match self {
            Status::Todo => "todo"@,
            Status::InProgress => "in_progress"@,
            Status::Done => "done"@,
            Status::Blocked => "blocked"@,
            Status::Archived => "archived"@,
        }
    }

    /// The texts that the store accepts as a task's status.
    pub open spec fn legal_texts() -> Set<Seq<char>> {
        set!["todo"@, "in_progress"@, "done"@, "blocked"@, "archived"@]
    }

    /// The legal texts are the texts of the status values, and no others.
    pub proof fn lemma_legal_texts(text: Seq<char>)
        ensures
            Self::legal_texts().contains(text) <==> exists|value: Status| value.text() == text,
    {
        if Status::Todo.text() == text {
            assert(exists|value: Status| value.text() == text);
        }
        if Status::InProgress.text() == text {
            assert(exists|value: Status| value.text() == text);
        }
        if Status::Done.text() == text {
            assert(exists|value: Status| value.text() == text);
        }
        if Status::Blocked.text() == text {
            assert(exists|value: Status| value.text() == text);
        }
        if Status::Archived.text() == text {
            assert(exists|value: Status| value.text() == text);
        }
    }

    /// Different statuses have different texts.
    pub proof fn lemma_text_identifies(a: Status, b: Status)
        requires
            a.text() == b.text(),
        ensures
            a == b,
    {
        reveal_strlit("todo");
        reveal_strlit("in_progress");
        reveal_strlit("done");
        reveal_strlit("blocked");
        reveal_strlit("archived");
        assert("todo"@.len() == 4 && "todo"@[0] == 't');
        assert("done"@.len() == 4 && "done"@[0] == 'd');
        assert("in_progress"@.len() == 11 && "blocked"@.len() == 7 && "archived"@.len() == 8);
    }

    /// The text that the store holds for this value.
    pub fn as_text(self) -> (text: &'static str)
        ensures
            text@ == self.text(),
    {
        match self {
            Status::Todo => "todo",
            Status::InProgress => "in_progress",
            Status::Done => "done",
            Status::Blocked => "blocked",
            Status::Archived => "archived",
        }
    }

    /// The status that `text` names; none where the store would refuse it.
    pub fn from_text(text: &str) -> (parsed: Option<Status>)
        ensures
            parsed is Some <==> Self::legal_texts().contains(text@),
            parsed matches Some(status) ==> status.text() == text@,
    {
        if same_text(text, "todo") {
            Some(Status::Todo)
        } else if same_text(text, "in_progress") {
            Some(Status::InProgress)
        } else if same_text(text, "done") {
            Some(Status::Done)
        } else if same_text(text, "blocked") {
            Some(Status::Blocked)
        } else if same_text(text, "archived") {
            Some(Status::Archived)
        } else {
            None
        }
    }
}

impl Default for Status {
    /// The status that the store gives a task for which none is named.
    fn default() -> (status: Status)
        ensures
            status == Status::Todo,
    {
        Status::Todo
    }
}

} // verus!
