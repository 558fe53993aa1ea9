//! The rows that the command surface offers to the store, and the column
//! constraints that decide whether the store takes them.
//!
//! A value that is absent stands for a column left out of the insert. The
//! store fills such a column from its default, or with null where it has
//! none; a null never fails a check on an enumerated column, and always
//! fails a column that must not be null.

use crate::domain::{BoardType, Priority, Status, Visibility};
use vstd::prelude::*;

verus! {

/// A column that carries a constraint.
#[derive(Clone, Copy, Debug, PartialEq, Eq, Structural)]
pub enum Field {
    BoardName,
    BoardType,
    BoardVisibility,
    TaskTitle,
    TaskPriority,
    TaskStatus,
}

impl Field {
    /// The column's name, qualified by its table.
    pub open spec fn name(self) -> Seq<char> {
        match self {
            Field::BoardName => "boards.name"@,
            Field::BoardType => "boards.board_type"@,
            Field::BoardVisibility => "boards.visibility"@,
            Field::TaskTitle => "tasks.title"@,
            Field::TaskPriority => "tasks.priority"@,
            Field::TaskStatus => "tasks.status"@,
        }
    }

    /// The column's name, qualified by its table.
    pub fn qualified_name(self) -> (name: &'static str)
        ensures
            name@ == self.name(),
    {
        match self {
            Field::BoardName => "boards.name",
            Field::BoardType => "boards.board_type",
            Field::BoardVisibility => "boards.visibility",
            Field::TaskTitle => "tasks.title",
            Field::TaskPriority => "tasks.priority",
            Field::TaskStatus => "tasks.status",
        }
    }
}

/// The constraint on account of which the store refuses a row.
#[derive(Clone, Copy, Debug, PartialEq, Eq, Structural)]
pub enum ConstraintViolation {
    /// A column that must hold a value holds none.
    NotNull(Field),
    /// An enumerated column holds a text outside its enumeration.
    Check(Field),
}

/// A board as offered for insertion, column by column.
#[derive(Clone, Debug, Default, PartialEq, Eq)]
pub struct NewBoard {
    pub id: Option<i64>,
    pub user_id: Option<i64>,
    pub name: Option<String>,
    pub created_at: Option<String>,
    pub last_updated: Option<String>,
    pub description: Option<String>,
    pub owner_id: Option<i64>,
    pub is_archived: Option<bool>,
    pub visibility: Option<String>,
    pub background_color: Option<String>,
    pub board_type: Option<String>,
    pub due_date: Option<String>,
    pub labels_enabled: Option<bool>,
    pub default_user_roles: Option<String>,
}

/// A task as offered for insertion, column by column.
#[derive(Clone, Debug, Default, PartialEq, Eq)]
pub struct NewTask {
    pub id: Option<i64>,
    pub board_id: Option<i64>,
    pub title: Option<String>,
    pub description: Option<String>,
    pub assigned_to: Option<i64>,
    pub markdown_content: Option<String>,
    pub time_to_complete: Option<String>,
    pub created_at: Option<String>,
    pub last_updated: Option<String>,
    pub due_date: Option<String>,
    pub priority: Option<String>,
    pub status: Option<String>,
    pub labels: Option<String>,
    pub comments_enabled: Option<bool>,
    pub attachments: Option<String>,
    pub checklist: Option<String>,
    pub parent_task_id: Option<i64>,
    pub estimated_time: Option<i64>,
    pub actual_time: Option<i64>,
    pub order_num: Option<i64>,
    pub column_id: Option<i64>,
}

impl NewBoard {
    /// The row meets every column constraint of the boards table.
    pub open spec fn admissible(&self) -> bool {
        &&& self.name is Some
        &&& (self.board_type matches Some(kind) ==> BoardType::legal_texts().contains(kind@))
        &&& (self.visibility matches Some(visibility) ==> Visibility::legal_texts().contains(
            visibility@,
        ))
    }

    /// The constraint that the store reports for the row: the missing name,
    /// else the first failed check in the order in which the table declares
    /// its checks.
    pub open spec fn violation(&self) -> Option<ConstraintViolation> {
        if self.name is None {
            Some(ConstraintViolation::NotNull(Field::BoardName))
        } else if self.board_type is Some && !BoardType::legal_texts().contains(
            self.board_type->0@,
        ) {
            Some(ConstraintViolation::Check(Field::BoardType))
        } else if self.visibility is Some && !Visibility::legal_texts().contains(
            self.visibility->0@,
        ) {
            Some(ConstraintViolation::Check(Field::BoardVisibility))
        } else {
            None
        }
    }

    /// Decides whether the store takes the row, as far as its column
    /// constraints go.
    pub fn check(&self) -> (outcome: Result<(), ConstraintViolation>)
        ensures
            outcome is Ok <==> self.admissible(),
            outcome matches Err(violation) ==> self.violation() == Some(violation),
    {
        if self.name.is_none() {
            return Err(ConstraintViolation::NotNull(Field::BoardName));
        }
        if let Some(kind) = &self.board_type {
            if BoardType::from_text(kind.as_str()).is_none() {
                return Err(ConstraintViolation::Check(Field::BoardType));
            }
        }
        if let Some(visibility) = &self.visibility {
            if Visibility::from_text(visibility.as_str()).is_none() {
                return Err(ConstraintViolation::Check(Field::BoardVisibility));
            }
        }
        Ok(())
    }
}

impl NewTask {
    /// The row meets every column constraint of the tasks table.
    pub open spec fn admissible(&self) -> bool {
        &&& self.title is Some
        &&& (self.priority matches Some(priority) ==> Priority::legal_texts().contains(priority@))
        &&& (self.status matches Some(status) ==> Status::legal_texts().contains(status@))
    }

    /// The constraint that the store reports for the row: the missing title,
    /// else the first failed check in the order in which the table declares
    /// its checks.
    pub open spec fn violation(&self) -> Option<ConstraintViolation> {
        if self.title is None {
            Some(ConstraintViolation::NotNull(Field::TaskTitle))
        } else if self.priority is Some && !Priority::legal_texts().contains(self.priority->0@) {
            Some(ConstraintViolation::Check(Field::TaskPriority))
        } else if self.status is Some && !Status::legal_texts().contains(self.status->0@) {
            Some(ConstraintViolation::Check(Field::TaskStatus))
        } else {
            None
        }
    }

    /// Decides whether the store takes the row, as far as its column
    /// constraints go.
    pub fn check(&self) -> (outcome: Result<(), ConstraintViolation>)
        ensures
            outcome is Ok <==> self.admissible(),
            outcome matches Err(violation) ==> self.violation() == Some(violation),
    {
        if self.title.is_none() {
            return Err(ConstraintViolation::NotNull(Field::TaskTitle));
        }
        if let Some(priority) = &self.priority {
            if Priority::from_text(priority.as_str()).is_none() {
                return Err(ConstraintViolation::Check(Field::TaskPriority));
            }
        }
        if let Some(status) = &self.status {
            if Status::from_text(status.as_str()).is_none() {
                return Err(ConstraintViolation::Check(Field::TaskStatus));
            }
        }
        Ok(())
    }
}

} // verus!
