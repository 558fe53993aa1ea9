use kanflow::constraint::{ConstraintViolation, Field, NewBoard, NewTask};
use kanflow::domain::{BoardType, Priority, Status, Visibility};

fn board() -> NewBoard {
    NewBoard { name: Some("Roadmap".to_string()), ..NewBoard::default() }
}

fn task() -> NewTask {
    NewTask { title: Some("Write the report".to_string()), ..NewTask::default() }
}

#[test]
fn board_type_sprint_is_refused() {
    assert_eq!(BoardType::from_text("sprint"), None);
    let row = NewBoard { board_type: Some("sprint".to_string()), ..board() };
    assert_eq!(row.check(), Err(ConstraintViolation::Check(Field::BoardType)));
}

#[test]
fn priority_critical_is_refused() {
    assert_eq!(Priority::from_text("critical"), None);
    let row = NewTask { priority: Some("critical".to_string()), ..task() };
    assert_eq!(row.check(), Err(ConstraintViolation::Check(Field::TaskPriority)));
}

#[test]
fn board_without_name_is_refused() {
    let row = NewBoard { name: None, ..board() };
    assert_eq!(row.check(), Err(ConstraintViolation::NotNull(Field::BoardName)));
}

#[test]
fn board_that_gives_only_its_name_is_taken() {
    assert_eq!(board().check(), Ok(()));
    let full = NewBoard { user_id: Some(1), owner_id: Some(1), ..board() };
    assert_eq!(full.check(), Ok(()));
}

#[test]
fn task_that_gives_only_its_title_is_taken() {
    assert_eq!(task().check(), Ok(()));
    let full = NewTask { board_id: Some(1), ..task() };
    assert_eq!(full.check(), Ok(()));
}

#[test]
fn task_without_title_is_refused() {
    let row = NewTask { title: None, board_id: Some(1), ..task() };
    assert_eq!(row.check(), Err(ConstraintViolation::NotNull(Field::TaskTitle)));
    assert_eq!(NewTask::default().check(), Err(ConstraintViolation::NotNull(Field::TaskTitle)));
    assert_eq!(NewBoard::default().check(), Err(ConstraintViolation::NotNull(Field::BoardName)));
}

#[test]
fn every_legal_board_text_is_taken() {
    for kind in ["kanban", "scrum", "scrumban"] {
        for visibility in ["private", "public", "team"] {
            let row = NewBoard {
                board_type: Some(kind.to_string()),
                visibility: Some(visibility.to_string()),
                ..board()
            };
            assert_eq!(row.check(), Ok(()));
        }
    }
}

#[test]
fn every_legal_task_text_is_taken() {
    for priority in ["low", "medium", "high", "urgent"] {
        for status in ["todo", "in_progress", "done", "blocked", "archived"] {
            let row = NewTask {
                priority: Some(priority.to_string()),
                status: Some(status.to_string()),
                ..task()
            };
            assert_eq!(row.check(), Ok(()));
        }
    }
}

#[test]
fn each_board_constraint_has_its_violation() {
    let no_name = NewBoard { name: None, user_id: Some(1), owner_id: Some(1), ..board() };
    assert_eq!(no_name.check(), Err(ConstraintViolation::NotNull(Field::BoardName)));
    let hidden = NewBoard { visibility: Some("hidden".to_string()), ..board() };
    assert_eq!(hidden.check(), Err(ConstraintViolation::Check(Field::BoardVisibility)));
    let upper = NewBoard { board_type: Some("Kanban".to_string()), ..board() };
    assert_eq!(upper.check(), Err(ConstraintViolation::Check(Field::BoardType)));
    let empty = NewBoard { board_type: Some(String::new()), ..board() };
    assert_eq!(empty.check(), Err(ConstraintViolation::Check(Field::BoardType)));
}

#[test]
fn each_task_constraint_has_its_violation() {
    let no_title = NewTask { title: None, ..task() };
    assert_eq!(no_title.check(), Err(ConstraintViolation::NotNull(Field::TaskTitle)));
    let paused = NewTask { status: Some("paused".to_string()), ..task() };
    assert_eq!(paused.check(), Err(ConstraintViolation::Check(Field::TaskStatus)));
}

#[test]
fn missing_values_are_reported_before_failed_checks() {
    let row = NewBoard {
        name: None,
        board_type: Some("sprint".to_string()),
        visibility: Some("hidden".to_string()),
        ..board()
    };
    assert_eq!(row.check(), Err(ConstraintViolation::NotNull(Field::BoardName)));
    let row = NewBoard {
        board_type: Some("sprint".to_string()),
        visibility: Some("hidden".to_string()),
        ..board()
    };
    assert_eq!(row.check(), Err(ConstraintViolation::Check(Field::BoardType)));
    let row = NewTask {
        title: None,
        priority: Some("critical".to_string()),
        status: Some("paused".to_string()),
        ..task()
    };
    assert_eq!(row.check(), Err(ConstraintViolation::NotNull(Field::TaskTitle)));
    let row = NewTask {
        priority: Some("critical".to_string()),
        status: Some("paused".to_string()),
        ..task()
    };
    assert_eq!(row.check(), Err(ConstraintViolation::Check(Field::TaskPriority)));
}

#[test]
fn enumerated_texts_round_trip() {
    for kind in [BoardType::Kanban, BoardType::Scrum, BoardType::Scrumban] {
        assert_eq!(BoardType::from_text(kind.as_text()), Some(kind));
    }
    for visibility in [Visibility::Private, Visibility::Public, Visibility::Team] {
        assert_eq!(Visibility::from_text(visibility.as_text()), Some(visibility));
    }
    for priority in [Priority::Low, Priority::Medium, Priority::High, Priority::Urgent] {
        assert_eq!(Priority::from_text(priority.as_text()), Some(priority));
    }
    for status in
        [Status::Todo, Status::InProgress, Status::Done, Status::Blocked, Status::Archived]
    {
        assert_eq!(Status::from_text(status.as_text()), Some(status));
    }
    assert_eq!(Status::InProgress.as_text(), "in_progress");
    assert_eq!(Visibility::from_text("Team"), None);
    assert_eq!(Status::from_text("in progress"), None);
}

#[test]
fn defaults_are_those_of_the_schema() {
    assert_eq!(BoardType::default(), BoardType::Kanban);
    assert_eq!(Visibility::default(), Visibility::Private);
    assert_eq!(Priority::default(), Priority::Medium);
    assert_eq!(Status::default(), Status::Todo);
}

#[test]
fn fields_are_named_by_table_and_column() {
    assert_eq!(Field::BoardName.qualified_name(), "boards.name");
    assert_eq!(Field::BoardType.qualified_name(), "boards.board_type");
    assert_eq!(Field::BoardVisibility.qualified_name(), "boards.visibility");
    assert_eq!(Field::TaskTitle.qualified_name(), "tasks.title");
    assert_eq!(Field::TaskPriority.qualified_name(), "tasks.priority");
    assert_eq!(Field::TaskStatus.qualified_name(), "tasks.status");
}
