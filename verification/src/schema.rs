//! The persisted schema of the application: the statements that create
//! its tables, in the order in which a fresh store receives them.
//!
//! A board must have a name and a task a title; a user must have a user
//! name, a password and a name. Every other column may stay empty.

use crate::migration::{Migration, MigrationKind, MigrationRegistry};
use vstd::prelude::*;

verus! {

/// The statement that creates the `boards` table.
pub const CREATE_BOARDS_TABLE: &'static str = "
                CREATE TABLE boards (
                    id INTEGER PRIMARY KEY,
                    user_id INTEGER,
                    name TEXT NOT NULL,
                    created_at DATETIME DEFAULT CURRENT_TIMESTAMP,
                    last_updated DATETIME DEFAULT CURRENT_TIMESTAMP,
                    description TEXT,
                    owner_id INTEGER,
                    is_archived BOOLEAN DEFAULT FALSE,
                    visibility TEXT DEFAULT 'private',
                    background_color TEXT DEFAULT '#FFFFFF',
                    board_type TEXT DEFAULT 'kanban',
                    due_date DATE,
                    labels_enabled BOOLEAN DEFAULT TRUE,
                    default_user_roles TEXT,
                    CHECK (board_type IN ('kanban', 'scrum', 'scrumban')),
                    CHECK (visibility IN ('private', 'public', 'team'))
                );
            ";

/// The statement that creates the `tasks` table.
pub const CREATE_TASKS_TABLE: &'static str = "
                CREATE TABLE tasks (
                    id INTEGER PRIMARY KEY,
                    board_id INTEGER,
                    title TEXT NOT NULL,
                    description TEXT,
                    assigned_to INTEGER,
                    markdown_content TEXT,
                    time_to_complete TEXT,
                    created_at DATETIME DEFAULT CURRENT_TIMESTAMP,
                    last_updated DATETIME DEFAULT CURRENT_TIMESTAMP,
                    due_date DATE,
                    priority TEXT DEFAULT 'medium',
                    status TEXT DEFAULT 'todo',
                    labels TEXT,
                    comments_enabled BOOLEAN DEFAULT TRUE,
                    attachments TEXT,
                    checklist TEXT,
                    parent_task_id INTEGER,
                    estimated_time INTEGER,
                    actual_time INTEGER,
                    order_num INTEGER,
                    column_id INTEGER,
                    CHECK (priority IN ('low', 'medium', 'high', 'urgent')),
                    CHECK (status IN ('todo', 'in_progress', 'done', 'blocked', 'archived'))
                );
            ";

/// The statement that creates the `users` table.
pub const CREATE_USERS_TABLE: &'static str = "
                CREATE TABLE users (
                    id INTEGER PRIMARY KEY,
                    username TEXT NOT NULL,
                    password TEXT NOT NULL,
                    name TEXT NOT NULL,
                    first_name TEXT,
                    last_name TEXT,
                    email TEXT
                );
            ";

/// The migrations of the application, as a sequence.
pub open spec fn application_migrations() -> Seq<Migration> {
    seq![
        Migration {
            version: 1,
            description: "Create boards table",
            sql: CREATE_BOARDS_TABLE,
            kind: MigrationKind::Up,
        },
        Migration {
            version: 2,
            description: "Create tasks table",
            sql: CREATE_TASKS_TABLE,
            kind: MigrationKind::Up,
        },
        Migration {
            version: 3,
            description: "Create users table",
            sql: CREATE_USERS_TABLE,
            kind: MigrationKind::Up,
        },
    ]
}

/// The registry that the application hands to its store at startup: the
/// boards table, then the tasks table, then the users table.
pub fn application_registry() -> (registry: MigrationRegistry)
    ensures
        registry@ == application_migrations(),
{
    let mut registry = MigrationRegistry::new();
    let _ = registry.register(
        Migration {
            version: 1,
            description: "Create boards table",
            sql: CREATE_BOARDS_TABLE,
            kind: MigrationKind::Up,
        },
    );
    let _ = registry.register(
        Migration {
            version: 2,
            description: "Create tasks table",
            sql: CREATE_TASKS_TABLE,
            kind: MigrationKind::Up,
        },
    );
    let _ = registry.register(
        Migration {
            version: 3,
            description: "Create users table",
            sql: CREATE_USERS_TABLE,
            kind: MigrationKind::Up,
        },
    );
    assert(registry@ =~= application_migrations());
    registry
}

} // verus!
