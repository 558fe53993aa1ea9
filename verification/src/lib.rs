//! Verified core of a desktop kanban shell: the schema migration registry,
//! the storage constraints of boards and tasks, the tray and menu
//! controller, and the startup plan.
//!
//! Everything here works on plain values. Windows, the tray icon, the
//! embedded database and the event loop belong to the host application,
//! which asks this crate what to do and reports back what happened.

pub mod bootstrap;
pub mod constraint;
pub mod domain;
pub mod menu;
pub mod migration;
pub mod schema;
pub mod text;
pub mod tray;
pub mod window;
