use kanflow::migration::{
    AppliedVersions, Migration, MigrationKind, MigrationPass, MigrationRegistry, PassStep,
    RegistryError,
};
use kanflow::schema::{
    application_registry, CREATE_BOARDS_TABLE, CREATE_TASKS_TABLE, CREATE_USERS_TABLE,
};

fn migration(version: i64, kind: MigrationKind) -> Migration {
    Migration { version, description: "step", sql: "SELECT 1;", kind }
}

fn versions(migrations: &[Migration]) -> Vec<i64> {
    migrations.iter().map(|m| m.version).collect()
}

fn registry_of(list: &[i64]) -> MigrationRegistry {
    let migrations = list.iter().map(|v| migration(*v, MigrationKind::Up)).collect();
    MigrationRegistry::from_migrations(migrations).expect("versions increase strictly")
}

#[test]
fn application_registry_holds_three_migrations_in_order() {
    let registry = application_registry();
    let all = registry.migrations();
    assert_eq!(registry.len(), 3);
    assert_eq!(versions(all), vec![1, 2, 3]);
    assert_eq!(all[0].description, "Create boards table");
    assert_eq!(all[1].description, "Create tasks table");
    assert_eq!(all[2].description, "Create users table");
    assert_eq!(all[0].sql, CREATE_BOARDS_TABLE);
    assert_eq!(all[1].sql, CREATE_TASKS_TABLE);
    assert_eq!(all[2].sql, CREATE_USERS_TABLE);
    assert!(all.iter().all(|m| m.kind == MigrationKind::Up));
}

#[test]
fn statements_create_the_three_tables() {
    assert_eq!(CREATE_BOARDS_TABLE.len(), 912);
    assert_eq!(CREATE_TASKS_TABLE.len(), 1171);
    assert_eq!(CREATE_USERS_TABLE.len(), 345);
    assert!(CREATE_BOARDS_TABLE.starts_with("\n                CREATE TABLE boards (\n"));
    assert!(CREATE_TASKS_TABLE.starts_with("\n                CREATE TABLE tasks (\n"));
    assert!(CREATE_USERS_TABLE.starts_with("\n                CREATE TABLE users (\n"));
    assert!(CREATE_USERS_TABLE.ends_with("                );\n            "));
    assert!(CREATE_BOARDS_TABLE.contains("name TEXT NOT NULL,"));
    assert!(CREATE_BOARDS_TABLE.contains("user_id INTEGER,"));
    assert!(CREATE_BOARDS_TABLE.contains("owner_id INTEGER,"));
    assert!(CREATE_TASKS_TABLE.contains("title TEXT NOT NULL,"));
    assert!(CREATE_TASKS_TABLE.contains("board_id INTEGER,"));
    assert_eq!(CREATE_BOARDS_TABLE.matches("NOT NULL").count(), 1);
    assert_eq!(CREATE_TASKS_TABLE.matches("NOT NULL").count(), 1);
    assert_eq!(CREATE_USERS_TABLE.matches("NOT NULL").count(), 3);
    assert!(CREATE_BOARDS_TABLE.contains("CHECK (board_type IN ('kanban', 'scrum', 'scrumban'))"));
    assert!(CREATE_BOARDS_TABLE.contains("CHECK (visibility IN ('private', 'public', 'team'))"));
    assert!(CREATE_TASKS_TABLE.contains("CHECK (priority IN ('low', 'medium', 'high', 'urgent'))"));
    assert!(CREATE_TASKS_TABLE
        .contains("CHECK (status IN ('todo', 'in_progress', 'done', 'blocked', 'archived'))"));
}

#[test]
fn everything_is_pending_on_a_fresh_store() {
    let registry = application_registry();
    let pending = registry.pending_migrations(&AppliedVersions::new());
    assert_eq!(pending, registry.migrations().clone());
}

#[test]
fn pending_skips_applied_versions_and_keeps_ascending_order() {
    let registry = registry_of(&[1, 2, 3, 5, 8]);
    let applied = AppliedVersions::from_versions(vec![5, 2, 2, 40]);
    let pending = registry.pending_migrations(&applied);
    assert_eq!(versions(&pending), vec![1, 3, 8]);
}

#[test]
fn pending_tolerates_gaps_and_negative_versions() {
    let registry = registry_of(&[-4, 0, 7, 1000]);
    let applied = AppliedVersions::from_versions(vec![0]);
    assert_eq!(versions(&registry.pending_migrations(&applied)), vec![-4, 7, 1000]);
}

#[test]
fn pending_does_not_look_at_the_direction() {
    let registry = MigrationRegistry::from_migrations(vec![
        migration(1, MigrationKind::Up),
        migration(2, MigrationKind::Down),
    ])
    .expect("versions increase strictly");
    let pending = registry.pending_migrations(&AppliedVersions::new());
    assert_eq!(pending, vec![migration(1, MigrationKind::Up), migration(2, MigrationKind::Down)]);
}

#[test]
fn pending_is_idempotent_and_empty_after_apply() {
    let registry = registry_of(&[1, 2, 3, 4]);
    let mut applied = AppliedVersions::from_versions(vec![2]);
    let first = registry.pending_migrations(&applied);
    let second = registry.pending_migrations(&applied);
    assert_eq!(first, second);
    assert_eq!(versions(&first), vec![1, 3, 4]);
    applied.record_all(&first);
    assert!(registry.pending_migrations(&applied).is_empty());
    for version in [1, 2, 3, 4] {
        assert!(applied.contains(version));
    }
    assert!(!applied.contains(5));
}

#[test]
fn empty_registry_has_nothing_pending() {
    let registry = MigrationRegistry::new();
    assert_eq!(registry.len(), 0);
    assert!(registry.pending_migrations(&AppliedVersions::new()).is_empty());
}

#[test]
fn applied_versions_only_grow() {
    let mut applied = AppliedVersions::new();
    assert!(!applied.contains(1));
    applied.record(1);
    applied.record(1);
    applied.record(i64::MIN);
    assert!(applied.contains(1));
    assert!(applied.contains(i64::MIN));
    assert!(!applied.contains(2));
}

#[test]
fn register_refuses_a_version_that_does_not_increase() {
    let mut registry = MigrationRegistry::new();
    assert_eq!(registry.register(migration(3, MigrationKind::Up)), Ok(()));
    assert_eq!(
        registry.register(migration(3, MigrationKind::Up)),
        Err(RegistryError::VersionNotIncreasing { last: 3, offered: 3 })
    );
    assert_eq!(
        registry.register(migration(1, MigrationKind::Down)),
        Err(RegistryError::VersionNotIncreasing { last: 3, offered: 1 })
    );
    assert_eq!(registry.register(migration(4, MigrationKind::Up)), Ok(()));
    assert_eq!(versions(registry.migrations()), vec![3, 4]);
}

#[test]
fn from_migrations_names_the_first_pair_out_of_order() {
    let list: Vec<Migration> =
        [1, 2, 5, 4, 3].iter().map(|v| migration(*v, MigrationKind::Up)).collect();
    let outcome = MigrationRegistry::from_migrations(list);
    assert_eq!(outcome.err(), Some(RegistryError::VersionNotIncreasing { last: 5, offered: 4 }));
    let repeated = vec![migration(1, MigrationKind::Up), migration(1, MigrationKind::Up)];
    assert_eq!(
        MigrationRegistry::from_migrations(repeated).err(),
        Some(RegistryError::VersionNotIncreasing { last: 1, offered: 1 })
    );
    assert!(MigrationRegistry::from_migrations(Vec::new()).is_ok());
}

#[test]
fn pass_runs_pending_migrations_lowest_version_first() {
    let applied = AppliedVersions::from_versions(vec![2]);
    let mut pass = MigrationPass::begin(registry_of(&[1, 2, 3]), applied);
    assert_eq!(pass.step(), PassStep::Execute(migration(1, MigrationKind::Up)));
    assert_eq!(pass.step(), PassStep::Execute(migration(1, MigrationKind::Up)));
    pass.report(true);
    assert!(pass.applied().contains(1));
    assert_eq!(pass.step(), PassStep::Execute(migration(3, MigrationKind::Up)));
    pass.report(true);
    assert_eq!(pass.step(), PassStep::Finished);
    pass.report(true);
    pass.report(false);
    assert_eq!(pass.step(), PassStep::Finished);
    assert!(pass.registry().pending_migrations(pass.applied()).is_empty());
}

#[test]
fn pass_aborts_on_failure_and_records_nothing_for_it() {
    let mut pass = MigrationPass::begin(registry_of(&[1, 2, 3]), AppliedVersions::new());
    pass.report(true);
    assert_eq!(pass.step(), PassStep::Execute(migration(2, MigrationKind::Up)));
    pass.report(false);
    assert_eq!(pass.step(), PassStep::Aborted { version: 2 });
    pass.report(true);
    assert_eq!(pass.step(), PassStep::Aborted { version: 2 });
    assert!(pass.applied().contains(1));
    assert!(!pass.applied().contains(2));
    assert!(!pass.applied().contains(3));
}

#[test]
fn pass_over_an_up_to_date_store_finishes_at_once() {
    let applied = AppliedVersions::from_versions(vec![1, 2, 3]);
    let pass = MigrationPass::begin(application_registry(), applied);
    assert_eq!(pass.step(), PassStep::Finished);
}
