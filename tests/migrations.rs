use library_app::migrations::{get_migrations, push_migration, CatalogError, Migration, MigrationKind};

const INITIAL: &str = "CREATE TABLE books (id INTEGER PRIMARY KEY, title TEXT NOT NULL);";
const COLLECTIONS: &str = "INSERT INTO collections (name) VALUES ('Favorites');";
const ENHANCE: &str = "ALTER TABLE books ADD COLUMN rating INTEGER;";

fn catalog() -> Vec<Migration> {
    get_migrations(INITIAL, COLLECTIONS, ENHANCE)
}

fn next(version: i64, description: &'static str) -> Migration {
    Migration {
        version,
        description,
        sql: "CREATE TABLE notes (id INTEGER PRIMARY KEY);",
        kind: MigrationKind::Up,
    }
}

#[test]
fn catalog_holds_three_upward_migrations() {
    let c = catalog();
    assert_eq!(c.len(), 3);
    let versions: Vec<i64> = c.iter().map(|m| m.version).collect();
    assert_eq!(versions, vec![1, 2, 3]);
    assert_eq!(c[0].description, "create_initial_tables");
    assert_eq!(c[1].description, "create_default_collections");
    assert_eq!(c[2].description, "enhance_library_schema");
    assert_eq!(c[0].sql, INITIAL);
    assert_eq!(c[1].sql, COLLECTIONS);
    assert_eq!(c[2].sql, ENHANCE);
    assert!(c.iter().all(|m| m.kind == MigrationKind::Up));
}

#[test]
fn catalog_is_non_empty_and_strictly_increasing() {
    let c = catalog();
    assert!(!c.is_empty());
    for pair in c.windows(2) {
        assert!(pair[0].version < pair[1].version);
    }
    assert!(c.iter().all(|m| m.version > 0 && !m.description.is_empty()));
}

#[test]
fn catalog_is_deterministic() {
    let a = catalog();
    let b = catalog();
    assert_eq!(a.len(), b.len());
    for (x, y) in a.iter().zip(b.iter()) {
        assert_eq!(x.version, y.version);
        assert_eq!(x.description, y.description);
        assert_eq!(x.kind, y.kind);
        assert_eq!(x.sql, y.sql);
    }
}

#[test]
fn catalog_directions_are_up_or_down() {
    for m in catalog() {
        assert!(matches!(m.kind, MigrationKind::Up | MigrationKind::Down));
    }
}

#[test]
fn appending_version_four_keeps_released_migrations() {
    let before = catalog();
    let mut c = catalog();
    assert_eq!(push_migration(&mut c, next(4, "add_notes")), Ok(()));
    assert_eq!(c.len(), 4);
    for (x, y) in before.iter().zip(c.iter()) {
        assert_eq!(x.version, y.version);
        assert_eq!(x.description, y.description);
        assert_eq!(x.kind, y.kind);
        assert_eq!(x.sql, y.sql);
    }
    assert_eq!(c[3].version, 4);
    assert_eq!(c[3].description, "add_notes");
}

#[test]
fn appending_with_a_gap_in_versions_is_accepted() {
    let mut c = catalog();
    assert_eq!(push_migration(&mut c, next(10, "add_notes")), Ok(()));
    assert_eq!(c[3].version, 10);
}

#[test]
fn appending_a_downward_migration_is_accepted() {
    let mut c = catalog();
    let m = Migration {
        version: 4,
        description: "drop_notes",
        sql: "DROP TABLE notes;",
        kind: MigrationKind::Down,
    };
    assert_eq!(push_migration(&mut c, m), Ok(()));
    assert_eq!(c[3].kind, MigrationKind::Down);
}

#[test]
fn appending_to_an_empty_catalog_is_accepted() {
    let mut c: Vec<Migration> = Vec::new();
    assert_eq!(push_migration(&mut c, next(1, "first")), Ok(()));
    assert_eq!(c.len(), 1);
    assert_eq!(c[0].version, 1);
}

#[test]
fn appending_an_equal_version_is_refused() {
    let mut c = catalog();
    assert_eq!(
        push_migration(&mut c, next(3, "again")),
        Err(CatalogError::VersionNotIncreasing)
    );
    assert_eq!(c.len(), 3);
    assert_eq!(c[2].description, "enhance_library_schema");
}

#[test]
fn appending_a_lower_version_is_refused() {
    let mut c = catalog();
    assert_eq!(
        push_migration(&mut c, next(2, "older")),
        Err(CatalogError::VersionNotIncreasing)
    );
    assert_eq!(c.len(), 3);
}

#[test]
fn appending_a_non_positive_version_is_refused() {
    let mut c: Vec<Migration> = Vec::new();
    assert_eq!(
        push_migration(&mut c, next(0, "zero")),
        Err(CatalogError::NonPositiveVersion)
    );
    assert_eq!(
        push_migration(&mut c, next(-1, "negative")),
        Err(CatalogError::NonPositiveVersion)
    );
    assert!(c.is_empty());
}

#[test]
fn appending_an_empty_description_is_refused() {
    let mut c = catalog();
    assert_eq!(
        push_migration(&mut c, next(4, "")),
        Err(CatalogError::EmptyDescription)
    );
    assert_eq!(c.len(), 3);
}

#[test]
fn the_largest_version_can_be_appended_and_ends_the_catalog() {
    let mut c = catalog();
    assert_eq!(push_migration(&mut c, next(i64::MAX, "last")), Ok(()));
    assert_eq!(
        push_migration(&mut c, next(i64::MAX, "after_last")),
        Err(CatalogError::VersionNotIncreasing)
    );
    assert_eq!(c.len(), 4);
}
