//! Versioned schema migrations for the local library database.
//!
//! A catalog is an ordered list of migration descriptors. The storage layer
//! applies every descriptor whose version exceeds the highest version it has
//! recorded as applied, in ascending order, so released descriptors must never
//! change and new ones may only be added at the end with a greater version.

use vstd::prelude::*;

verus! {

/// Direction of a schema change.
#[derive(Clone, Copy, Debug, PartialEq, Eq, Structural)]
pub enum MigrationKind {
    Up,
    Down,
}

/// One versioned, named, directional schema change and its SQL text.
#[derive(Clone, Copy, Debug)]
pub struct Migration {
    pub version: i64,
    pub description: &'static str,
    pub sql: &'static str,
    pub kind: MigrationKind,
}

/// The mathematical value of a [`Migration`].
pub struct MigrationView {
    pub version: int,
    pub description: Seq<char>,
    pub sql: Seq<char>,
    pub kind: MigrationKind,
}

impl View for Migration {
    type V = MigrationView;

    open spec fn view(&self) -> MigrationView {
        MigrationView {
            version: self.version as int,
            description: self.description@,
            sql: self.sql@,
            kind: self.kind,
        }
    }
}

/// The values of a sequence of migrations.
pub open spec fn catalog_view(migrations: Seq<Migration>) -> Seq<MigrationView> {
    migrations.map_values(|m: Migration| m@)
}

/// Versions grow strictly from each descriptor to every later one.
pub open spec fn strictly_increasing(catalog: Seq<MigrationView>) -> bool {
    forall|i: int, j: int|
        0 <= i < j < catalog.len() ==> #[trigger] catalog[i].version < #[trigger] catalog[j].version
}

/// A well-formed catalog: positive versions in strictly ascending order, each
/// with a non-empty description.
pub open spec fn is_valid_catalog(catalog: Seq<MigrationView>) -> bool {
    &&& strictly_increasing(catalog)
    &&& forall|i: int|
        0 <= i < catalog.len() ==> #[trigger] catalog[i].version > 0
            && catalog[i].description.len() > 0
}

/// The catalog of this application, given the text of its three scripts.
pub open spec fn catalog(
    initial_schema: Seq<char>,
    default_collections: Seq<char>,
    enhance_library_schema: Seq<char>,
) -> Seq<MigrationView> {
    seq![
        MigrationView {
            version: 1,
            description: "create_initial_tables"@,
            sql: initial_schema,
            kind: MigrationKind::Up,
        },
        MigrationView {
            version: 2,
            description: "create_default_collections"@,
            sql: default_collections,
            kind: MigrationKind::Up,
        },
        MigrationView {
            version: 3,
            description: "enhance_library_schema"@,
            sql: enhance_library_schema,
            kind: MigrationKind::Up,
        },
    ]
}

/// Builds the application's migration catalog from the text of its three
/// SQL scripts, which are embedded into the program when it is built.
pub fn get_migrations(
    initial_schema: &'static str,
    default_collections: &'static str,
    enhance_library_schema: &'static str,
) -> (r: Vec<Migration>)
    ensures
        catalog_view(r@) == catalog(initial_schema@, default_collections@, enhance_library_schema@),
        r@.len() == 3,
        is_valid_catalog(catalog_view(r@)),
        forall|i: int| 0 <= i < r@.len() ==> #[trigger] r@[i].kind == MigrationKind::Up,
{
    let r = vec![
        Migration {
            version: 1,
            description: "create_initial_tables",
            sql: initial_schema,
            kind: MigrationKind::Up,
        },
        Migration {
            version: 2,
            description: "create_default_collections",
            sql: default_collections,
            kind: MigrationKind::Up,
        },
        Migration {
            version: 3,
            description: "enhance_library_schema",
            sql: enhance_library_schema,
            kind: MigrationKind::Up,
        },
    ];
    proof {
        reveal_strlit("create_initial_tables");
        reveal_strlit("create_default_collections");
        reveal_strlit("enhance_library_schema");
        assert(catalog_view(r@) =~= catalog(
            initial_schema@,
            default_collections@,
            enhance_library_schema@,
        ));
    }
    r
}

/// Why a descriptor cannot be appended to a catalog.
#[derive(Clone, Copy, Debug, PartialEq, Eq, Structural)]
pub enum CatalogError {
    /// The descriptor has an empty description.
    EmptyDescription,
    /// The descriptor's version is zero or negative.
    NonPositiveVersion,
    /// The descriptor's version does not exceed the last version of the catalog.
    VersionNotIncreasing,
}

/// The version of the last descriptor is below `version`, or there is none.
pub open spec fn follows_last(catalog: Seq<MigrationView>, version: int) -> bool {
    catalog.len() == 0 || catalog.last().version < version
}

/// What appending `migration` to `catalog` yields: the error, checked in this
/// order, or the extended catalog.
pub open spec fn append_result(catalog: Seq<MigrationView>, migration: MigrationView) -> Result<
    Seq<MigrationView>,
    CatalogError,
> {
    if migration.description.len() == 0 {
        Err(CatalogError::EmptyDescription)
    } else if migration.version <= 0 {
        Err(CatalogError::NonPositiveVersion)
    } else if !follows_last(catalog, migration.version) {
        Err(CatalogError::VersionNotIncreasing)
    } else {
        Ok(catalog.push(migration))
    }
}

/// Appends `migration` to a well-formed catalog when its version is greater
/// than every released one; otherwise leaves the catalog as it was.
pub fn push_migration(catalog: &mut Vec<Migration>, migration: Migration) -> (r: Result<
    (),
    CatalogError,
>)
    requires
        is_valid_catalog(catalog_view(old(catalog)@)),
    ensures
        match append_result(catalog_view(old(catalog)@), migration@) {
            Ok(extended) => r is Ok && catalog_view(final(catalog)@) == extended,
            Err(e) => r == Err::<(), CatalogError>(e) && final(catalog)@ == old(catalog)@,
        },
        is_valid_catalog(catalog_view(final(catalog)@)),
{
    if migration.description.is_empty() {
        return Err(CatalogError::EmptyDescription);
    }
    if migration.version <= 0 {
        return Err(CatalogError::NonPositiveVersion);
    }
    let n = catalog.len();
    if n > 0 && catalog[n - 1].version >= migration.version {
        return Err(CatalogError::VersionNotIncreasing);
    }
    let ghost before = catalog_view(catalog@);
    catalog.push(migration);
    proof {
        assert(catalog_view(catalog@) =~= before.push(migration@));
        lemma_append_keeps_released(before, migration@);
    }
    Ok(())
}

/// Appending a descriptor whose version exceeds the last one, with a positive
/// version and a non-empty description, keeps every released descriptor in
/// its place and unchanged, and keeps the catalog well formed.
pub proof fn lemma_append_keeps_released(catalog: Seq<MigrationView>, migration: MigrationView)
    requires
        is_valid_catalog(catalog),
        migration.version > 0,
        migration.description.len() > 0,
        follows_last(catalog, migration.version),
    ensures
        catalog.push(migration).len() == catalog.len() + 1,
        catalog.push(migration).subrange(0, catalog.len() as int) == catalog,
        catalog.push(migration).last() == migration,
        is_valid_catalog(catalog.push(migration)),
{
    let extended = catalog.push(migration);
    assert(extended.subrange(0, catalog.len() as int) =~= catalog);
    assert forall|i: int, j: int| 0 <= i < j < extended.len() implies #[trigger] extended[i].version
        < #[trigger] extended[j].version by {
        if j == catalog.len() && i < j {
            assert(catalog[i].version <= catalog.last().version);
        }
    }
}

/// Every catalog built by [`get_migrations`] is non-empty and its versions
/// strictly increase.
pub proof fn lemma_catalog_ordered(
    initial_schema: Seq<char>,
    default_collections: Seq<char>,
    enhance_library_schema: Seq<char>,
)
    ensures
        catalog(initial_schema, default_collections, enhance_library_schema).len() > 0,
        strictly_increasing(catalog(initial_schema, default_collections, enhance_library_schema)),
{
}

/// Building the catalog twice from the same scripts gives descriptors equal
/// in version, description, direction and script.
pub proof fn lemma_catalog_deterministic(
    first: Seq<Migration>,
    second: Seq<Migration>,
    initial_schema: Seq<char>,
    default_collections: Seq<char>,
    enhance_library_schema: Seq<char>,
)
    requires
        catalog_view(first) == catalog(initial_schema, default_collections, enhance_library_schema),
        catalog_view(second) == catalog(initial_schema, default_collections, enhance_library_schema),
    ensures
        first.len() == second.len(),
        forall|i: int|
            0 <= i < first.len() ==> {
                &&& #[trigger] first[i].version == second[i].version
                &&& first[i].description@ == second[i].description@
                &&& first[i].kind == second[i].kind
                &&& first[i].sql@ == second[i].sql@
            },
{
    assert(catalog_view(first).len() == first.len());
    assert(catalog_view(second).len() == second.len());
    assert forall|i: int| 0 <= i < first.len() implies {
        &&& #[trigger] first[i].version == second[i].version
        &&& first[i].description@ == second[i].description@
        &&& first[i].kind == second[i].kind
        &&& first[i].sql@ == second[i].sql@
    } by {
        assert(catalog_view(first)[i] == first[i]@);
        assert(catalog_view(second)[i] == second[i]@);
    }
}

/// Every descriptor of the catalog has a direction in {Up, Down}; each is in
/// fact an upward change.
pub proof fn lemma_catalog_directions(
    initial_schema: Seq<char>,
    default_collections: Seq<char>,
    enhance_library_schema: Seq<char>,
)
    ensures
        forall|i: int|
            0 <= i < catalog(initial_schema, default_collections, enhance_library_schema).len()
                ==> {
                let kind = #[trigger] catalog(
                    initial_schema,
                    default_collections,
                    enhance_library_schema,
                )[i].kind;
                &&& kind == MigrationKind::Up || kind == MigrationKind::Down
                &&& kind == MigrationKind::Up
            },
{
}

/// Appending a version-4 descriptor to the catalog leaves descriptors 1 to 3
/// as they were, in the same order, and the catalog stays well formed.
pub proof fn lemma_catalog_append_next(
    initial_schema: Seq<char>,
    default_collections: Seq<char>,
    enhance_library_schema: Seq<char>,
    migration: MigrationView,
)
    requires
        migration.version == 4,
        migration.description.len() > 0,
    ensures
        ({
            let released = catalog(initial_schema, default_collections, enhance_library_schema);
            &&& append_result(released, migration) == Ok::<Seq<MigrationView>, CatalogError>(
                released.push(migration),
            )
            &&& released.push(migration).subrange(0, 3) == released
            &&& is_valid_catalog(released.push(migration))
        }),
{
    let released = catalog(initial_schema, default_collections, enhance_library_schema);
    reveal_strlit("create_initial_tables");
    reveal_strlit("create_default_collections");
    reveal_strlit("enhance_library_schema");
    assert(is_valid_catalog(released));
    lemma_append_keeps_released(released, migration);
}

} // verus!
