//! The PostgreSQL repository adapter's configuration, the statements it sends
//! for its entity table, and how database errors are classified.

use vstd::prelude::*;
use crate::text::{contains, contains_text};

verus! {

/// Postgres repository configuration.
#[derive(Debug)]
pub struct PostgresConfig {
    pub host: String,
    pub port: u16,
    pub user: String,
    pub password: String,
    pub database: String,
    pub max_size: usize,
    pub min_idle: Option<usize>,
    pub connect_timeout_secs: u64,
}

impl Clone for PostgresConfig {
    fn clone(&self) -> (r: Self)
        ensures
            r == *self,
    {
        PostgresConfig {
            host: self.host.clone(),
            port: self.port,
            user: self.user.clone(),
            password: self.password.clone(),
            database: self.database.clone(),
            max_size: self.max_size,
            min_idle: self.min_idle,
            connect_timeout_secs: self.connect_timeout_secs,
        }
    }
}

impl Default for PostgresConfig {
    fn default() -> (r: Self)
        ensures
            r.host@ == "localhost"@,
            r.port == 5432,
            r.user@ == "postgres"@,
            r.password@ == "postgres"@,
            r.database@ == "phenotype"@,
            r.max_size == 16,
            r.min_idle is None,
            r.connect_timeout_secs == 30,
    {
        PostgresConfig {
            host: String::from_str("localhost"),
            port: 5432,
            user: String::from_str("postgres"),
            password: String::from_str("postgres"),
            database: String::from_str("phenotype"),
            max_size: 16,
            min_idle: None,
            connect_timeout_secs: 30,
        }
    }
}

/// The table in which the repository keeps its entities.
#[derive(Debug)]
pub struct EntityTable {
    pub table_name: String,
}

/// The columns every entity row has, in the order the statements list them.
pub open spec fn entity_columns() -> Seq<char> {
    "id, entity_type, payload, created_at, updated_at, version"@
}

/// The statement that creates the table `t` when it is missing.
pub open spec fn create_table_sql(t: Seq<char>) -> Seq<char> {
    "\n            CREATE TABLE IF NOT EXISTS "@ + t
        + " (\n                id TEXT PRIMARY KEY,\n                entity_type TEXT NOT NULL,\n                payload JSONB NOT NULL,\n                created_at TIMESTAMPTZ NOT NULL DEFAULT NOW(),\n                updated_at TIMESTAMPTZ NOT NULL DEFAULT NOW(),\n                version BIGINT NOT NULL DEFAULT 1\n            )\n            "@
}

/// The statement that indexes the table `t` by entity type.
pub open spec fn create_index_sql(t: Seq<char>) -> Seq<char> {
    "CREATE INDEX IF NOT EXISTS "@ + t + "_entity_type_idx ON "@ + t + "(entity_type)"@
}

/// The statement that inserts an entity, or updates it when the id exists.
pub open spec fn upsert_sql(t: Seq<char>) -> Seq<char> {
    "\n            INSERT INTO "@ + t
        + " (id, entity_type, payload, created_at, updated_at, version)\n            VALUES ($1, $2, $3, $4, $5, $6)\n            ON CONFLICT (id) DO UPDATE SET\n                payload = EXCLUDED.payload,\n                updated_at = EXCLUDED.updated_at,\n                version = EXCLUDED.version + 1\n            "@
}

/// The query for the entity with a given id.
pub open spec fn select_by_id_sql(t: Seq<char>) -> Seq<char> {
    "SELECT "@ + entity_columns() + " FROM "@ + t + " WHERE id = $1"@
}

/// The statement that deletes the entity with a given id.
pub open spec fn delete_by_id_sql(t: Seq<char>) -> Seq<char> {
    "DELETE FROM "@ + t + " WHERE id = $1"@
}

/// The query that tells whether an id exists.
pub open spec fn exists_sql(t: Seq<char>) -> Seq<char> {
    "SELECT 1 FROM "@ + t + " WHERE id = $1 LIMIT 1"@
}

/// The query for a page of entities, newest first.
pub open spec fn find_all_sql(t: Seq<char>) -> Seq<char> {
    "SELECT "@ + entity_columns() + " FROM "@ + t + " ORDER BY created_at DESC LIMIT $1 OFFSET $2"@
}

/// The query for the entities whose `field` equals a value.
pub open spec fn find_by_field_sql(t: Seq<char>, field: Seq<char>) -> Seq<char> {
    "SELECT "@ + entity_columns() + " FROM "@ + t + " WHERE "@ + field + " = $1"@
}

/// The query that counts the entities.
pub open spec fn count_sql(t: Seq<char>) -> Seq<char> {
    "SELECT COUNT(*) FROM "@ + t
}

impl Clone for EntityTable {
    fn clone(&self) -> (r: Self)
        ensures
            r == *self,
    {
        EntityTable {
            table_name: self.table_name.clone(),
        }
    }
}

impl EntityTable {
    /// A table with the given name.
    pub fn new(table_name: &str) -> (r: Self)
        ensures
            r.table_name@ == table_name@,
    {
        EntityTable { table_name: String::from_str(table_name) }
    }

    /// The default table, "entities".
    pub fn with_default_table() -> (r: Self)
        ensures
            r.table_name@ == "entities"@,
    {
        EntityTable::new("entities")
    }

    pub fn create_table_sql(&self) -> (r: String)
        ensures
            r@ == create_table_sql(self.table_name@),
    {
        let mut q = String::from_str("\n            CREATE TABLE IF NOT EXISTS ");
        q.append(self.table_name.as_str());
        q.append(
            " (\n                id TEXT PRIMARY KEY,\n                entity_type TEXT NOT NULL,\n                payload JSONB NOT NULL,\n                created_at TIMESTAMPTZ NOT NULL DEFAULT NOW(),\n                updated_at TIMESTAMPTZ NOT NULL DEFAULT NOW(),\n                version BIGINT NOT NULL DEFAULT 1\n            )\n            ",
        );
        q
    }

    pub fn create_index_sql(&self) -> (r: String)
        ensures
            r@ == create_index_sql(self.table_name@),
    {
        let mut q = String::from_str("CREATE INDEX IF NOT EXISTS ");
        q.append(self.table_name.as_str());
        q.append("_entity_type_idx ON ");
        q.append(self.table_name.as_str());
        q.append("(entity_type)");
        q
    }

    pub fn upsert_sql(&self) -> (r: String)
        ensures
            r@ == upsert_sql(self.table_name@),
    {
        let mut q = String::from_str("\n            INSERT INTO ");
        q.append(self.table_name.as_str());
        q.append(
            " (id, entity_type, payload, created_at, updated_at, version)\n            VALUES ($1, $2, $3, $4, $5, $6)\n            ON CONFLICT (id) DO UPDATE SET\n                payload = EXCLUDED.payload,\n                updated_at = EXCLUDED.updated_at,\n                version = EXCLUDED.version + 1\n            ",
        );
        q
    }

    fn select_from(&self) -> (r: String)
        ensures
            r@ == "SELECT "@ + entity_columns() + " FROM "@ + self.table_name@,
    {
        let mut q = String::from_str("SELECT ");
        q.append("id, entity_type, payload, created_at, updated_at, version");
        q.append(" FROM ");
        q.append(self.table_name.as_str());
        q
    }

    pub fn select_by_id_sql(&self) -> (r: String)
        ensures
            r@ == select_by_id_sql(self.table_name@),
    {
        let mut q = self.select_from();
        q.append(" WHERE id = $1");
        q
    }

    pub fn delete_by_id_sql(&self) -> (r: String)
        ensures
            r@ == delete_by_id_sql(self.table_name@),
    {
        let mut q = String::from_str("DELETE FROM ");
        q.append(self.table_name.as_str());
        q.append(" WHERE id = $1");
        q
    }

    pub fn exists_sql(&self) -> (r: String)
        ensures
            r@ == exists_sql(self.table_name@),
    {
        let mut q = String::from_str("SELECT 1 FROM ");
        q.append(self.table_name.as_str());
        q.append(" WHERE id = $1 LIMIT 1");
        q
    }

    pub fn find_all_sql(&self) -> (r: String)
        ensures
            r@ == find_all_sql(self.table_name@),
    {
        let mut q = self.select_from();
        q.append(" ORDER BY created_at DESC LIMIT $1 OFFSET $2");
        q
    }

    pub fn find_by_field_sql(&self, field: &str) -> (r: String)
        ensures
            r@ == find_by_field_sql(self.table_name@, field@),
    {
        let mut q = self.select_from();
        q.append(" WHERE ");
        q.append(field);
        q.append(" = $1");
        q
    }

    pub fn count_sql(&self) -> (r: String)
        ensures
            r@ == count_sql(self.table_name@),
    {
        let mut q = String::from_str("SELECT COUNT(*) FROM ");
        q.append(self.table_name.as_str());
        q
    }
}

/// How a database error is reported to callers.
#[derive(Debug, Clone, Copy, PartialEq, Eq, Structural)]
pub enum DbErrorKind {
    /// A unique key was violated.
    AlreadyExists,
    /// The query found no row.
    NotFound,
    /// Any other database error.
    Other,
}

/// The kind of a database error by its message: "duplicate key" means the
/// entity already exists, "no rows" that it was not found.
pub open spec fn db_error_kind(message: Seq<char>) -> DbErrorKind {
    if contains_text(message, "duplicate key"@) {
        DbErrorKind::AlreadyExists
    } else if contains_text(message, "no rows"@) {
        DbErrorKind::NotFound
    } else {
        DbErrorKind::Other
    }
}

/// Classifies a database error by its message.
pub fn classify_db_error(message: &str) -> (r: DbErrorKind)
    ensures
        r == db_error_kind(message@),
{
    if contains(message, "duplicate key") {
        DbErrorKind::AlreadyExists
    } else if contains(message, "no rows") {
        DbErrorKind::NotFound
    } else {
        DbErrorKind::Other
    }
}

} // verus!
