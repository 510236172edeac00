use vstd::prelude::*;
use vstd::string::StringExecFns;
use crate::model::{relation_name, Model, Relation};
use crate::value::{SqlValue, Value};

verus! {

/// The statement that creates the primary table of a type unless it exists.
pub open spec fn create_table_text(table: Seq<char>, schema: Seq<char>) -> Seq<char> {
    "CREATE TABLE IF NOT EXISTS "@ + table + " ("@ + schema + ")"@
}

/// The statement that writes a row, replacing the row with the same key.
pub open spec fn insert_text(table: Seq<char>, columns: Seq<char>, placeholders: Seq<char>) -> Seq<char> {
    "INSERT OR REPLACE INTO "@ + table + " ("@ + columns + ") VALUES ("@ + placeholders + ")"@
}

/// The statement that selects the row whose key is the first parameter.
pub open spec fn select_by_id_text(table: Seq<char>, columns: Seq<char>) -> Seq<char> {
    "SELECT "@ + columns + " FROM "@ + table + " WHERE id = ?1"@
}

/// The statement that selects every row in key order.
pub open spec fn select_all_text(table: Seq<char>, columns: Seq<char>) -> Seq<char> {
    "SELECT "@ + columns + " FROM "@ + table + " ORDER BY id"@
}

/// The statement that deletes the row whose key is the first parameter.
pub open spec fn delete_text(table: Seq<char>) -> Seq<char> {
    "DELETE FROM "@ + table + " WHERE id = ?1"@
}

pub fn create_table_sql<T: Model>() -> (r: String)
    ensures
        r@ == create_table_text(T::table(), T::schema_text()),
{
    let table = T::table_name();
    let schema = T::schema();
    "CREATE TABLE IF NOT EXISTS ".to_owned().concat(table.as_str()).concat(" (").concat(schema.as_str()).concat(")")
}

pub fn insert_sql<T: Model>() -> (r: String)
    ensures
        r@ == insert_text(T::table(), T::columns(), T::placeholders()),
{
    let table = T::table_name();
    let columns = T::column_list();
    let placeholders = T::placeholder_list();
    "INSERT OR REPLACE INTO ".to_owned().concat(table.as_str()).concat(" (").concat(columns.as_str()).concat(
        ") VALUES (",
    ).concat(placeholders.as_str()).concat(")")
}

pub fn select_by_id_sql<T: Model>() -> (r: String)
    ensures
        r@ == select_by_id_text(T::table(), T::columns()),
{
    let table = T::table_name();
    let columns = T::column_list();
    "SELECT ".to_owned().concat(columns.as_str()).concat(" FROM ").concat(table.as_str()).concat(" WHERE id = ?1")
}

pub fn select_all_sql<T: Model>() -> (r: String)
    ensures
        r@ == select_all_text(T::table(), T::columns()),
{
    let table = T::table_name();
    let columns = T::column_list();
    "SELECT ".to_owned().concat(columns.as_str()).concat(" FROM ").concat(table.as_str()).concat(" ORDER BY id")
}

pub fn delete_sql<T: Model>() -> (r: String)
    ensures
        r@ == delete_text(T::table()),
{
    let table = T::table_name();
    "DELETE FROM ".to_owned().concat(table.as_str()).concat(" WHERE id = ?1")
}

/// The junction table: owner, related identifier and relation name, each
/// triple at most once.
pub fn create_links_sql() -> (r: String)
    ensures
        r@ == "CREATE TABLE IF NOT EXISTS links (owner INTEGER NOT NULL, related INTEGER NOT NULL, relation TEXT NOT NULL, UNIQUE (owner, related, relation))"@,
{
    "CREATE TABLE IF NOT EXISTS links (owner INTEGER NOT NULL, related INTEGER NOT NULL, relation TEXT NOT NULL, UNIQUE (owner, related, relation))".to_owned()
}

/// Selects the related identifiers of an owner and relation in the order
/// the links were made; parameters as `owner_params`.
pub fn select_links_sql() -> (r: String)
    ensures
        r@ == "SELECT related FROM links WHERE owner = ?1 AND relation = ?2 ORDER BY rowid"@,
{
    "SELECT related FROM links WHERE owner = ?1 AND relation = ?2 ORDER BY rowid".to_owned()
}

/// Deletes every link of an owner and relation; parameters as `owner_params`.
pub fn delete_owner_links_sql() -> (r: String)
    ensures
        r@ == "DELETE FROM links WHERE owner = ?1 AND relation = ?2"@,
{
    "DELETE FROM links WHERE owner = ?1 AND relation = ?2".to_owned()
}

/// Adds one link; parameters as `link_params`.
pub fn insert_link_sql() -> (r: String)
    ensures
        r@ == "INSERT OR IGNORE INTO links (owner, related, relation) VALUES (?1, ?2, ?3)"@,
{
    "INSERT OR IGNORE INTO links (owner, related, relation) VALUES (?1, ?2, ?3)".to_owned()
}

/// Deletes one link; parameters as `link_params`.
pub fn delete_link_sql() -> (r: String)
    ensures
        r@ == "DELETE FROM links WHERE owner = ?1 AND related = ?2 AND relation = ?3"@,
{
    "DELETE FROM links WHERE owner = ?1 AND related = ?2 AND relation = ?3".to_owned()
}

/// The parameters that pick an owner's links under a relation.
pub fn owner_params(owner: i64, rel: Relation) -> (r: Vec<SqlValue>)
    ensures
        r@.len() == 2,
        r@[0]@ == Value::Integer(owner),
        r@[1]@ == Value::Text(relation_name(rel)),
{
    let mut r: Vec<SqlValue> = Vec::new();
    r.push(SqlValue::Integer(owner));
    r.push(SqlValue::Text(rel.name()));
    r
}

/// The parameters of one link.
pub fn link_params(owner: i64, related: i64, rel: Relation) -> (r: Vec<SqlValue>)
    ensures
        r@.len() == 3,
        r@[0]@ == Value::Integer(owner),
        r@[1]@ == Value::Integer(related),
        r@[2]@ == Value::Text(relation_name(rel)),
{
    let mut r: Vec<SqlValue> = Vec::new();
    r.push(SqlValue::Integer(owner));
    r.push(SqlValue::Integer(related));
    r.push(SqlValue::Text(rel.name()));
    r
}

} // verus!
