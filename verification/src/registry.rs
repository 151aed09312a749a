//! The statements with which the registry of saved servers is read and
//! written. The registry itself is kept by the program around the library.

use vstd::prelude::*;
use vstd::string::*;

verus! {

/// The number of columns of a saved server: its identifier, name, address
/// and port, and the times of its creation and last change.
pub const SERVER_COLUMNS: usize = 6;

/// The table that holds the saved servers.
pub open spec fn servers_table() -> Seq<char> {
    "servers"@
}

/// The name of the table that holds the saved servers.
pub fn table_name() -> (name: &'static str)
    ensures
        name@ == servers_table(),
{
    "servers"
}

/// A list of `count` parameter marks, separated by commas.
pub open spec fn placeholders(count: nat) -> Seq<char>
    decreases count,
{
    if count == 0 {
        Seq::empty()
    } else if count == 1 {
        seq!['?']
    } else {
        placeholders((count - 1) as nat) + seq![',', '?']
    }
}

/// The statement that lists every row of a table.
pub open spec fn select_all_text(table: Seq<char>) -> Seq<char> {
    "SELECT * FROM "@ + table
}

/// The statement that finds the row with a given identifier.
pub open spec fn find_by_id_text(table: Seq<char>) -> Seq<char> {
    "SELECT * FROM "@ + table + " WHERE id = ? LIMIT 1"@
}

/// The statement that removes the row with a given identifier.
pub open spec fn delete_text(table: Seq<char>) -> Seq<char> {
    "DELETE FROM "@ + table + " WHERE id = ?"@
}

/// The statement that writes a row of `columns` values, in place of the row
/// with the same identifier if there is one.
pub open spec fn save_text(table: Seq<char>, columns: nat) -> Seq<char> {
    "INSERT OR REPLACE INTO "@ + table + " VALUES ("@ + placeholders(columns) + ")"@
}

/// The statement that lists every row of `table`.
pub fn select_all_statement(table: &str) -> (sql: String)
    ensures
        sql@ == select_all_text(table@),
{
    let mut sql = "SELECT * FROM ".to_owned();
    sql.append(table);
    sql
}

/// The statement that finds the row of `table` with a given identifier.
pub fn find_by_id_statement(table: &str) -> (sql: String)
    ensures
        sql@ == find_by_id_text(table@),
{
    let mut sql = "SELECT * FROM ".to_owned();
    sql.append(table);
    sql.append(" WHERE id = ? LIMIT 1");
    sql
}

/// The statement that removes the row of `table` with a given identifier.
pub fn delete_statement(table: &str) -> (sql: String)
    ensures
        sql@ == delete_text(table@),
{
    let mut sql = "DELETE FROM ".to_owned();
    sql.append(table);
    sql.append(" WHERE id = ?");
    sql
}

/// The statement that writes a row of `columns` values into `table`.
pub fn save_statement(table: &str, columns: usize) -> (sql: String)
    ensures
        sql@ == save_text(table@, columns as nat),
{
    let mut sql = "INSERT OR REPLACE INTO ".to_owned();
    sql.append(table);
    sql.append(" VALUES (");
    let ghost head = sql@;
    proof {
        reveal_strlit("?");
        reveal_strlit(",?");
    }
    let mut written: usize = 0;
    while written < columns
        invariant
            written <= columns,
            sql@ == head + placeholders(written as nat),
            "?"@ =~= seq!['?'],
            ",?"@ =~= seq![',', '?'],
        decreases columns - written,
    {
        if written == 0 {
            sql.append("?");
        } else {
            sql.append(",?");
        }
        written = written + 1;
        assert(sql@ =~= head + placeholders(written as nat));
    }
    sql.append(")");
    sql
}

} // verus!
