//! The statements that reach the SQLite engine, and the clock.
//!
//! Nothing in this module is proved. Each function here makes one call into
//! `rusqlite` or `chrono`, and its contract says only what holds of every
//! answer of that call. What the rows of the store are is never claimed
//! here: the data file belongs to the engine and to whoever else writes it.

use crate::amount::Amount;
use crate::bill::{Bill, BillItem};
use crate::error::EngineFailure;
use crate::product::{DeletedProduct, Product};
use rusqlite::types::Value;
use rusqlite::{Connection, Error};
use vstd::prelude::*;

verus! {

#[verifier::external_type_specification]
#[verifier::external_body]
pub struct ExConnection(rusqlite::Connection);

#[verifier::external_type_specification]
#[verifier::external_body]
pub struct ExError(rusqlite::Error);

/// Whether a transaction is open on the connection: the handle is not in
/// autocommit mode.
pub uninterp spec fn in_transaction(conn: Connection) -> bool;

/// The variant of a failure, as far as the library tells variants apart.
pub uninterp spec fn failure_of(e: Error) -> EngineFailure;

/// The words in which a failure describes itself.
pub uninterp spec fn words_of(e: Error) -> Seq<char>;

/// The bit pattern of `quantity * price` as the engine computes it in
/// doubles, from the whole number and the bit pattern of `price`.
pub uninterp spec fn product_of(quantity: int, price: u64) -> u64;

/// The bit pattern of `sum + line` as the engine computes it in doubles,
/// from the bit patterns of the two.
pub uninterp spec fn sum_of(sum: u64, line: u64) -> u64;

/// The statements that lay down the four relations and the index on product
/// names, each only where it does not exist yet.
pub const SCHEMA: &'static str = "CREATE TABLE IF NOT EXISTS products (
            id INTEGER PRIMARY KEY AUTOINCREMENT,
            name TEXT NOT NULL,
            price REAL NOT NULL,
            quantity INTEGER NOT NULL DEFAULT 0
        );
        CREATE INDEX IF NOT EXISTS idx_products_name ON products(name);
        CREATE TABLE IF NOT EXISTS bills (
            id INTEGER PRIMARY KEY AUTOINCREMENT,
            date TEXT NOT NULL,
            total REAL NOT NULL
        );
        CREATE TABLE IF NOT EXISTS bill_items (
            id INTEGER PRIMARY KEY AUTOINCREMENT,
            bill_id INTEGER NOT NULL,
            product_name TEXT NOT NULL,
            quantity INTEGER NOT NULL,
            price_per_item REAL NOT NULL,
            FOREIGN KEY (bill_id) REFERENCES bills(id)
        );
        CREATE TABLE IF NOT EXISTS deleted_products (
            id INTEGER,
            name TEXT NOT NULL,
            price REAL NOT NULL,
            quantity INTEGER NOT NULL,
            deleted_at TEXT NOT NULL
        );";

/// `Connection::execute_batch` with the statements that create the four
/// relations and the index on product names, each only if it does not exist
/// yet.
#[verifier::external_body]
pub(crate) fn create_relations(conn: &mut Connection) -> (r: Result<(), Error>) {
    conn.execute_batch(SCHEMA)
}

/// `Connection::execute` with the statement that adds the `quantity` column,
/// default 0, to `products`. The result is the number of rows that the
/// engine reports as changed.
#[verifier::external_body]
pub(crate) fn add_quantity_column(conn: &mut Connection) -> (r: Result<usize, Error>) {
    conn.execute("ALTER TABLE products ADD COLUMN quantity INTEGER NOT NULL DEFAULT 0", ())
}

/// `Connection::execute_batch` with `BEGIN DEFERRED`, the statement that
/// `Connection::transaction` runs. It succeeds only where no transaction was
/// open, and then one is open. On failure the handle is as it was.
#[verifier::external_body]
pub(crate) fn begin(conn: &mut Connection) -> (r: Result<(), Error>)
    ensures
        r is Ok ==> !in_transaction(*old(conn)) && in_transaction(*final(conn)),
        r is Err ==> in_transaction(*final(conn)) == in_transaction(*old(conn)),
{
    conn.execute_batch("BEGIN DEFERRED")
}

/// `Connection::execute_batch` with `COMMIT`, the statement that
/// `Transaction::commit` runs. On success no transaction is open.
#[verifier::external_body]
pub(crate) fn commit(conn: &mut Connection) -> (r: Result<(), Error>)
    ensures
        r is Ok ==> !in_transaction(*final(conn)),
{
    conn.execute_batch("COMMIT")
}

/// `Connection::execute_batch` with `ROLLBACK`, the statement that a
/// dropped `Transaction` runs, its result ignored in the same way: where no
/// transaction is open the statement fails. Afterwards none is open.
#[verifier::external_body]
pub(crate) fn rollback(conn: &mut Connection)
    ensures
        !in_transaction(*final(conn)),
{
    let _ = conn.execute_batch("ROLLBACK");
}

/// `Connection::execute` with the INSERT into `products`. The result is the
/// number of rows that the engine reports as changed.
#[verifier::external_body]
pub(crate) fn insert_product(conn: &mut Connection, name: &str, price: &Amount, quantity: i32) -> (r: Result<
    usize,
    Error,
>) {
    conn.execute("INSERT INTO products (name, price, quantity) VALUES (?1, ?2, ?3)", (name, &price.value, quantity))
}

/// `Connection::prepare` and `Statement::query_map` with the SELECT of all
/// products in ascending order of `id`. Nothing is claimed of the order of
/// what comes back: it is tested where it is used.
#[verifier::external_body]
pub(crate) fn select_products(conn: &Connection) -> (r: Result<Vec<Product>, Error>) {
    conn.prepare("SELECT id, name, price, quantity FROM products ORDER BY id")?.query_map(
        (),
        |row| Ok(Product {
            id: row.get(0)?,
            name: row.get(1)?,
            price: Amount { value: Value::Real(row.get(2)?) },
            quantity: row.get(3)?,
        }),
    )?.collect()
}

/// `Connection::execute` with the UPDATE of the product `id`. The result is
/// the number of rows that the engine reports as changed.
#[verifier::external_body]
pub(crate) fn update_product_row(conn: &mut Connection, id: i32, name: &str, price: &Amount, quantity: i32) -> (r:
    Result<usize, Error>) {
    conn.execute(
        "UPDATE products SET name = ?1, price = ?2, quantity = ?3 WHERE id = ?4",
        (name, &price.value, quantity, id),
    )
}

/// `Connection::prepare`, `Statement::query` and `Rows::next` with the SELECT
/// of the product `id`. A row that is handed back has that `id`.
#[verifier::external_body]
pub(crate) fn select_product(conn: &Connection, id: i32) -> (r: Result<Option<Product>, Error>)
    ensures
        r matches Ok(Some(p)) ==> p.id == id,
{
    let mut stmt = conn.prepare("SELECT id, name, price, quantity FROM products WHERE id = ?1 LIMIT 1")?;
    let mut rows = stmt.query((id,))?;
    match rows.next()? {
        Some(row) => Ok(Some(Product {
            id: row.get(0)?,
            name: row.get(1)?,
            price: Amount { value: Value::Real(row.get(2)?) },
            quantity: row.get(3)?,
        })),
        None => Ok(None),
    }
}

/// `Connection::prepare`, `Statement::query` and `Rows::next` with the SELECT
/// of the product `id` whose name equals `name` byte for byte. A row that is
/// handed back has that `id` and that name.
#[verifier::external_body]
pub(crate) fn select_product_named(conn: &Connection, id: i32, name: &str) -> (r: Result<Option<Product>, Error>)
    ensures
        r matches Ok(Some(p)) ==> p.id == id && p.name@ == name@,
{
    let mut stmt = conn.prepare(
        "SELECT id, name, price, quantity FROM products WHERE id = ?1 AND name = ?2 COLLATE BINARY LIMIT 1",
    )?;
    let mut rows = stmt.query((id, name))?;
    match rows.next()? {
        Some(row) => Ok(Some(Product {
            id: row.get(0)?,
            name: row.get(1)?,
            price: Amount { value: Value::Real(row.get(2)?) },
            quantity: row.get(3)?,
        })),
        None => Ok(None),
    }
}

/// `Connection::execute` with the INSERT into `deleted_products`. The result
/// is the number of rows that the engine reports as changed.
#[verifier::external_body]
pub(crate) fn insert_archived(conn: &mut Connection, p: &Product, deleted_at: &str) -> (r: Result<usize, Error>) {
    conn.execute(
        "INSERT INTO deleted_products (id, name, price, quantity, deleted_at) VALUES (?1, ?2, ?3, ?4, ?5)",
        (p.id, &p.name, &p.price.value, p.quantity, deleted_at),
    )
}

/// `Connection::execute` with the DELETE of the product `id`. The result is
/// the number of rows that the engine reports as changed.
#[verifier::external_body]
pub(crate) fn delete_product_row(conn: &mut Connection, id: i32) -> (r: Result<usize, Error>) {
    conn.execute("DELETE FROM products WHERE id = ?1", (id,))
}

/// `Connection::prepare` and `Statement::query_map` with the SELECT of the
/// archive, each row with its row number, in descending order of
/// `deleted_at` as the store compares its bytes and, among equal times, of
/// the row number. Nothing is claimed of the order of what comes back: it
/// is tested where it is used.
#[verifier::external_body]
pub(crate) fn select_archived(conn: &Connection) -> (r: Result<Vec<DeletedProduct>, Error>) {
    conn.prepare(
        "SELECT rowid, id, name, price, quantity, deleted_at FROM deleted_products
         ORDER BY deleted_at COLLATE BINARY DESC, rowid DESC",
    )?.query_map(
        (),
        |row| Ok(DeletedProduct {
            serial: row.get(0)?,
            id: row.get(1)?,
            name: row.get(2)?,
            price: Amount { value: Value::Real(row.get(3)?) },
            quantity: row.get(4)?,
            deleted_at: row.get(5)?,
        }),
    )?.collect()
}

/// `Connection::prepare` and `Statement::insert` with the INSERT into
/// `bills`, whose date is the engine's `datetime('now')`. The result is the
/// row number that the engine reports for the new row.
#[verifier::external_body]
pub(crate) fn insert_bill(conn: &mut Connection, total: &Amount) -> (r: Result<i64, Error>) {
    conn.prepare("INSERT INTO bills (date, total) VALUES (datetime('now'), ?1)")?.insert((&total.value,))
}

/// `Connection::execute` with the INSERT into `bill_items`. The result is
/// the number of rows that the engine reports as changed.
#[verifier::external_body]
pub(crate) fn insert_item(conn: &mut Connection, bill_id: i64, item: &BillItem) -> (r: Result<usize, Error>) {
    conn.execute(
        "INSERT INTO bill_items (bill_id, product_name, quantity, price_per_item)
                 VALUES (?1, ?2, ?3, ?4)",
        (bill_id, &item.product_name, item.quantity, &item.price_per_item.value),
    )
}

/// `Connection::query_row` with `SELECT ?1 * ?2`: the engine's product of a
/// whole number and a REAL. The result depends on the two numbers alone.
/// Where it is not a number the call fails.
#[verifier::external_body]
pub(crate) fn times(conn: &Connection, quantity: i32, price: &Amount) -> (r: Result<Amount, Error>)
    ensures
        r matches Ok(a) ==> a@ == product_of(quantity as int, price@),
{
    conn.query_row("SELECT ?1 * ?2", (quantity, &price.value), |row| Ok(Amount { value: Value::Real(row.get(0)?) }))
}

/// `Connection::query_row` with `SELECT ?1 + ?2`: the engine's sum of two
/// REALs. The result depends on the two numbers alone. Where it is not a
/// number the call fails.
#[verifier::external_body]
pub(crate) fn plus(conn: &Connection, sum: &Amount, line: &Amount) -> (r: Result<Amount, Error>)
    ensures
        r matches Ok(a) ==> a@ == sum_of(sum@, line@),
{
    conn.query_row("SELECT ?1 + ?2", (&sum.value, &line.value), |row| Ok(Amount { value: Value::Real(row.get(0)?) }))
}

/// `Connection::prepare` and `Statement::query_map` with the SELECT of all
/// bill headers in descending order of `id`. Nothing is claimed of the
/// order of what comes back: it is tested where it is used. The items are
/// not read here.
#[verifier::external_body]
pub(crate) fn select_bills(conn: &Connection) -> (r: Result<Vec<Bill>, Error>) {
    conn.prepare("SELECT id, date, total FROM bills ORDER BY id DESC")?.query_map(
        (),
        |row| Ok(Bill {
            id: row.get(0)?,
            date: row.get(1)?,
            total: Amount { value: Value::Real(row.get(2)?) },
            items: Vec::new(),
        }),
    )?.collect()
}

/// `Connection::prepare` and `Statement::query_map` with the SELECT of the
/// items of one bill in ascending order of their `id`.
#[verifier::external_body]
pub(crate) fn select_items(conn: &Connection, bill_id: i64) -> (r: Result<Vec<BillItem>, Error>) {
    conn.prepare(
        "SELECT product_name, quantity, price_per_item FROM bill_items WHERE bill_id = ?1 ORDER BY id",
    )?.query_map(
        [bill_id],
        |row| Ok(BillItem {
            product_name: row.get(0)?,
            quantity: row.get(1)?,
            price_per_item: Amount { value: Value::Real(row.get(2)?) },
        }),
    )?.collect()
}

/// `SystemTime::now` and `SystemTime::duration_since`: the whole seconds
/// that the clock of the machine reads since the beginning of 1970, and
/// `None` where it reads an earlier time. Nothing is claimed of the number.
#[verifier::external_body]
pub(crate) fn clock_seconds() -> (seconds: Option<u64>) {
    std::time::SystemTime::now().duration_since(std::time::UNIX_EPOCH).ok().map(|since| since.as_secs())
}

/// `DateTime::from_timestamp`, `DateTime::with_timezone` for the local zone
/// and `DateTime::format` with `%Y-%m-%d %H:%M:%S`: the local time that is
/// so many seconds after the beginning of 1970, and `None` where the
/// calendar holds no such time. Nothing is claimed of the text: its shape
/// is tested where it is used.
#[verifier::external_body]
pub(crate) fn local_text(seconds: u64) -> (text: Option<String>) {
    let utc = chrono::DateTime::from_timestamp(i64::try_from(seconds).ok()?, 0)?;
    Some(utc.with_timezone(&chrono::Local).format("%Y-%m-%d %H:%M:%S").to_string())
}

/// Tells the variants of `rusqlite::Error` apart, and for a failure that
/// the engine reported, its code: one arm for each that the library knows.
#[verifier::external_body]
pub(crate) fn failure_class(e: &Error) -> (c: EngineFailure)
    ensures
        c == failure_of(*e),
{
    match e {
        Error::SqliteFailure(f, _) => match f.code {
            rusqlite::ErrorCode::ConstraintViolation => EngineFailure::Constraint,
            rusqlite::ErrorCode::TypeMismatch => EngineFailure::TypeMismatch,
            _ => EngineFailure::OtherCode,
        },
        Error::FromSqlConversionFailure(..) => EngineFailure::FromSql,
        Error::IntegralValueOutOfRange(..) => EngineFailure::OutOfRange,
        Error::InvalidColumnType(..) => EngineFailure::ColumnType,
        Error::ToSqlConversionFailure(..) => EngineFailure::ToSql,
        _ => EngineFailure::Other,
    }
}

/// `ToString::to_string` on a `rusqlite::Error`: the words in which the
/// failure describes itself, which depend on the failure alone.
#[verifier::external_body]
pub(crate) fn error_text(e: &Error) -> (s: String)
    ensures
        s@ == words_of(*e),
{
    e.to_string()
}

} // verus!
