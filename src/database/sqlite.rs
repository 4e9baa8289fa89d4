use vstd::prelude::*;
use rusqlite::{Connection, OptionalExtension};

verus! {

#[verifier::external_type_specification]
#[verifier::external_body]
pub struct ExConnection(rusqlite::Connection);

#[verifier::external_type_specification]
#[verifier::external_body]
pub struct ExSqliteError(rusqlite::Error);

/// The rows of `input_mapping`, by `button_id`; none while the table does
/// not exist.
pub uninterp spec fn input_rows(c: rusqlite::Connection) -> Map<u8, Seq<char>>;

/// The rows of `image_mapping`, by `display_zone_id`; none while the table
/// does not exist.
pub uninterp spec fn image_rows(c: rusqlite::Connection) -> Map<u8, Seq<char>>;

/// The rows of `config_mapping`, brightness by `id`; none while the table
/// does not exist.
pub uninterp spec fn config_rows(c: rusqlite::Connection) -> Map<u8, u8>;

/// A table with no rows.
pub open spec fn no_rows<V>(m: Map<u8, V>) -> bool {
    m == Map::<u8, V>::empty()
}

/// The three tables hold the same rows in both connections.
pub open spec fn same_rows(a: rusqlite::Connection, b: rusqlite::Connection) -> bool {
    &&& input_rows(a) == input_rows(b)
    &&& image_rows(a) == image_rows(b)
    &&& config_rows(a) == config_rows(b)
}

/// `rows` lists each entry of `m` exactly once.
pub open spec fn lists_rows(rows: Seq<(u8, String)>, m: Map<u8, Seq<char>>) -> bool {
    &&& forall|i: int| 0 <= i < rows.len() ==> #[trigger] m.contains_key(rows[i].0) && m[rows[i].0] == rows[i].1@
    &&& forall|i: int, j: int| 0 <= i < j < rows.len() ==> rows[i].0 != rows[j].0
    &&& forall|k: u8| m.contains_key(k) ==> exists|i: int| 0 <= i < rows.len() && #[trigger] rows[i].0 == k
}

/// Relies on rusqlite's `Connection::open_in_memory`: a new in-memory
/// database holds no tables.
#[verifier::external_body]
pub(crate) fn open_in_memory() -> (r: Result<Connection, rusqlite::Error>)
    ensures
        r matches Ok(c) ==> no_rows(input_rows(c)) && no_rows(image_rows(c)) && no_rows(
            config_rows(c),
        ),
{
    Connection::open_in_memory()
}

/// Relies on rusqlite's `Connection::open`, which opens or creates the
/// database file at `path`; what it holds is not known.
#[verifier::external_body]
pub(crate) fn open_file(path: &str) -> (r: Result<Connection, rusqlite::Error>) {
    Connection::open(path)
}

/// Relies on rusqlite's `Connection::execute` running one statement, which
/// SQLite applies whole or not at all. Creating a table that may already
/// exist leaves every row as it was. Each of the three tables is tried; the
/// result is that of the last.
#[verifier::external_body]
pub(crate) fn create_tables(c: &mut Connection) -> (r: Result<usize, rusqlite::Error>)
    ensures
        same_rows(*final(c), *old(c)),
{
    let _ = c.execute(
        "CREATE TABLE IF NOT EXISTS input_mapping (button_id INTEGER PRIMARY KEY, actions TEXT NOT NULL);",
        (),
    );
    let _ = c.execute(
        "CREATE TABLE IF NOT EXISTS image_mapping (display_zone_id INTEGER PRIMARY KEY, image_path TEXT NOT NULL);",
        (),
    );
    c.execute(
        "CREATE TABLE IF NOT EXISTS config_mapping (id INTEGER PRIMARY KEY DEFAULT 1 CHECK (id = 1), brightness INTEGER);",
        (),
    )
}

/// Relies on rusqlite's `Connection::execute` running an upsert, which
/// SQLite applies whole or not at all: the row for `id` holds `actions`.
#[verifier::external_body]
pub(crate) fn upsert_input_row(c: &mut Connection, id: u8, actions: &str) -> (r: Result<
    usize,
    rusqlite::Error,
>)
    ensures
        r is Ok ==> input_rows(*final(c)) == input_rows(*old(c)).insert(id, actions@)
            && image_rows(*final(c)) == image_rows(*old(c)) && config_rows(*final(c))
            == config_rows(*old(c)),
        r is Err ==> same_rows(*final(c), *old(c)),
{
    c.execute(
        "INSERT INTO input_mapping (button_id, actions) VALUES (?1, ?2) ON CONFLICT(button_id) DO UPDATE SET actions=?2",
        (id, actions),
    )
}

/// Relies on rusqlite's `Connection::execute` running an upsert, which
/// SQLite applies whole or not at all: the row for `zone` holds `path`.
#[verifier::external_body]
pub(crate) fn upsert_image_row(c: &mut Connection, zone: u8, path: &str) -> (r: Result<
    usize,
    rusqlite::Error,
>)
    ensures
        r is Ok ==> image_rows(*final(c)) == image_rows(*old(c)).insert(zone, path@)
            && input_rows(*final(c)) == input_rows(*old(c)) && config_rows(*final(c))
            == config_rows(*old(c)),
        r is Err ==> same_rows(*final(c), *old(c)),
{
    c.execute(
        "INSERT INTO image_mapping (display_zone_id, image_path) VALUES (?1, ?2) ON CONFLICT(display_zone_id) DO UPDATE SET image_path=?2",
        (zone, path),
    )
}

/// Relies on rusqlite's `Connection::execute` running a delete, which
/// SQLite applies whole or not at all: no row for `zone` remains.
#[verifier::external_body]
pub(crate) fn delete_image_row(c: &mut Connection, zone: u8) -> (r: Result<usize, rusqlite::Error>)
    ensures
        r is Ok ==> image_rows(*final(c)) == image_rows(*old(c)).remove(zone)
            && input_rows(*final(c)) == input_rows(*old(c)) && config_rows(*final(c))
            == config_rows(*old(c)),
        r is Err ==> same_rows(*final(c), *old(c)),
{
    c.execute("DELETE FROM image_mapping WHERE display_zone_id = ?1", (zone,))
}

/// Relies on rusqlite's `Connection::execute` running a delete, which
/// SQLite applies whole or not at all: no image row remains.
#[verifier::external_body]
pub(crate) fn delete_all_image_rows(c: &mut Connection) -> (r: Result<usize, rusqlite::Error>)
    ensures
        r is Ok ==> no_rows(image_rows(*final(c)))
            && input_rows(*final(c)) == input_rows(*old(c)) && config_rows(*final(c))
            == config_rows(*old(c)),
        r is Err ==> same_rows(*final(c), *old(c)),
{
    c.execute("DELETE FROM image_mapping", ())
}

/// Relies on rusqlite's `Connection::execute` running an upsert, which
/// SQLite applies whole or not at all: the single row holds `brightness`.
#[verifier::external_body]
pub(crate) fn upsert_brightness_row(c: &mut Connection, brightness: u8) -> (r: Result<
    usize,
    rusqlite::Error,
>)
    ensures
        r is Ok ==> config_rows(*final(c)) == config_rows(*old(c)).insert(1u8, brightness)
            && input_rows(*final(c)) == input_rows(*old(c)) && image_rows(*final(c))
            == image_rows(*old(c)),
        r is Err ==> same_rows(*final(c), *old(c)),
{
    c.execute(
        "INSERT INTO config_mapping (id, brightness) VALUES (1, ?1) ON CONFLICT(id) DO UPDATE SET brightness=?1",
        (brightness,),
    )
}

/// Relies on rusqlite's `Connection::query_row` with `optional`: the
/// brightness of the single row, or `None` when there is no row.
#[verifier::external_body]
pub(crate) fn query_brightness(c: &Connection) -> (r: Result<Option<u8>, rusqlite::Error>)
    ensures
        r matches Ok(b) ==> b == (if config_rows(*c).contains_key(1u8) {
            Some(config_rows(*c)[1u8])
        } else {
            None
        }),
{
    c.query_row("SELECT brightness FROM config_mapping WHERE id = 1", (), |row| row.get(0))
        .optional()
}

/// Relies on rusqlite's `Statement::query_map` over every row of
/// `input_mapping`, whose primary key makes each identifier appear once.
#[verifier::external_body]
pub(crate) fn query_input_rows(c: &Connection) -> (r: Result<Vec<(u8, String)>, rusqlite::Error>)
    ensures
        r matches Ok(rows) ==> lists_rows(rows@, input_rows(*c)),
{
    let mut stmt = c.prepare("SELECT button_id, actions FROM input_mapping")?;
    let rows = stmt.query_map((), |row| Ok((row.get(0)?, row.get(1)?)))?;
    rows.collect()
}

/// Relies on rusqlite's `Statement::query_map` over every row of
/// `image_mapping`, whose primary key makes each zone appear once.
#[verifier::external_body]
pub(crate) fn query_image_rows(c: &Connection) -> (r: Result<Vec<(u8, String)>, rusqlite::Error>)
    ensures
        r matches Ok(rows) ==> lists_rows(rows@, image_rows(*c)),
{
    let mut stmt = c.prepare("SELECT display_zone_id, image_path FROM image_mapping")?;
    let rows = stmt.query_map((), |row| Ok((row.get(0)?, row.get(1)?)))?;
    rows.collect()
}

/// A connection to the configuration database, which may have been closed.
pub struct SqLite {
    pub connection: Option<Connection>,
}

/// Where the configuration is kept between runs.
pub const DB_PATH: &'static str = "./ajazz_launchpad_db.db3";

impl SqLite {
    /// Opens the database file when `persisted`, else a new in-memory
    /// database, which holds nothing.
    pub fn new(persisted: bool) -> (r: Result<SqLite, rusqlite::Error>)
        ensures
            r matches Ok(db) ==> db.connection is Some,
            !persisted ==> (r matches Ok(db) ==> no_rows(input_rows(db.connection->0))
                && no_rows(image_rows(db.connection->0))
                && no_rows(config_rows(db.connection->0))),
    {
        let connection = if persisted {
            open_file(DB_PATH)?
        } else {
            open_in_memory()?
        };
        Ok(SqLite { connection: Some(connection) })
    }

    /// Closes the connection; afterwards there is none.
    pub fn close(&mut self)
        ensures
            final(self).connection is None,
    {
        self.connection = None;
    }

    /// The open connection, if any.
    pub fn connection(&self) -> (r: Option<&Connection>)
        ensures
            r is Some <==> self.connection is Some,
            r matches Some(c) ==> *c == self.connection->0,
    {
        self.connection.as_ref()
    }
}

} // verus!
