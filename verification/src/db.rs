//! The persistence layer: two independent transactional operations over the
//! `genres` and `artists` relations, plus schema creation and the read-back
//! of stored genres.
//!
//! The store itself is reached through `rusqlite` behind trusted wrappers,
//! one per SQL statement. The wrappers speak about the store through named
//! contents: the rows each relation holds as seen by this connection
//! (`db_genres`, `db_artists`), the rows that are committed
//! (`db_saved_genres`, `db_saved_artists`), and whether an explicit
//! transaction is open (`db_in_txn`). The transactional shape of each
//! operation — all rows land, or none do — is verified against those
//! contracts.

use vstd::prelude::*;

use crate::scrape::GenrePageData;

verus! {

/// A stored genre row: store-assigned id, display name, and the two
/// JSON-encoded relationship lists, absent until the genre is enriched.
#[derive(Debug)]
pub struct Genre {
    pub id: i32,
    pub name: String,
    pub similar_genres: Option<String>,
    pub opposite_genres: Option<String>,
}

impl View for Genre {
    type V = (int, Seq<char>, Option<Seq<char>>, Option<Seq<char>>);

    open spec fn view(&self) -> (int, Seq<char>, Option<Seq<char>>, Option<Seq<char>>) {
        (self.id as int, self.name@, self.similar_genres.deep_view(), self.opposite_genres.deep_view())
    }
}

impl DeepView for Genre {
    type V = (int, Seq<char>, Option<Seq<char>>, Option<Seq<char>>);

    open spec fn deep_view(&self) -> (int, Seq<char>, Option<Seq<char>>, Option<Seq<char>>) {
        self.view()
    }
}

/// A stored artist row: store-assigned id, the owning genre, the derived
/// display name, and the non-empty audio preview link.
#[derive(Debug)]
pub struct Artist {
    pub id: i32,
    pub genre_id: i32,
    pub name: String,
    pub audio_link: String,
}

impl View for Artist {
    type V = (int, Seq<char>, Seq<char>);

    open spec fn view(&self) -> (int, Seq<char>, Seq<char>) {
        (self.genre_id as int, self.name@, self.audio_link@)
    }
}

/// What a persistence operation failed on: the store itself, or the JSON
/// encoding of a relationship list.
#[derive(Debug)]
pub enum DbError {
    Store(rusqlite::Error),
    Serialization(serde_json::Error),
}

#[verifier::external_type_specification]
#[verifier::external_body]
pub struct ExConnection(rusqlite::Connection);

#[verifier::external_type_specification]
#[verifier::external_body]
pub struct ExSqlError(rusqlite::Error);

#[verifier::external_type_specification]
#[verifier::external_body]
pub struct ExJsonError(serde_json::Error);

/// The rows of the `genres` relation as this connection sees them, in rowid
/// order: id, name, similar list, opposite list.
pub uninterp spec fn db_genres(c: rusqlite::Connection) -> Seq<
    (int, Seq<char>, Option<Seq<char>>, Option<Seq<char>>),
>;

/// The rows of the `artists` relation as this connection sees them, in
/// rowid order: owning genre id, name, audio link.
pub uninterp spec fn db_artists(c: rusqlite::Connection) -> Seq<(int, Seq<char>, Seq<char>)>;

/// The committed rows of the `genres` relation.
pub uninterp spec fn db_saved_genres(c: rusqlite::Connection) -> Seq<
    (int, Seq<char>, Option<Seq<char>>, Option<Seq<char>>),
>;

/// The committed rows of the `artists` relation.
pub uninterp spec fn db_saved_artists(c: rusqlite::Connection) -> Seq<(int, Seq<char>, Seq<char>)>;

/// Whether an explicit transaction is open on this connection.
pub uninterp spec fn db_in_txn(c: rusqlite::Connection) -> bool;

/// Whether the `genres` and `artists` relations exist, with their schema,
/// as this connection sees them.
pub uninterp spec fn db_schema_ready(c: rusqlite::Connection) -> bool;

/// The JSON array text that encodes an ordered list of strings.
pub uninterp spec fn json_list_of(items: Seq<Seq<char>>) -> Seq<char>;

/// Relies on serde_json::to_string applied to a vector of strings: on
/// success the result is the JSON array text for exactly that list.
#[verifier::external_body]
fn json_encode_list(items: &Vec<String>) -> (r: Result<String, serde_json::Error>)
    ensures
        r is Ok ==> r->Ok_0@ == json_list_of(items.deep_view()),
{
    serde_json::to_string(items)
}

/// Relies on rusqlite's `Connection::execute_batch` with `BEGIN`: opens an
/// explicit transaction and touches no rows. Outside a transaction, SQLite
/// runs in autocommit mode, so the rows the connection sees are the
/// committed rows.
#[verifier::external_body]
fn db_begin(conn: &mut rusqlite::Connection) -> (r: Result<(), rusqlite::Error>)
    requires
        !db_in_txn(*old(conn)),
    ensures
        db_genres(*old(conn)) == db_saved_genres(*old(conn)),
        db_artists(*old(conn)) == db_saved_artists(*old(conn)),
        db_genres(*final(conn)) == db_genres(*old(conn)),
        db_artists(*final(conn)) == db_artists(*old(conn)),
        db_saved_genres(*final(conn)) == db_saved_genres(*old(conn)),
        db_saved_artists(*final(conn)) == db_saved_artists(*old(conn)),
        db_schema_ready(*final(conn)) == db_schema_ready(*old(conn)),
        r is Ok ==> db_in_txn(*final(conn)),
        r is Err ==> !db_in_txn(*final(conn)),
{
    conn.execute_batch("BEGIN")
}

/// Relies on rusqlite's `Connection::execute_batch` with `COMMIT`: on
/// success the open transaction's rows become the committed rows; on
/// failure nothing new is committed.
#[verifier::external_body]
fn db_commit(conn: &mut rusqlite::Connection) -> (r: Result<(), rusqlite::Error>)
    requires
        db_in_txn(*old(conn)),
    ensures
        r is Ok ==> !db_in_txn(*final(conn)) && db_genres(*final(conn)) == db_genres(*old(conn))
            && db_artists(*final(conn)) == db_artists(*old(conn)) && db_saved_genres(
            *final(conn),
        ) == db_genres(*old(conn)) && db_saved_artists(*final(conn)) == db_artists(*old(conn))
            && db_schema_ready(*final(conn)) == db_schema_ready(*old(conn)),
        r is Err ==> db_saved_genres(*final(conn)) == db_saved_genres(*old(conn))
            && db_saved_artists(*final(conn)) == db_saved_artists(*old(conn)),
{
    conn.execute_batch("COMMIT")
}

/// Relies on rusqlite's `Connection::execute_batch` with `ROLLBACK`: any
/// open transaction is abandoned, the committed rows stand, and the
/// connection is back in autocommit mode seeing exactly them. A failure
/// (no transaction was active) is ignored; the claim holds either way.
/// Nothing is claimed of the schema: a rollback undoes uncommitted schema
/// changes too, and this library only creates tables outside transactions.
#[verifier::external_body]
fn db_rollback(conn: &mut rusqlite::Connection)
    ensures
        !db_in_txn(*final(conn)),
        db_saved_genres(*final(conn)) == db_saved_genres(*old(conn)),
        db_saved_artists(*final(conn)) == db_saved_artists(*old(conn)),
        db_genres(*final(conn)) == db_saved_genres(*final(conn)),
        db_artists(*final(conn)) == db_saved_artists(*final(conn)),
{
    let _ = conn.execute_batch("ROLLBACK");
}

/// Relies on rusqlite's `Connection::execute` with
/// `CREATE TABLE IF NOT EXISTS` for the two relations: on success both
/// relations exist, and existing rows are never touched, whether or not
/// the tables were already there.
#[verifier::external_body]
fn db_create_tables(conn: &mut rusqlite::Connection) -> (r: Result<(), rusqlite::Error>)
    requires
        !db_in_txn(*old(conn)),
    ensures
        !db_in_txn(*final(conn)),
        db_genres(*final(conn)) == db_genres(*old(conn)),
        db_artists(*final(conn)) == db_artists(*old(conn)),
        db_saved_genres(*final(conn)) == db_saved_genres(*old(conn)),
        db_saved_artists(*final(conn)) == db_saved_artists(*old(conn)),
        r is Ok ==> db_schema_ready(*final(conn)),
{
    conn.execute(
        "CREATE TABLE IF NOT EXISTS genres (
            id INTEGER PRIMARY KEY,
            name TEXT NOT NULL,
            similar_genres TEXT,
            opposite_genres TEXT
        )",
        [],
    )?;
    conn.execute(
        "CREATE TABLE IF NOT EXISTS artists (
            id INTEGER PRIMARY KEY,
            genre_id INTEGER NOT NULL,
            name TEXT NOT NULL,
            audio_link TEXT NOT NULL,
            FOREIGN KEY (genre_id) REFERENCES genres (id)
        )",
        [],
    )?;
    Ok(())
}

/// Relies on rusqlite's `Connection::execute` with
/// `INSERT INTO genres (name) VALUES (?1)`: on success exactly one row is
/// appended, bearing a store-assigned id no existing row bears and empty
/// relationship lists; on failure the statement changes nothing. That the
/// row lands at the end of rowid order rests on SQLite assigning one more
/// than the largest rowid in use; that holds as long as no row bears the
/// largest representable id, which inserts through this library never
/// produce.
#[verifier::external_body]
fn db_insert_genre_row(conn: &mut rusqlite::Connection, name: &str) -> (r: Result<
    (),
    rusqlite::Error,
>)
    requires
        db_in_txn(*old(conn)),
    ensures
        db_in_txn(*final(conn)),
        db_schema_ready(*final(conn)) == db_schema_ready(*old(conn)),
        db_artists(*final(conn)) == db_artists(*old(conn)),
        db_saved_genres(*final(conn)) == db_saved_genres(*old(conn)),
        db_saved_artists(*final(conn)) == db_saved_artists(*old(conn)),
        r is Ok ==> exists|id: int|
            (forall|j: int|
                0 <= j < db_genres(*old(conn)).len() ==> (#[trigger] db_genres(*old(conn))[j]).0
                    != id) && db_genres(*final(conn)) == db_genres(*old(conn)).push(
                (id, name@, None::<Seq<char>>, None::<Seq<char>>),
            ),
        r is Err ==> db_genres(*final(conn)) == db_genres(*old(conn)),
{
    conn.execute("INSERT INTO genres (name) VALUES (?1)", (name,)).map(|_| ())
}

/// Relies on rusqlite's `Connection::execute` with `UPDATE genres SET
/// similar_genres = ?1, opposite_genres = ?2 WHERE id = ?3`: on success
/// every row bearing the id carries the two texts, all else stands; on
/// failure the statement changes nothing.
#[verifier::external_body]
fn db_update_genre_lists(
    conn: &mut rusqlite::Connection,
    id: i32,
    similar: &str,
    opposite: &str,
) -> (r: Result<(), rusqlite::Error>)
    requires
        db_in_txn(*old(conn)),
    ensures
        db_in_txn(*final(conn)),
        db_schema_ready(*final(conn)) == db_schema_ready(*old(conn)),
        db_artists(*final(conn)) == db_artists(*old(conn)),
        db_saved_genres(*final(conn)) == db_saved_genres(*old(conn)),
        db_saved_artists(*final(conn)) == db_saved_artists(*old(conn)),
        r is Ok ==> db_genres(*final(conn)) == updated_rows(
            db_genres(*old(conn)),
            id as int,
            similar@,
            opposite@,
        ),
        r is Err ==> db_genres(*final(conn)) == db_genres(*old(conn)),
{
    conn.execute(
        "UPDATE genres SET similar_genres = ?1, opposite_genres = ?2 WHERE id = ?3",
        (similar, opposite, id),
    ).map(|_| ())
}

/// Relies on rusqlite's `Connection::execute` with `INSERT INTO artists
/// (genre_id, name, audio_link) VALUES (?1, ?2, ?3)`: on success exactly
/// one artist row is appended; on failure the statement changes nothing.
/// The appended-at-end reading rests on SQLite's rowid assignment, as for
/// the genre insert above.
#[verifier::external_body]
fn db_insert_artist_row(
    conn: &mut rusqlite::Connection,
    genre_id: i32,
    name: &str,
    audio_link: &str,
) -> (r: Result<(), rusqlite::Error>)
    requires
        db_in_txn(*old(conn)),
    ensures
        db_in_txn(*final(conn)),
        db_schema_ready(*final(conn)) == db_schema_ready(*old(conn)),
        db_genres(*final(conn)) == db_genres(*old(conn)),
        db_saved_genres(*final(conn)) == db_saved_genres(*old(conn)),
        db_saved_artists(*final(conn)) == db_saved_artists(*old(conn)),
        r is Ok ==> db_artists(*final(conn)) == db_artists(*old(conn)).push(
            (genre_id as int, name@, audio_link@),
        ),
        r is Err ==> db_artists(*final(conn)) == db_artists(*old(conn)),
{
    conn.execute(
        "INSERT INTO artists (genre_id, name, audio_link) VALUES (?1, ?2, ?3)",
        (genre_id, name, audio_link),
    ).map(|_| ())
}

/// Relies on rusqlite's `Connection::prepare` and `Statement::query_map`
/// with `SELECT id, name, similar_genres, opposite_genres FROM genres`: on
/// success one record per row the connection sees, each field read
/// verbatim. SQLite fixes no result order without `ORDER BY`, so only the
/// collection of rows is claimed.
#[verifier::external_body]
fn db_select_genre_rows(conn: &rusqlite::Connection) -> (r: Result<Vec<Genre>, rusqlite::Error>)
    ensures
        r is Ok ==> r->Ok_0.deep_view().to_multiset() == db_genres(*conn).to_multiset(),
{
    let mut stmt = conn.prepare("SELECT id, name, similar_genres, opposite_genres FROM genres")?;
    let rows = stmt.query_map([], |row| {
        Ok(Genre {
            id: row.get(0)?,
            name: row.get(1)?,
            similar_genres: row.get(2)?,
            opposite_genres: row.get(3)?,
        })
    })?;
    rows.collect()
}

/// The rows after a per-genre update: every row bearing `id` carries the
/// two encoded lists; all other rows stand untouched.
pub open spec fn updated_rows(
    rows: Seq<(int, Seq<char>, Option<Seq<char>>, Option<Seq<char>>)>,
    id: int,
    similar: Seq<char>,
    opposite: Seq<char>,
) -> Seq<(int, Seq<char>, Option<Seq<char>>, Option<Seq<char>>)> {
    rows.map_values(
        |r: (int, Seq<char>, Option<Seq<char>>, Option<Seq<char>>)|
            if r.0 == id {
                (r.0, r.1, Some(similar), Some(opposite))
            } else {
                r
            },
    )
}

/// The artist rows a stored page contributes: one per extracted artist, in
/// order, each bearing the owning genre's id.
pub open spec fn artist_rows(gid: int, artists: Seq<(Seq<char>, Seq<char>)>) -> Seq<
    (int, Seq<char>, Seq<char>),
> {
    artists.map_values(|a: (Seq<char>, Seq<char>)| (gid, a.0, a.1))
}

/// The bulk insert appended one fresh row per name, in order: the old rows
/// stand first and untouched, each appended row bears its name with empty
/// relationship lists, and no appended row shares an id with any row before
/// it — names are never deduplicated.
pub open spec fn genres_extended(
    old_rows: Seq<(int, Seq<char>, Option<Seq<char>>, Option<Seq<char>>)>,
    new_rows: Seq<(int, Seq<char>, Option<Seq<char>>, Option<Seq<char>>)>,
    names: Seq<Seq<char>>,
) -> bool {
    &&& new_rows.len() == old_rows.len() + names.len()
    &&& forall|i: int| 0 <= i < old_rows.len() ==> new_rows[i] == old_rows[i]
    &&& forall|i: int|
        0 <= i < names.len() ==> (#[trigger] new_rows[old_rows.len() + i]).1 == names[i]
            && new_rows[old_rows.len() + i].2 is None && new_rows[old_rows.len() + i].3 is None
    &&& forall|i: int, j: int|
        old_rows.len() <= i < new_rows.len() && 0 <= j < i ==> (#[trigger] new_rows[i]).0 != (
        #[trigger] new_rows[j]).0
}

/// Creates the `genres` and `artists` relations if they are not yet there:
/// on success the schema exists; rows already stored are never touched.
pub fn create_schema(conn: &mut rusqlite::Connection) -> (r: Result<(), DbError>)
    requires
        !db_in_txn(*old(conn)),
    ensures
        !db_in_txn(*final(conn)),
        r is Ok ==> db_schema_ready(*final(conn)),
        db_genres(*final(conn)) == db_genres(*old(conn)),
        db_artists(*final(conn)) == db_artists(*old(conn)),
        db_saved_genres(*final(conn)) == db_saved_genres(*old(conn)),
        db_saved_artists(*final(conn)) == db_saved_artists(*old(conn)),
{
    match db_create_tables(conn) {
        Ok(()) => Ok(()),
        Err(e) => Err(DbError::Store(e)),
    }
}

/// The bulk genre insert: one transaction, one fresh row per name in order,
/// duplicates kept, committed once at the end. On any failure the whole
/// batch is rolled back and the store stands exactly as before.
pub fn insert_genres(conn: &mut rusqlite::Connection, names: &Vec<String>) -> (r: Result<
    (),
    DbError,
>)
    requires
        !db_in_txn(*old(conn)),
    ensures
        !db_in_txn(*final(conn)),
        db_genres(*final(conn)) == db_saved_genres(*final(conn)),
        db_artists(*final(conn)) == db_saved_artists(*final(conn)),
        db_artists(*final(conn)) == db_artists(*old(conn)),
        r is Ok ==> db_schema_ready(*final(conn)) == db_schema_ready(*old(conn)),
        r is Ok ==> genres_extended(
            db_genres(*old(conn)),
            db_genres(*final(conn)),
            names.deep_view(),
        ),
        r is Err ==> db_genres(*final(conn)) == db_genres(*old(conn)),
{
    match db_begin(conn) {
        Ok(()) => {},
        Err(e) => {
            return Err(DbError::Store(e));
        },
    }
    let mut k: usize = 0;
    while k < names.len()
        invariant
            k <= names.len(),
            db_in_txn(*conn),
            db_schema_ready(*conn) == db_schema_ready(*old(conn)),
            db_saved_genres(*conn) == db_saved_genres(*old(conn)),
            db_saved_artists(*conn) == db_saved_artists(*old(conn)),
            db_artists(*conn) == db_artists(*old(conn)),
            db_genres(*old(conn)) == db_saved_genres(*old(conn)),
            db_artists(*old(conn)) == db_saved_artists(*old(conn)),
            genres_extended(
                db_genres(*old(conn)),
                db_genres(*conn),
                names.deep_view().take(k as int),
            ),
        decreases names.len() - k,
    {
        let ghost pre_rows = db_genres(*conn);
        match db_insert_genre_row(conn, names[k].as_str()) {
            Ok(()) => {},
            Err(e) => {
                db_rollback(conn);
                return Err(DbError::Store(e));
            },
        }
        proof {
            let nv = names.deep_view();
            let row = (
                choose|id: int|
                    (forall|j: int|
                        0 <= j < pre_rows.len() ==> (#[trigger] pre_rows[j]).0 != id) && db_genres(
                        *conn,
                    ) == pre_rows.push((id, names@[k as int]@, None::<Seq<char>>, None::<Seq<char>>)),
                names@[k as int]@,
                None::<Seq<char>>,
                None::<Seq<char>>,
            );
            assert(db_genres(*conn) == pre_rows.push(row));
            assert(nv.take(k + 1).drop_last() =~= nv.take(k as int));
            assert(nv.take(k + 1)[k as int] == nv[k as int]);
            assert(genres_extended(db_genres(*old(conn)), db_genres(*conn), nv.take(k + 1)));
        }
        k += 1;
    }
    proof {
        assert(names.deep_view().take(names.len() as int) =~= names.deep_view());
    }
    match db_commit(conn) {
        Ok(()) => Ok(()),
        Err(e) => {
            db_rollback(conn);
            Err(DbError::Store(e))
        },
    }
}

/// A genre still needs enrichment while neither relationship list has been
/// written; the stored rows themselves are the batch's progress marker, so
/// an interrupted run resumes where it stopped.
pub fn needs_enrichment(genre: &Genre) -> (r: bool)
    ensures
        r == (genre@.2 is None && genre@.3 is None),
{
    genre.similar_genres.is_none() && genre.opposite_genres.is_none()
}

/// Reads back every stored genre row. Without an `ORDER BY` the store fixes
/// no order, so the result is the stored rows as a collection.
pub fn select_genres(conn: &rusqlite::Connection) -> (r: Result<Vec<Genre>, DbError>)
    ensures
        r is Ok ==> r->Ok_0.deep_view().to_multiset() == db_genres(*conn).to_multiset(),
{
    match db_select_genre_rows(conn) {
        Ok(rows) => Ok(rows),
        Err(e) => Err(DbError::Store(e)),
    }
}

/// The per-genre detail store: one transaction that writes the two
/// JSON-encoded relationship lists onto the genre's row and appends one
/// artist row per extracted artist, committed once. On any failure —
/// encoding, any single write, the commit — the store stands exactly as
/// before: a genre is never left half-enriched.
pub fn store_genre_page(
    conn: &mut rusqlite::Connection,
    genre: &Genre,
    data: &GenrePageData,
) -> (r: Result<(), DbError>)
    requires
        !db_in_txn(*old(conn)),
    ensures
        !db_in_txn(*final(conn)),
        db_genres(*final(conn)) == db_saved_genres(*final(conn)),
        db_artists(*final(conn)) == db_saved_artists(*final(conn)),
        r is Ok ==> db_schema_ready(*final(conn)) == db_schema_ready(*old(conn)),
        r is Ok ==> db_genres(*final(conn)) == updated_rows(
            db_genres(*old(conn)),
            genre.id as int,
            json_list_of(data.similar_genres.deep_view()),
            json_list_of(data.opposite_genres.deep_view()),
        ) && db_artists(*final(conn)) == db_artists(*old(conn)) + artist_rows(
            genre.id as int,
            data.artists.deep_view(),
        ),
        r is Err ==> db_genres(*final(conn)) == db_genres(*old(conn)) && db_artists(*final(conn))
            == db_artists(*old(conn)),
{
    match db_begin(conn) {
        Ok(()) => {},
        Err(e) => {
            return Err(DbError::Store(e));
        },
    }
    let similar_json = match json_encode_list(&data.similar_genres) {
        Ok(s) => s,
        Err(e) => {
            db_rollback(conn);
            return Err(DbError::Serialization(e));
        },
    };
    let opposite_json = match json_encode_list(&data.opposite_genres) {
        Ok(s) => s,
        Err(e) => {
            db_rollback(conn);
            return Err(DbError::Serialization(e));
        },
    };
    match db_update_genre_lists(conn, genre.id, similar_json.as_str(), opposite_json.as_str()) {
        Ok(()) => {},
        Err(e) => {
            db_rollback(conn);
            return Err(DbError::Store(e));
        },
    }
    let mut k: usize = 0;
    while k < data.artists.len()
        invariant
            k <= data.artists.len(),
            db_in_txn(*conn),
            db_schema_ready(*conn) == db_schema_ready(*old(conn)),
            db_saved_genres(*conn) == db_saved_genres(*old(conn)),
            db_saved_artists(*conn) == db_saved_artists(*old(conn)),
            db_genres(*old(conn)) == db_saved_genres(*old(conn)),
            db_artists(*old(conn)) == db_saved_artists(*old(conn)),
            db_genres(*conn) == updated_rows(
                db_genres(*old(conn)),
                genre.id as int,
                json_list_of(data.similar_genres.deep_view()),
                json_list_of(data.opposite_genres.deep_view()),
            ),
            db_artists(*conn) == db_artists(*old(conn)) + artist_rows(
                genre.id as int,
                data.artists.deep_view().take(k as int),
            ),
        decreases data.artists.len() - k,
    {
        let artist = &data.artists[k];
        let ghost pre = db_artists(*conn);
        match db_insert_artist_row(conn, genre.id, artist.name.as_str(), artist.audio_link.as_str())
        {
            Ok(()) => {},
            Err(e) => {
                db_rollback(conn);
                return Err(DbError::Store(e));
            },
        }
        proof {
            let av = data.artists.deep_view();
            assert(av.take(k + 1).drop_last() =~= av.take(k as int));
            assert(av.take(k + 1)[k as int] == av[k as int]);
            assert(db_artists(*conn) =~= db_artists(*old(conn)) + artist_rows(
                genre.id as int,
                av.take(k + 1),
            ));
        }
        k += 1;
    }
    proof {
        assert(data.artists.deep_view().take(data.artists.len() as int) =~= data.artists.deep_view());
    }
    match db_commit(conn) {
        Ok(()) => Ok(()),
        Err(e) => {
            db_rollback(conn);
            Err(DbError::Store(e))
        },
    }
}

/// Once a per-genre store succeeds, the genre's row carries exactly the
/// JSON texts of the two extracted lists — whatever stood there before is
/// overwritten, never merged — and every row bearing another id stands
/// untouched.
pub proof fn lemma_store_overwrites_lists(
    rows: Seq<(int, Seq<char>, Option<Seq<char>>, Option<Seq<char>>)>,
    id: int,
    similar: Seq<char>,
    opposite: Seq<char>,
    i: int,
)
    requires
        0 <= i < rows.len(),
    ensures
        rows[i].0 == id ==> updated_rows(rows, id, similar, opposite)[i] == (
            id,
            rows[i].1,
            Some(similar),
            Some(opposite),
        ),
        rows[i].0 != id ==> updated_rows(rows, id, similar, opposite)[i] == rows[i],
{
}

/// Re-running the bulk insert with the same names appends the names again:
/// each name then stands on two distinct appended rows — one per run, with
/// different store-assigned ids — so the operation is not idempotent.
pub proof fn lemma_bulk_insert_not_idempotent(
    rows0: Seq<(int, Seq<char>, Option<Seq<char>>, Option<Seq<char>>)>,
    rows1: Seq<(int, Seq<char>, Option<Seq<char>>, Option<Seq<char>>)>,
    rows2: Seq<(int, Seq<char>, Option<Seq<char>>, Option<Seq<char>>)>,
    names: Seq<Seq<char>>,
)
    requires
        genres_extended(rows0, rows1, names),
        genres_extended(rows1, rows2, names),
    ensures
        rows2.len() == rows0.len() + 2 * names.len(),
        forall|i: int|
            0 <= i < names.len() ==> (#[trigger] rows2[rows0.len() + i]).1 == names[i]
                && rows2[rows0.len() + names.len() + i].1 == names[i] && rows2[rows0.len() + i].0
                != rows2[rows0.len() + names.len() + i].0,
{
    assert forall|i: int| 0 <= i < names.len() implies (#[trigger] rows2[rows0.len() + i]).1
        == names[i] && rows2[rows0.len() + names.len() + i].1 == names[i] && rows2[rows0.len()
        + i].0 != rows2[rows0.len() + names.len() + i].0 by {
        assert(rows2[rows0.len() + i] == rows1[rows0.len() + i]);
        assert(rows1[rows0.len() + i].1 == names[i]);
        assert(rows2[rows1.len() + i].1 == names[i]);
    }
}

} // verus!
