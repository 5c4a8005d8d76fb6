use genremap::db::{
    create_schema, insert_genres, needs_enrichment, select_genres, store_genre_page, DbError,
};
use genremap::scrape::{ExtractedArtist, GenrePageData};
use rusqlite::Connection;

fn fresh_db() -> Connection {
    let mut conn = Connection::open_in_memory().unwrap();
    create_schema(&mut conn).unwrap();
    conn
}

fn artist(name: &str, link: &str) -> ExtractedArtist {
    ExtractedArtist { name: name.to_string(), audio_link: link.to_string() }
}

fn count(conn: &Connection, sql: &str) -> i64 {
    conn.query_row(sql, [], |row| row.get(0)).unwrap()
}

#[test]
fn insert_and_select_round_trip() {
    let mut conn = fresh_db();
    let names = vec!["Pop".to_string(), "Jazz".to_string()];
    insert_genres(&mut conn, &names).unwrap();
    let mut genres = select_genres(&conn).unwrap();
    genres.sort_by_key(|g| g.id);
    assert_eq!(genres.len(), 2);
    assert_eq!(genres[0].name, "Pop");
    assert_eq!(genres[1].name, "Jazz");
    assert!(genres[0].similar_genres.is_none());
    assert!(genres[0].opposite_genres.is_none());
    assert_ne!(genres[0].id, genres[1].id);
}

#[test]
fn bulk_insert_is_not_idempotent() {
    let mut conn = fresh_db();
    let names = vec!["Rock".to_string(), "Jazz".to_string()];
    insert_genres(&mut conn, &names).unwrap();
    insert_genres(&mut conn, &names).unwrap();
    let genres = select_genres(&conn).unwrap();
    assert_eq!(genres.len(), 4);
    assert_eq!(genres.iter().filter(|g| g.name == "Rock").count(), 2);
    assert_eq!(genres.iter().filter(|g| g.name == "Jazz").count(), 2);
    let mut ids: Vec<i32> = genres.iter().map(|g| g.id).collect();
    ids.sort();
    ids.dedup();
    assert_eq!(ids.len(), 4);
}

#[test]
fn bulk_insert_rolls_back_as_a_whole() {
    let mut conn = fresh_db();
    conn.execute_batch(
        "CREATE TRIGGER block_second BEFORE INSERT ON genres \
         WHEN (SELECT COUNT(*) FROM genres) >= 1 \
         BEGIN SELECT RAISE(ABORT, 'blocked'); END;",
    )
    .unwrap();
    let names = vec!["Pop".to_string(), "Jazz".to_string()];
    let err = insert_genres(&mut conn, &names).unwrap_err();
    assert!(matches!(err, DbError::Store(_)));
    assert_eq!(count(&conn, "SELECT COUNT(*) FROM genres"), 0);
}

#[test]
fn stored_lists_read_back_as_the_same_json() {
    let mut conn = fresh_db();
    insert_genres(&mut conn, &vec!["Funk".to_string()]).unwrap();
    let genres = select_genres(&conn).unwrap();
    let data = GenrePageData {
        artists: vec![artist("Daft Punk", "https://audio.example/daft.mp3")],
        similar_genres: vec!["Rock".to_string(), "Jazz".to_string()],
        opposite_genres: vec!["Metal".to_string()],
    };
    store_genre_page(&mut conn, &genres[0], &data).unwrap();

    let enriched = select_genres(&conn).unwrap();
    assert_eq!(enriched.len(), 1);
    let similar: Vec<String> =
        serde_json::from_str(enriched[0].similar_genres.as_ref().unwrap()).unwrap();
    assert_eq!(similar, vec!["Rock".to_string(), "Jazz".to_string()]);
    let opposite: Vec<String> =
        serde_json::from_str(enriched[0].opposite_genres.as_ref().unwrap()).unwrap();
    assert_eq!(opposite, vec!["Metal".to_string()]);

    assert_eq!(count(&conn, "SELECT COUNT(*) FROM artists"), 1);
    let link: String = conn
        .query_row("SELECT audio_link FROM artists", [], |row| row.get(0))
        .unwrap();
    assert_eq!(link, "https://audio.example/daft.mp3");
    let gid: i64 = conn
        .query_row("SELECT genre_id FROM artists", [], |row| row.get(0))
        .unwrap();
    assert_eq!(gid, genres[0].id as i64);
}

#[test]
fn failing_artist_insert_rolls_back_the_genre_update() {
    let mut conn = fresh_db();
    insert_genres(&mut conn, &vec!["Funk".to_string()]).unwrap();
    let genres = select_genres(&conn).unwrap();
    conn.execute_batch(
        "CREATE TRIGGER block_second BEFORE INSERT ON artists \
         WHEN (SELECT COUNT(*) FROM artists) >= 1 \
         BEGIN SELECT RAISE(ABORT, 'blocked'); END;",
    )
    .unwrap();
    let data = GenrePageData {
        artists: vec![
            artist("One", "https://audio.example/1.mp3"),
            artist("Two", "https://audio.example/2.mp3"),
            artist("Three", "https://audio.example/3.mp3"),
        ],
        similar_genres: vec!["Soul".to_string()],
        opposite_genres: vec![],
    };
    let err = store_genre_page(&mut conn, &genres[0], &data).unwrap_err();
    assert!(matches!(err, DbError::Store(_)));

    let after = select_genres(&conn).unwrap();
    assert_eq!(after.len(), 1);
    assert!(after[0].similar_genres.is_none());
    assert!(after[0].opposite_genres.is_none());
    assert_eq!(count(&conn, "SELECT COUNT(*) FROM artists"), 0);
}

#[test]
fn store_with_no_artists_only_updates_the_genre_row() {
    let mut conn = fresh_db();
    insert_genres(&mut conn, &vec!["Ambient".to_string()]).unwrap();
    let genres = select_genres(&conn).unwrap();
    let data = GenrePageData {
        artists: vec![],
        similar_genres: vec![],
        opposite_genres: vec![],
    };
    store_genre_page(&mut conn, &genres[0], &data).unwrap();
    let after = select_genres(&conn).unwrap();
    assert_eq!(after[0].similar_genres.as_deref(), Some("[]"));
    assert_eq!(after[0].opposite_genres.as_deref(), Some("[]"));
    assert_eq!(count(&conn, "SELECT COUNT(*) FROM artists"), 0);
}

#[test]
fn store_against_missing_table_reports_store_error_and_changes_nothing() {
    let mut conn = fresh_db();
    insert_genres(&mut conn, &vec!["Funk".to_string()]).unwrap();
    let genres = select_genres(&conn).unwrap();
    conn.execute_batch("DROP TABLE artists").unwrap();
    let data = GenrePageData {
        artists: vec![artist("One", "https://audio.example/1.mp3")],
        similar_genres: vec!["Soul".to_string()],
        opposite_genres: vec![],
    };
    let err = store_genre_page(&mut conn, &genres[0], &data).unwrap_err();
    assert!(matches!(err, DbError::Store(_)));
    let after = select_genres(&conn).unwrap();
    assert!(after[0].similar_genres.is_none());
}

#[test]
fn enrichment_is_marked_by_the_stored_lists() {
    let mut conn = fresh_db();
    insert_genres(&mut conn, &vec!["Funk".to_string()]).unwrap();
    let genres = select_genres(&conn).unwrap();
    assert!(needs_enrichment(&genres[0]));
    let data = GenrePageData {
        artists: vec![],
        similar_genres: vec!["Soul".to_string()],
        opposite_genres: vec![],
    };
    store_genre_page(&mut conn, &genres[0], &data).unwrap();
    let after = select_genres(&conn).unwrap();
    assert!(!needs_enrichment(&after[0]));
}

#[test]
fn create_schema_twice_keeps_rows() {
    let mut conn = fresh_db();
    insert_genres(&mut conn, &vec!["Pop".to_string()]).unwrap();
    create_schema(&mut conn).unwrap();
    assert_eq!(select_genres(&conn).unwrap().len(), 1);
}
