use jpn_diary::diarydb::{
    done_from_read, entries_from_read, entry_from_read, entries_from_rows, entry_columns, like_pattern, list_query, search_pattern, update_params, DiaryDB,
    DiaryDBEntry, SELECT_ALL_SQL,
};
use jpn_diary::dictionarydb::DictionaryDB;
use jpn_diary::error::DbError;
use jpn_diary::sql::{ColumnType, SqlParam, SqlValue};
use rusqlite::Connection;
use jpn_diary::dictionarydb::{collect_lookup, jmdict_entry_from_rows, lookup_all, JmdictEntry};

const CREATE_DIARY: &str = "CREATE TABLE diary_entries (
    id INTEGER PRIMARY KEY AUTOINCREMENT,
    japanese TEXT NOT NULL,
    romaji TEXT NOT NULL,
    meaning TEXT NOT NULL,
    notes TEXT,
    date_added INTEGER NOT NULL)";

/// A shared in-memory database with the diary table; the returned connection
/// keeps it alive.
fn diary_uri(name: &str) -> (String, Connection) {
    let uri = format!("file:{}?mode=memory&cache=shared", name);
    let keep = Connection::open(&uri).unwrap();
    keep.execute_batch(CREATE_DIARY).unwrap();
    (uri, keep)
}

#[test]
fn missing_table_is_refused() {
    let uri = "file:diary_empty?mode=memory&cache=shared";
    let _keep = Connection::open(uri).unwrap();
    match DiaryDB::new(uri) {
        Err(DbError::Sqlite(rusqlite::Error::SqliteFailure(e, Some(msg)))) => {
            assert_eq!(e.extended_code, rusqlite::ffi::SQLITE_ERROR);
            assert_eq!(msg, "Database table 'diary_entries' does not exist.");
        }
        _ => panic!("expected the missing-table failure"),
    }
}

#[test]
fn unopenable_path_is_an_sqlite_error() {
    match DiaryDB::new("/nonexistent-directory-for-test/diary.db") {
        Err(DbError::Sqlite(_)) => {}
        _ => panic!("expected an SQLite error"),
    }
}

#[test]
fn create_then_get_gives_back_the_entry() {
    let (uri, _keep) = diary_uri("diary_create");
    let db = DiaryDB::new(&uri).unwrap();
    let created = db.create_entry("猫", "neko", "cat", Some("a note")).unwrap();
    assert_eq!(created.japanese, "猫");
    assert_eq!(created.romaji, "neko");
    assert_eq!(created.meaning, "cat");
    assert_eq!(created.notes.as_deref(), Some("a note"));
    assert!(created.date_added > 0);
    let read = db.get_entry(created.id).unwrap().unwrap();
    assert_eq!(read.id, created.id);
    assert_eq!(read.japanese, created.japanese);
    assert_eq!(read.romaji, created.romaji);
    assert_eq!(read.meaning, created.meaning);
    assert_eq!(read.notes, created.notes);
    assert_eq!(read.date_added, created.date_added);

    let second = db.create_entry("犬", "inu", "dog", None).unwrap();
    assert_eq!(second.id, created.id + 1);
    assert_eq!(db.get_entry(second.id).unwrap().unwrap().notes, None);
}

#[test]
fn get_missing_entry_is_none() {
    let (uri, _keep) = diary_uri("diary_missing");
    let db = DiaryDB::new(&uri).unwrap();
    assert!(db.get_entry(12345).unwrap().is_none());
}

#[test]
fn update_then_get_gives_back_the_update() {
    let (uri, _keep) = diary_uri("diary_update");
    let db = DiaryDB::new(&uri).unwrap();
    let mut e = db.create_entry("a", "b", "c", None).unwrap();
    e.japanese = "[日本](にほん)".to_string();
    e.notes = Some("n\nm".to_string());
    e.date_added = 5;
    db.update_entry(&e).unwrap();
    let read = db.get_entry(e.id).unwrap().unwrap();
    assert_eq!(read.japanese, "[日本](にほん)");
    assert_eq!(read.notes.as_deref(), Some("n\nm"));
    assert_eq!(read.date_added, 5);
}

#[test]
fn delete_removes_the_entry() {
    let (uri, _keep) = diary_uri("diary_delete");
    let db = DiaryDB::new(&uri).unwrap();
    let e = db.create_entry("a", "b", "c", None).unwrap();
    db.delete_entry(e.id).unwrap();
    assert!(db.get_entry(e.id).unwrap().is_none());
    // Deleting an id that does not exist is not an error.
    db.delete_entry(e.id).unwrap();
}

#[test]
fn list_with_and_without_limit() {
    let (uri, _keep) = diary_uri("diary_list");
    let db = DiaryDB::new(&uri).unwrap();
    for i in 0..5 {
        db.create_entry(&format!("j{}", i), "r", "m", None).unwrap();
    }
    assert_eq!(db.get_all_entries(None).unwrap().len(), 5);
    assert_eq!(db.get_all_entries(Some(2)).unwrap().len(), 2);
    assert_eq!(db.get_all_entries(Some(0)).unwrap().len(), 0);
    assert_eq!(db.get_all_entries(Some(10)).unwrap().len(), 5);
}

#[test]
fn search_matches_through_furigana_and_umlauts() {
    let (uri, _keep) = diary_uri("diary_search");
    let db = DiaryDB::new(&uri).unwrap();
    let mut a = db.create_entry("[漢字](かんじ)を勉強する", "kanji wo benkyou suru", "study kanji", None).unwrap();
    let mut b = db.create_entry("練習", "renshuu", "Brücke", Some("German")).unwrap();
    a.date_added = 1;
    b.date_added = 2;
    db.update_entry(&a).unwrap();
    db.update_entry(&b).unwrap();

    let found = db.search_entries("漢字を").unwrap();
    assert_eq!(found.len(), 1);
    assert_eq!(found[0].id, a.id);

    let found = db.search_entries("bruecke").unwrap();
    assert_eq!(found.len(), 1);
    assert_eq!(found[0].id, b.id);

    let found = db.search_entries("KANJI").unwrap();
    assert_eq!(found.len(), 1);

    // Newest first.
    let found = db.search_entries("").unwrap();
    assert_eq!(found.iter().map(|e| e.id).collect::<Vec<_>>(), vec![b.id, a.id]);

    assert!(db.search_entries("nothing like this").unwrap().is_empty());
}

#[test]
fn search_with_umlauts_finds_the_spelled_out_text() {
    let (uri, _keep) = diary_uri("diary_search_umlauts");
    let db = DiaryDB::new(&uri).unwrap();
    let m = db.create_entry("ミュラー", "myuraa", "Müller", None).unwrap();
    db.create_entry("橋", "hashi", "Brücke", None).unwrap();

    let found = db.search_entries("Müller").unwrap();
    assert_eq!(found.len(), 1);
    assert_eq!(found[0].id, m.id);

    let found = db.search_entries("müll").unwrap();
    assert_eq!(found.len(), 1);
    assert_eq!(found[0].id, m.id);

    let found = db.search_entries("Mueller").unwrap();
    assert_eq!(found.len(), 1);
    assert_eq!(found[0].id, m.id);
}

#[test]
fn vacuum_succeeds() {
    let (uri, _keep) = diary_uri("diary_vacuum");
    let db = DiaryDB::new(&uri).unwrap();
    db.vacuum().unwrap();
}

#[test]
fn query_texts() {
    assert_eq!(list_query(None), SELECT_ALL_SQL);
    assert_eq!(list_query(Some(25)), format!("{} LIMIT 25", SELECT_ALL_SQL));
    assert_eq!(like_pattern("ab"), "%ab%");
    assert_eq!(like_pattern(""), "%%");
    assert_eq!(search_pattern("Müller"), "%Mueller%");
    assert_eq!(search_pattern("Größe"), "%Groesse%");
    assert_eq!(search_pattern("kanji"), "%kanji%");
}

#[test]
fn rows_decode_to_entries() {
    let rows = vec![vec![
        SqlValue::Int32(7),
        SqlValue::Text("j".to_string()),
        SqlValue::Text("r".to_string()),
        SqlValue::Text("m".to_string()),
        SqlValue::OptionalText(None),
        SqlValue::Int64(99),
    ]];
    let entries = entries_from_rows(rows);
    assert_eq!(entries.len(), 1);
    assert_eq!(entries[0].id, 7);
    assert_eq!(entries[0].japanese, "j");
    assert_eq!(entries[0].romaji, "r");
    assert_eq!(entries[0].meaning, "m");
    assert_eq!(entries[0].notes, None);
    assert_eq!(entries[0].date_added, 99);
    assert_eq!(entry_columns().len(), 6);
    assert!(matches!(entry_columns()[4], ColumnType::OptionalText));
}

#[test]
fn update_binds_fields_then_id() {
    let e = DiaryDBEntry {
        id: 4,
        japanese: "j".to_string(),
        romaji: "r".to_string(),
        meaning: "m".to_string(),
        notes: None,
        date_added: 8,
    };
    let p = update_params(&e);
    assert_eq!(p.len(), 6);
    assert!(matches!(&p[0], SqlParam::Text(t) if t == "j"));
    assert!(matches!(&p[3], SqlParam::Null));
    assert!(matches!(&p[4], SqlParam::Integer(8)));
    assert!(matches!(&p[5], SqlParam::Integer(4)));
}

#[test]
fn dictionary_search_collects_entries() {
    let uri = "file:dict_search?mode=memory&cache=shared";
    let keep = Connection::open(uri).unwrap();
    keep.execute_batch(
        "CREATE TABLE jmdict_entries (id INTEGER PRIMARY KEY);
         CREATE TABLE jmdict_kanji (entry_id INTEGER, keb TEXT);
         CREATE TABLE jmdict_readings (entry_id INTEGER, reb TEXT);
         CREATE TABLE jmdict_senses (id INTEGER PRIMARY KEY, entry_id INTEGER);
         CREATE TABLE jmdict_glosses (sense_id INTEGER, gloss TEXT);
         INSERT INTO jmdict_entries VALUES (1), (2);
         INSERT INTO jmdict_kanji VALUES (1, '猫');
         INSERT INTO jmdict_readings VALUES (1, 'ねこ'), (2, 'いぬ');
         INSERT INTO jmdict_senses VALUES (10, 1), (20, 2);
         INSERT INTO jmdict_glosses VALUES (10, 'cat'), (10, 'feline'), (20, 'dog');",
    )
    .unwrap();
    let dict = DictionaryDB::new(uri).unwrap();
    let found = dict.search("cat").unwrap();
    assert_eq!(found.len(), 1);
    assert_eq!(found[0].kanji, vec!["猫"]);
    assert_eq!(found[0].readings, vec!["ねこ"]);
    let mut glosses = found[0].glosses.clone();
    glosses.sort();
    assert_eq!(glosses, vec!["cat", "feline"]);

    let found = dict.search("いぬ").unwrap();
    assert_eq!(found.len(), 1);
    assert!(found[0].kanji.is_empty());
    assert_eq!(found[0].glosses, vec!["dog"]);

    assert!(dict.search("zzz").unwrap().is_empty());
}

#[test]
fn dictionary_without_tables_fails() {
    let uri = "file:dict_empty?mode=memory&cache=shared";
    let _keep = Connection::open(uri).unwrap();
    let dict = DictionaryDB::new(uri).unwrap();
    assert!(matches!(dict.search("x"), Err(DbError::Sqlite(_))));
}

#[test]
fn created_entry_truncates_rowid() {
    let e = jpn_diary::diarydb::created_entry("j", "r", "m", Some("n"), 42, (1i64 << 32) + 5);
    assert_eq!(e.id, 5);
    assert_eq!(e.notes.as_deref(), Some("n"));
    assert_eq!(e.date_added, 42);
    let e = jpn_diary::diarydb::created_entry("j", "r", "m", None, 0, 9);
    assert_eq!(e.id, 9);
    assert_eq!(e.notes, None);
}

#[test]
fn reads_become_results() {
    assert!(matches!(entry_from_read(Ok(None)), Ok(None)));
    assert!(matches!(
        entry_from_read(Err(rusqlite::Error::InvalidQuery)),
        Err(DbError::Sqlite(rusqlite::Error::InvalidQuery))
    ));
    let row = vec![
        SqlValue::Int32(1),
        SqlValue::Text("a".to_string()),
        SqlValue::Text("b".to_string()),
        SqlValue::Text("c".to_string()),
        SqlValue::OptionalText(Some("d".to_string())),
        SqlValue::Int64(2),
    ];
    let e = entry_from_read(Ok(Some(row))).unwrap().unwrap();
    assert_eq!(e.notes.as_deref(), Some("d"));
    assert!(entries_from_read(Ok(vec![])).unwrap().is_empty());
    assert!(matches!(
        entries_from_read(Err(rusqlite::Error::QueryReturnedNoRows)),
        Err(DbError::Sqlite(_))
    ));
    assert!(done_from_read(Ok(3)).is_ok());
    assert!(matches!(done_from_read(Err(rusqlite::Error::ExecuteReturnedResults)), Err(DbError::Sqlite(_))));
}

fn text_rows(texts: &[&str]) -> Vec<Vec<SqlValue>> {
    texts.iter().map(|t| vec![SqlValue::Text(t.to_string())]).collect()
}

#[test]
fn jmdict_entry_assembles_its_lists() {
    let yes = vec![SqlValue::Bool(true)];
    let e = jmdict_entry_from_rows(&yes, text_rows(&["猫"]), text_rows(&["ねこ", "ネコ"]), text_rows(&["cat"]))
        .unwrap();
    assert_eq!(e.kanji, vec!["猫"]);
    assert_eq!(e.readings, vec!["ねこ", "ネコ"]);
    assert_eq!(e.glosses, vec!["cat"]);
    let e = jmdict_entry_from_rows(&yes, vec![], vec![], vec![]).unwrap();
    assert!(e.kanji.is_empty() && e.readings.is_empty() && e.glosses.is_empty());
    let no = vec![SqlValue::Bool(false)];
    assert!(jmdict_entry_from_rows(&no, text_rows(&["x"]), vec![], vec![]).is_none());
}

#[test]
fn search_steps_keep_found_entries() {
    let cat = JmdictEntry { kanji: vec!["猫".to_string()], readings: vec![], glosses: vec![] };
    let dog = JmdictEntry { kanji: vec!["犬".to_string()], readings: vec![], glosses: vec![] };
    let v = collect_lookup(vec![], Ok(Some(cat))).unwrap();
    let v = collect_lookup(v, Ok(None)).unwrap();
    let v = collect_lookup(v, Ok(Some(dog))).unwrap();
    assert_eq!(v.iter().map(|e| e.kanji[0].clone()).collect::<Vec<_>>(), vec!["猫", "犬"]);
    assert!(matches!(
        collect_lookup(v, Err(DbError::Sqlite(rusqlite::Error::InvalidQuery))),
        Err(DbError::Sqlite(rusqlite::Error::InvalidQuery))
    ));
}

fn reading_entry(reading: &str) -> JmdictEntry {
    JmdictEntry { kanji: vec![], readings: vec![reading.to_string()], glosses: vec![] }
}

#[test]
fn lookup_all_skips_missing_ids_in_order() {
    let lookup = |id: i32| -> Result<Option<JmdictEntry>, DbError> {
        match id {
            1 => Ok(Some(reading_entry("いち"))),
            2 => Ok(Some(reading_entry("に"))),
            _ => Ok(None),
        }
    };
    let found = lookup_all(&vec![2, 7, 1], lookup).unwrap();
    assert_eq!(found.iter().map(|e| e.readings[0].clone()).collect::<Vec<_>>(), vec!["に", "いち"]);
    let found = lookup_all(&vec![1, 1], lookup).unwrap();
    assert_eq!(found.len(), 2);
    assert!(lookup_all(&vec![7, 8], lookup).unwrap().is_empty());
}

#[test]
fn lookup_all_asks_nothing_of_no_ids() {
    let calls = std::cell::Cell::new(0);
    let lookup = |_id: i32| -> Result<Option<JmdictEntry>, DbError> {
        calls.set(calls.get() + 1);
        Err(DbError::Sqlite(rusqlite::Error::InvalidQuery))
    };
    assert!(lookup_all(&vec![], lookup).unwrap().is_empty());
    assert_eq!(calls.get(), 0);
}

#[test]
fn lookup_all_stops_at_the_first_error() {
    let calls = std::cell::Cell::new(Vec::new());
    let lookup = |id: i32| -> Result<Option<JmdictEntry>, DbError> {
        let mut seen = calls.take();
        seen.push(id);
        calls.set(seen);
        if id == 3 {
            Err(DbError::Sqlite(rusqlite::Error::InvalidQuery))
        } else {
            Ok(Some(reading_entry("x")))
        }
    };
    assert!(matches!(
        lookup_all(&vec![1, 3, 4], lookup),
        Err(DbError::Sqlite(rusqlite::Error::InvalidQuery))
    ));
    assert_eq!(calls.take(), vec![1, 3]);
}

#[test]
fn opened_dictionary_reads_through_its_connection() {
    let uri = "file:dict_opened?mode=memory&cache=shared";
    let _keep = Connection::open(uri).unwrap();
    assert!(DictionaryDB::from_opened(Connection::open(uri)).is_ok());
    assert!(matches!(
        DictionaryDB::from_opened(Err(rusqlite::Error::InvalidQuery)),
        Err(DbError::Sqlite(rusqlite::Error::InvalidQuery))
    ));
}

#[test]
fn sqlite_steps_pass_values_and_errors_on() {
    assert_eq!(jpn_diary::error::sqlite_step(Ok::<i32, rusqlite::Error>(3)).unwrap(), 3);
    assert!(matches!(
        jpn_diary::error::sqlite_step::<i32>(Err(rusqlite::Error::QueryReturnedNoRows)),
        Err(DbError::Sqlite(rusqlite::Error::QueryReturnedNoRows))
    ));
    assert_eq!(jpn_diary::clock::millis_as_i64((1u128 << 64) + 5), 5);
    assert_eq!(jpn_diary::clock::millis_as_i64(1_700_000_000_000), 1_700_000_000_000);
}
