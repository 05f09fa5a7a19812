use vstd::prelude::*;
use rusqlite::Connection;
use crate::clock::unix_millis_now;
use crate::decimal::{nat_decimal, usize_to_decimal};
use crate::error::{sqlite_error_with_message, sqlite_failure, sqlite_step, DbError};
use crate::furigana::{ruby_patterns_valid, strip_furigana_spec, FuriganaStripper};
use crate::text::{lemma_replace_char_keeps_other, normalize_umlauts, normalize_umlauts_spec, replace_char_spec};
use crate::like::{contains_like, lemma_contains_pattern, like_matches, no_wildcards};
use crate::sql::{
    create_text_function, first_row, gave_rowid, inserted_rowid, open_database, opened, optional_row,
    query_rows, ran_first_row, ran_query, ran_statement, read_back, row_has_types, row_view,
    run_statement, params_view, ColumnType, ParamView, Registration, SqlParam, SqlValue, TextFunction,
    TextFunctionKind, ValueView,
};

pub use crate::diarydb_entry::{DiaryDBEntry, EntryView, opt_text_view};

verus! {

/// SQL name of the function that strips furigana.
pub const STRIP_FURIGANA_FN: &'static str = "STRIP_FURIGANA";

/// SQL name of the function that spells out umlauts.
pub const NORMALIZE_UMLAUTS_FN: &'static str = "NORMALIZE_UMLAUTS";

/// Whether the table of diary entries exists.
pub const TABLE_EXISTS_SQL: &'static str =
    "SELECT EXISTS(SELECT 1 FROM sqlite_master WHERE type='table' AND name='diary_entries')";

/// Inserts one entry; the parameters are the five fields after the id.
pub const INSERT_SQL: &'static str =
    "INSERT INTO diary_entries (japanese, romaji, meaning, notes, date_added) VALUES (?1, ?2, ?3, ?4, ?5)";

/// Selects the entry with the id `?1`.
pub const SELECT_BY_ID_SQL: &'static str =
    "SELECT id, japanese, romaji, meaning, notes, date_added FROM diary_entries WHERE id = ?1";

/// Selects every entry.
pub const SELECT_ALL_SQL: &'static str =
    "SELECT id, japanese, romaji, meaning, notes, date_added FROM diary_entries";

/// The clause that bounds the number of selected entries.
pub const LIMIT_CLAUSE: &'static str = " LIMIT ";

/// Overwrites the five fields after the id of the entry with the id `?6`.
pub const UPDATE_SQL: &'static str =
    "UPDATE diary_entries SET japanese = ?1, romaji = ?2, meaning = ?3, notes = ?4, date_added = ?5 WHERE id = ?6";

/// The filter that picks the entry with the id `?1`.
pub const BY_ID_FILTER: &'static str = " WHERE id = ?1";

/// Deletes the entry with the id `?1`.
pub const DELETE_SQL: &'static str = "DELETE FROM diary_entries WHERE id = ?1";

/// Selects, newest first, the entries whose Japanese text (with or without
/// furigana), romaji or meaning, umlauts spelled out and in lower case,
/// matches the LIKE pattern `?1`.
pub const SEARCH_SQL: &'static str =
    "SELECT id, japanese, romaji, meaning, notes, date_added FROM diary_entries 
                  WHERE LOWER(NORMALIZE_UMLAUTS(STRIP_FURIGANA(japanese))) LIKE ?1
                  OR LOWER(NORMALIZE_UMLAUTS(japanese)) LIKE ?1
                  OR LOWER(NORMALIZE_UMLAUTS(romaji)) LIKE ?1
                  OR LOWER(NORMALIZE_UMLAUTS(meaning)) LIKE ?1
                  ORDER BY date_added DESC";

/// Rebuilds the database file.
pub const VACUUM_SQL: &'static str = "VACUUM";

/// The types of the six columns an entry is selected as.
pub open spec fn entry_columns_spec() -> Seq<ColumnType> {
    seq![
        ColumnType::Int32,
        ColumnType::Text,
        ColumnType::Text,
        ColumnType::Text,
        ColumnType::OptionalText,
        ColumnType::Int64,
    ]
}

/// The types of the six columns an entry is selected as.
pub fn entry_columns() -> (v: Vec<ColumnType>)
    ensures
        v@ == entry_columns_spec(),
{
    let mut v = Vec::new();
    v.push(ColumnType::Int32);
    v.push(ColumnType::Text);
    v.push(ColumnType::Text);
    v.push(ColumnType::Text);
    v.push(ColumnType::OptionalText);
    v.push(ColumnType::Int64);
    proof { assert(v@ =~= entry_columns_spec()); }
    v
}

pub open spec fn int32_of(v: ValueView) -> i32 {
    match v {
        ValueView::Int32(i) => i,
        _ => 0,
    }
}

pub open spec fn int64_of(v: ValueView) -> i64 {
    match v {
        ValueView::Int64(i) => i,
        _ => 0,
    }
}

pub open spec fn text_of(v: ValueView) -> Seq<char> {
    match v {
        ValueView::Text(t) => t,
        _ => Seq::empty(),
    }
}

pub open spec fn opt_text_of(v: ValueView) -> Option<Seq<char>> {
    match v {
        ValueView::OptionalText(t) => t,
        _ => None,
    }
}

/// The entry that a row of the columns `id, japanese, romaji, meaning,
/// notes, date_added` holds.
pub open spec fn entry_of_row(row: Seq<ValueView>) -> EntryView {
    EntryView {
        id: int32_of(row[0]),
        japanese: text_of(row[1]),
        romaji: text_of(row[2]),
        meaning: text_of(row[3]),
        notes: opt_text_of(row[4]),
        date_added: int64_of(row[5]),
    }
}

/// Builds the entry that a selected row holds.
pub fn entry_from_row(row: Vec<SqlValue>) -> (e: DiaryDBEntry)
    requires
        row_has_types(row@, entry_columns_spec()),
    ensures
        e@ == entry_of_row(row_view(row@)),
{
    let ghost full = row@;
    let mut row = row;
    let date_added = match row.pop() {
        Some(SqlValue::Int64(i)) => i,
        _ => 0,
    };
    let notes = match row.pop() {
        Some(SqlValue::OptionalText(t)) => t,
        _ => None,
    };
    let meaning = match row.pop() {
        Some(SqlValue::Text(t)) => t,
        _ => String::new(),
    };
    let romaji = match row.pop() {
        Some(SqlValue::Text(t)) => t,
        _ => String::new(),
    };
    let japanese = match row.pop() {
        Some(SqlValue::Text(t)) => t,
        _ => String::new(),
    };
    let id = match row.pop() {
        Some(SqlValue::Int32(i)) => i,
        _ => 0,
    };
    let e = DiaryDBEntry { id, japanese, romaji, meaning, notes, date_added };
    proof {
        let rv = row_view(full);
        assert(rv[0] == full[0]@);
        assert(rv[1] == full[1]@);
        assert(rv[2] == full[2]@);
        assert(rv[3] == full[3]@);
        assert(rv[4] == full[4]@);
        assert(rv[5] == full[5]@);
        assert(e@ == entry_of_row(rv));
    }
    e
}

/// Builds the entries that the selected rows hold, in order.
pub fn entries_from_rows(rows: Vec<Vec<SqlValue>>) -> (v: Vec<DiaryDBEntry>)
    requires
        forall|k: int| 0 <= k < rows.len() ==> row_has_types(#[trigger] rows@[k]@, entry_columns_spec()),
    ensures
        v.len() == rows.len(),
        forall|k: int| 0 <= k < rows.len() ==> #[trigger] v@[k]@ == entry_of_row(row_view(rows@[k]@)),
{
    let mut entries: Vec<DiaryDBEntry> = Vec::new();
    for row in it: rows.into_iter()
        invariant
            it.seq() == rows@,
            entries.len() == it.index(),
            forall|j: int| 0 <= j < rows.len() ==> row_has_types(#[trigger] rows@[j]@, entry_columns_spec()),
            forall|j: int| 0 <= j < it.index() ==> #[trigger] entries@[j]@ == entry_of_row(row_view(rows@[j]@)),
    {
        let e = entry_from_row(row);
        entries.push(e);
    }
    entries
}

/// The parameter that binds an optional text: the text, or NULL.
pub open spec fn opt_text_param(t: Option<Seq<char>>) -> ParamView {
    match t {
        Some(s) => ParamView::Text(s),
        None => ParamView::Null,
    }
}

fn opt_text_to_param(t: Option<&str>) -> (p: SqlParam)
    ensures
        p@ == opt_text_param(
            match t {
                Some(s) => Some(s@),
                None => None,
            },
        ),
{
    match t {
        Some(s) => SqlParam::Text(String::from_str(s)),
        None => SqlParam::Null,
    }
}

/// The values `create_entry` binds to `?1` ... `?5` of `INSERT_SQL`.
pub open spec fn insert_params_spec(
    japanese: Seq<char>,
    romaji: Seq<char>,
    meaning: Seq<char>,
    notes: Option<Seq<char>>,
    date_added: i64,
) -> Seq<ParamView> {
    seq![
        ParamView::Text(japanese),
        ParamView::Text(romaji),
        ParamView::Text(meaning),
        opt_text_param(notes),
        ParamView::Integer(date_added),
    ]
}

/// The values bound to the parameters of `INSERT_SQL`.
pub fn insert_params(japanese: &str, romaji: &str, meaning: &str, notes: Option<&str>, date_added: i64) -> (v: Vec<SqlParam>)
    ensures
        params_view(v@) == insert_params_spec(
            japanese@,
            romaji@,
            meaning@,
            match notes {
                Some(s) => Some(s@),
                None => None,
            },
            date_added,
        ),
{
    let mut v = Vec::new();
    v.push(SqlParam::Text(String::from_str(japanese)));
    v.push(SqlParam::Text(String::from_str(romaji)));
    v.push(SqlParam::Text(String::from_str(meaning)));
    v.push(opt_text_to_param(notes));
    v.push(SqlParam::Integer(date_added));
    proof {
        assert(params_view(v@) =~= insert_params_spec(
            japanese@,
            romaji@,
            meaning@,
            match notes {
                Some(s) => Some(s@),
                None => None,
            },
            date_added,
        ));
    }
    v
}

/// The values `update_entry` binds to `?1` ... `?6` of `UPDATE_SQL`.
pub open spec fn update_params_spec(e: EntryView) -> Seq<ParamView> {
    seq![
        ParamView::Text(e.japanese),
        ParamView::Text(e.romaji),
        ParamView::Text(e.meaning),
        opt_text_param(e.notes),
        ParamView::Integer(e.date_added),
        ParamView::Integer(e.id as i64),
    ]
}

/// The values bound to the parameters of `UPDATE_SQL`.
pub fn update_params(entry: &DiaryDBEntry) -> (v: Vec<SqlParam>)
    ensures
        params_view(v@) == update_params_spec(entry@),
{
    let mut v = Vec::new();
    v.push(SqlParam::Text(entry.japanese.clone()));
    v.push(SqlParam::Text(entry.romaji.clone()));
    v.push(SqlParam::Text(entry.meaning.clone()));
    v.push(
        match &entry.notes {
            Some(n) => SqlParam::Text(n.clone()),
            None => SqlParam::Null,
        },
    );
    v.push(SqlParam::Integer(entry.date_added));
    v.push(SqlParam::Integer(entry.id as i64));
    proof { assert(params_view(v@) =~= update_params_spec(entry@)); }
    v
}

/// The value bound to `?1` of `SELECT_BY_ID_SQL` and `DELETE_SQL`.
pub fn id_params(id: i32) -> (v: Vec<SqlParam>)
    ensures
        params_view(v@) == seq![ParamView::Integer(id as i64)],
{
    let mut v = Vec::new();
    v.push(SqlParam::Integer(id as i64));
    proof { assert(params_view(v@) =~= seq![ParamView::Integer(id as i64)]); }
    v
}

/// The row that selecting an entry gives back after `UPDATE_SQL` stored
/// the parameters `p`: the id from `?6`, then the fields from `?1` to `?5`,
/// each read back as its column type.
pub open spec fn stored_update_row(p: Seq<ParamView>) -> Seq<Option<ValueView>> {
    seq![
        read_back(p[5], ColumnType::Int32),
        read_back(p[0], ColumnType::Text),
        read_back(p[1], ColumnType::Text),
        read_back(p[2], ColumnType::Text),
        read_back(p[3], ColumnType::OptionalText),
        read_back(p[4], ColumnType::Int64),
    ]
}

/// Every value that `update_entry` stores reads back as the type of its
/// column, and the row read back holds the same entry: what `get_entry`
/// decodes from the stored values of an update is the entry that was
/// written.
pub proof fn lemma_update_read_back(e: EntryView)
    ensures
        forall|i: int| 0 <= i < 6 ==> (#[trigger] stored_update_row(update_params_spec(e))[i]) is Some,
        entry_of_row(stored_update_row(update_params_spec(e)).map_values(|o: Option<ValueView>| o->0)) == e,
{
    let p = update_params_spec(e);
    let row = stored_update_row(p).map_values(|o: Option<ValueView>| o->0);
    assert(i32::MIN <= e.id as i64 <= i32::MAX);
    assert((e.id as i64) as i32 == e.id);
    match e.notes {
        Some(n) => {},
        None => {},
    }
    assert(entry_of_row(row) =~= e);
}

/// The row that selecting an entry gives back after `INSERT_SQL` stored the
/// parameters `p` under the rowid `id`: the id, then the five fields, each
/// read back as its column type.
pub open spec fn stored_insert_row(id: i32, p: Seq<ParamView>) -> Seq<Option<ValueView>> {
    seq![
        Some(ValueView::Int32(id)),
        read_back(p[0], ColumnType::Text),
        read_back(p[1], ColumnType::Text),
        read_back(p[2], ColumnType::Text),
        read_back(p[3], ColumnType::OptionalText),
        read_back(p[4], ColumnType::Int64),
    ]
}

/// The values that `create_entry` stores read back, with the id it
/// reports, as the entry it returns.
pub proof fn lemma_insert_read_back(
    id: i32,
    japanese: Seq<char>,
    romaji: Seq<char>,
    meaning: Seq<char>,
    notes: Option<Seq<char>>,
    date_added: i64,
)
    ensures
        forall|i: int| 0 <= i < 6 ==> (#[trigger] stored_insert_row(id, insert_params_spec(japanese, romaji, meaning, notes, date_added))[i]) is Some,
        entry_of_row(stored_insert_row(id, insert_params_spec(japanese, romaji, meaning, notes, date_added)).map_values(|o: Option<ValueView>| o->0))
            == (EntryView { id, japanese, romaji, meaning, notes, date_added }),
{
    let row = stored_insert_row(id, insert_params_spec(japanese, romaji, meaning, notes, date_added)).map_values(|o: Option<ValueView>| o->0);
    match notes {
        Some(n) => {},
        None => {},
    }
    assert(entry_of_row(row) =~= (EntryView { id, japanese, romaji, meaning, notes, date_added }));
}

/// The query that lists entries: all of them, or at most `limit`.
pub open spec fn list_query_spec(limit: Option<usize>) -> Seq<char> {
    match limit {
        Some(l) => SELECT_ALL_SQL@ + LIMIT_CLAUSE@ + nat_decimal(l as nat),
        None => SELECT_ALL_SQL@,
    }
}

/// The query that lists entries: all of them, or at most `limit`.
pub fn list_query(limit: Option<usize>) -> (q: String)
    ensures
        q@ == list_query_spec(limit),
{
    let mut q = String::from_str(SELECT_ALL_SQL);
    match limit {
        Some(l) => {
            q.append(LIMIT_CLAUSE);
            let digits = usize_to_decimal(l);
            q.append(digits.as_str());
        },
        None => {},
    }
    q
}

/// The LIKE pattern that matches any text containing `query`.
pub open spec fn like_pattern_spec(query: Seq<char>) -> Seq<char> {
    seq!['%'] + query + seq!['%']
}

/// The LIKE pattern that matches any text containing `query`.
pub fn like_pattern(query: &str) -> (p: String)
    ensures
        p@ == like_pattern_spec(query@),
{
    let mut p = String::new();
    p.push('%');
    p.append(query);
    p.push('%');
    proof { assert(p@ =~= like_pattern_spec(query@)); }
    p
}

/// The LIKE pattern a diary search binds: it matches any text that
/// contains `query` with its umlauts spelled out, as the searched columns
/// have theirs.
pub fn search_pattern(query: &str) -> (p: String)
    ensures
        p@ == like_pattern_spec(normalize_umlauts_spec(query@)),
{
    let normalized = normalize_umlauts(query);
    like_pattern(normalized.as_str())
}

/// Spelling out umlauts brings in no LIKE wildcard.
pub proof fn lemma_normalize_umlauts_no_wildcards(query: Seq<char>)
    requires
        no_wildcards(query),
    ensures
        no_wildcards(normalize_umlauts_spec(query)),
{
    let t1 = replace_char_spec(query, 'ü', seq!['u', 'e']);
    let t2 = replace_char_spec(t1, 'ö', seq!['o', 'e']);
    let t3 = replace_char_spec(t2, 'ä', seq!['a', 'e']);
    assert(!seq!['u', 'e'].contains('%') && !seq!['u', 'e'].contains('_'));
    assert(!seq!['o', 'e'].contains('%') && !seq!['o', 'e'].contains('_'));
    assert(!seq!['a', 'e'].contains('%') && !seq!['a', 'e'].contains('_'));
    assert(!seq!['s', 's'].contains('%') && !seq!['s', 's'].contains('_'));
    lemma_replace_char_keeps_other(query, 'ü', seq!['u', 'e'], '%');
    lemma_replace_char_keeps_other(query, 'ü', seq!['u', 'e'], '_');
    lemma_replace_char_keeps_other(t1, 'ö', seq!['o', 'e'], '%');
    lemma_replace_char_keeps_other(t1, 'ö', seq!['o', 'e'], '_');
    lemma_replace_char_keeps_other(t2, 'ä', seq!['a', 'e'], '%');
    lemma_replace_char_keeps_other(t2, 'ä', seq!['a', 'e'], '_');
    lemma_replace_char_keeps_other(t3, 'ß', seq!['s', 's'], '%');
    lemma_replace_char_keeps_other(t3, 'ß', seq!['s', 's'], '_');
}

/// The pattern `like_pattern` makes of a query without a LIKE wildcard
/// matches exactly the texts in which the query occurs anywhere, ASCII
/// letters in either case: at the start, in the middle or at the end.
pub proof fn law_like_pattern_finds_containing_text(query: Seq<char>, text: Seq<char>)
    requires
        no_wildcards(query),
    ensures
        like_matches(like_pattern_spec(query), text) <==> contains_like(text, query),
{
    lemma_contains_pattern(query, text);
}

/// The pattern a diary search binds for a query without a LIKE wildcard
/// matches exactly the texts in which the query, its umlauts spelled out,
/// occurs anywhere, ASCII letters in either case; the searched columns have
/// their umlauts spelled out too, so a search for "eat" finds "to eat" and
/// one for "Müller" finds "Mueller".
pub proof fn law_search_pattern_finds_containing_text(query: Seq<char>, text: Seq<char>)
    requires
        no_wildcards(query),
    ensures
        like_matches(like_pattern_spec(normalize_umlauts_spec(query)), text)
            <==> contains_like(text, normalize_umlauts_spec(query)),
{
    lemma_normalize_umlauts_no_wildcards(query);
    lemma_contains_pattern(normalize_umlauts_spec(query), text);
}

/// An update binds every field of the entry and its id: two entries whose
/// updates bind the same values are the same entry, romaji and notes
/// included.
pub proof fn law_update_binds_every_field(a: EntryView, b: EntryView)
    requires
        update_params_spec(a) == update_params_spec(b),
    ensures
        a == b,
{
    let (pa, pb) = (update_params_spec(a), update_params_spec(b));
    assert(pa[0] == pb[0] && pa[1] == pb[1] && pa[2] == pb[2] && pa[3] == pb[3] && pa[4] == pb[4] && pa[5] == pb[5]);
    match (a.notes, b.notes) {
        (Some(x), Some(y)) => {},
        (None, None) => {},
        (Some(x), None) => { assert(pa[3] != pb[3]); },
        (None, Some(y)) => { assert(pa[3] != pb[3]); },
    }
    assert((a.id as i64) as i32 == a.id);
    assert((b.id as i64) as i32 == b.id);
}

/// Fetching and deleting by id bind the same one value, the id: the entry
/// a delete is asked to remove is the one a fetch of the id would find,
/// and deletes of two ids bind the same value only if the ids are equal.
pub proof fn law_by_id_binds_only_the_id(a: i32, b: i32)
    ensures
        seq![ParamView::Integer(a as i64)].len() == 1,
        seq![ParamView::Integer(a as i64)] == seq![ParamView::Integer(b as i64)] <==> a == b,
        SELECT_BY_ID_SQL@.len() >= BY_ID_FILTER@.len(),
        DELETE_SQL@.len() >= BY_ID_FILTER@.len(),
        SELECT_BY_ID_SQL@.skip(SELECT_BY_ID_SQL@.len() - BY_ID_FILTER@.len()) == BY_ID_FILTER@,
        DELETE_SQL@.skip(DELETE_SQL@.len() - BY_ID_FILTER@.len()) == BY_ID_FILTER@,
{
    if seq![ParamView::Integer(a as i64)] == seq![ParamView::Integer(b as i64)] {
        assert(seq![ParamView::Integer(a as i64)][0] == seq![ParamView::Integer(b as i64)][0]);
    }
    reveal_strlit("SELECT id, japanese, romaji, meaning, notes, date_added FROM diary_entries WHERE id = ?1");
    reveal_strlit("DELETE FROM diary_entries WHERE id = ?1");
    reveal_strlit(" WHERE id = ?1");
    assert(SELECT_BY_ID_SQL@.skip(SELECT_BY_ID_SQL@.len() - BY_ID_FILTER@.len()) =~= BY_ID_FILTER@);
    assert(DELETE_SQL@.skip(DELETE_SQL@.len() - BY_ID_FILTER@.len()) =~= BY_ID_FILTER@);
}

/// Every listing, with or without a limit, runs the query that selects
/// every entry with all six columns, notes included, and every entry it
/// returns is read with all six columns: its notes are those of its row.
pub proof fn law_listing_reads_every_column(limit: Option<usize>, row: Seq<ValueView>)
    ensures
        list_query_spec(limit).len() >= SELECT_ALL_SQL@.len(),
        list_query_spec(limit).take(SELECT_ALL_SQL@.len() as int) == SELECT_ALL_SQL@,
        entry_columns_spec().len() == 6,
        entry_columns_spec()[4] == ColumnType::OptionalText,
        entry_of_row(row).notes == opt_text_of(row[4]),
        entry_of_row(row).romaji == text_of(row[2]),
{
    match limit {
        Some(l) => {
            assert((SELECT_ALL_SQL@ + LIMIT_CLAUSE@ + nat_decimal(l as nat)).take(SELECT_ALL_SQL@.len() as int) =~= SELECT_ALL_SQL@);
        },
        None => {
            assert(SELECT_ALL_SQL@.take(SELECT_ALL_SQL@.len() as int) =~= SELECT_ALL_SQL@);
        },
    }
}

/// The entry `get_entry` makes of what the query read: the entry of the
/// row when there was one, `None` when there was none, and the SQLite error
/// otherwise.
pub fn entry_from_read(read: Result<Option<Vec<SqlValue>>, rusqlite::Error>) -> (r: Result<Option<DiaryDBEntry>, DbError>)
    requires
        read matches Ok(Some(row)) ==> row_has_types(row@, entry_columns_spec()),
    ensures
        read matches Ok(Some(row)) ==> (r matches Ok(Some(e)) && e@ == entry_of_row(row_view(row@))),
        read matches Ok(None) ==> r matches Ok(None),
        read matches Err(e) ==> r == Err::<Option<DiaryDBEntry>, DbError>(DbError::Sqlite(e)),
{
    match read {
        Ok(Some(row)) => Ok(Some(entry_from_row(row))),
        Ok(None) => Ok(None),
        Err(e) => Err(DbError::Sqlite(e)),
    }
}

/// `r` holds what the rows read make: the entry of each row, in the order
/// of the rows, or, when the read failed, its SQLite error.
pub open spec fn entries_read_as(read: Result<Vec<Vec<SqlValue>>, rusqlite::Error>, r: Result<Vec<DiaryDBEntry>, DbError>) -> bool {
    match read {
        Ok(rows) => r is Ok && r->Ok_0.len() == rows.len() && forall|k: int|
            0 <= k < rows.len() ==> #[trigger] r->Ok_0@[k]@ == entry_of_row(row_view(rows@[k]@)),
        Err(e) => r == Err::<Vec<DiaryDBEntry>, DbError>(DbError::Sqlite(e)),
    }
}

/// What a statement that returns no rows reports of SQLite's answer:
/// nothing when it succeeded, its error otherwise.
pub open spec fn done_outcome(read: Result<usize, rusqlite::Error>) -> Result<(), DbError> {
    match read {
        Ok(_) => Ok(()),
        Err(e) => Err(DbError::Sqlite(e)),
    }
}

/// The entries a listing or a search makes of what the query read: the
/// entries of the rows, in order, or the SQLite error.
pub fn entries_from_read(read: Result<Vec<Vec<SqlValue>>, rusqlite::Error>) -> (r: Result<Vec<DiaryDBEntry>, DbError>)
    requires
        read matches Ok(rows) ==> forall|k: int| 0 <= k < rows.len() ==> row_has_types(#[trigger] rows@[k]@, entry_columns_spec()),
    ensures
        read matches Ok(rows) ==> (r matches Ok(v) && v.len() == rows.len() && forall|k: int|
            0 <= k < rows.len() ==> #[trigger] v@[k]@ == entry_of_row(row_view(rows@[k]@))),
        read matches Err(e) ==> r == Err::<Vec<DiaryDBEntry>, DbError>(DbError::Sqlite(e)),
        entries_read_as(read, r),
{
    match read {
        Ok(rows) => Ok(entries_from_rows(rows)),
        Err(e) => Err(DbError::Sqlite(e)),
    }
}

/// What a statement that returns no rows reports: nothing on success, the
/// SQLite error otherwise.
pub fn done_from_read(read: Result<usize, rusqlite::Error>) -> (r: Result<(), DbError>)
    ensures
        read is Ok ==> r is Ok,
        read matches Err(e) ==> r == Err::<(), DbError>(DbError::Sqlite(e)),
        r == done_outcome(read),
{
    match read {
        Ok(_) => Ok(()),
        Err(e) => Err(DbError::Sqlite(e)),
    }
}

/// The record `create_entry` returns for the fields it inserted, the rowid
/// SQLite assigned (truncated to 32 bits, as an `as i32` cast does) and the
/// time stamp it stored.
pub fn created_entry(japanese: &str, romaji: &str, meaning: &str, notes: Option<&str>, date_added: i64, rowid: i64) -> (e: DiaryDBEntry)
    ensures
        e.id == rowid as i32,
        e.japanese@ == japanese@,
        e.romaji@ == romaji@,
        e.meaning@ == meaning@,
        opt_text_view(e.notes) == match notes {
            Some(s) => Some(s@),
            None => None,
        },
        e.date_added == date_added,
{
    let notes_owned = match notes {
        Some(n) => Some(String::from_str(n)),
        None => None,
    };
    DiaryDBEntry {
        id: rowid as i32,
        japanese: String::from_str(japanese),
        romaji: String::from_str(romaji),
        meaning: String::from_str(meaning),
        notes: notes_owned,
        date_added,
    }
}

/// SQLite-backed database for diary entries.
pub struct DiaryDB {
    conn: Connection,
    strip_furigana: Registration,
    normalize_umlauts: Registration,
}

/// The SQL functions registered on the connection: each name with the
/// function it computes.
pub open spec fn registered_map(a: Registration, b: Registration) -> Map<Seq<char>, TextFunctionKind> {
    map![a.name() => a.function(), b.name() => b.function()]
}

/// The SQL functions a diary needs: `STRIP_FURIGANA` strips furigana and
/// `NORMALIZE_UMLAUTS` spells out umlauts.
pub open spec fn diary_functions() -> Map<Seq<char>, TextFunctionKind> {
    map![
        STRIP_FURIGANA_FN@ => TextFunctionKind::StripFurigana,
        NORMALIZE_UMLAUTS_FN@ => TextFunctionKind::NormalizeUmlauts,
    ]
}

/// Opens the database file and registers the SQL functions
/// `STRIP_FURIGANA` and `NORMALIZE_UMLAUTS` on the connection.
fn open_and_setup(path: &str) -> (r: Result<(Connection, Registration, Registration), DbError>)
    ensures
        r is Err ==> (r->Err_0 is Sqlite || r->Err_0 is Pattern),
        r is Err && r->Err_0 is Pattern ==> !ruby_patterns_valid(),
        r is Ok ==> registered_map(r->Ok_0.1, r->Ok_0.2) == diary_functions(),
        r is Ok ==> (forall|text: Seq<char>| #[trigger] r->Ok_0.1.function().computes(text) == strip_furigana_spec(text)),
        r is Ok ==> (forall|text: Seq<char>| #[trigger] r->Ok_0.2.function().computes(text) == normalize_umlauts_spec(text)),
        r is Ok ==> opened(path@, Ok::<Connection, rusqlite::Error>(r->Ok_0.0)),
{
    let conn = match sqlite_step(open_database(path)) {
        Ok(c) => c,
        Err(e) => return Err(e),
    };
    let stripper = match FuriganaStripper::new() {
        Ok(s) => s,
        Err(e) => return Err(DbError::Pattern(e)),
    };
    let strip = match sqlite_step(create_text_function(&conn, STRIP_FURIGANA_FN, TextFunction::StripFurigana(stripper))) {
        Ok(reg) => reg,
        Err(e) => return Err(e),
    };
    let normalize = match sqlite_step(create_text_function(&conn, NORMALIZE_UMLAUTS_FN, TextFunction::NormalizeUmlauts)) {
        Ok(reg) => reg,
        Err(e) => return Err(e),
    };
    proof {
        assert(registered_map(strip, normalize) =~= diary_functions());
    }
    Ok((conn, strip, normalize))
}

/// The answer of a one-column boolean query.
pub open spec fn bool_of(v: ValueView) -> bool {
    match v {
        ValueView::Bool(b) => b,
        _ => false,
    }
}

/// The message of the error that opening a database without the diary
/// table gives.
pub const MISSING_TABLE_MESSAGE: &'static str = "Database table 'diary_entries' does not exist.";

/// What opening a database makes of the answer to `TABLE_EXISTS_SQL`: it
/// goes on when the table exists and otherwise fails with SQLite's
/// `SQLITE_ERROR` carrying `MISSING_TABLE_MESSAGE`.
pub fn check_table_exists(row: &Vec<SqlValue>) -> (r: Result<(), DbError>)
    requires
        row_has_types(row@, seq![ColumnType::Bool]),
    ensures
        r is Ok <==> bool_of(row@[0]@),
        r is Err ==> r->Err_0 == DbError::Sqlite(sqlite_failure(MISSING_TABLE_MESSAGE@)),
{
    let exists = match &row[0] {
        SqlValue::Bool(b) => *b,
        _ => false,
    };
    if exists {
        Ok(())
    } else {
        Err(DbError::Sqlite(sqlite_error_with_message(MISSING_TABLE_MESSAGE)))
    }
}

impl DiaryDB {
    /// The connection the diary reads and writes through.
    pub closed spec fn connection(&self) -> Connection {
        self.conn
    }

    /// The SQL functions registered on this database's connection.
    pub closed spec fn registered_functions(&self) -> Map<Seq<char>, TextFunctionKind> {
        registered_map(self.strip_furigana, self.normalize_umlauts)
    }

    /// Open an existing diary database.
    /// Fails with SQLite's `SQLITE_ERROR` and `MISSING_TABLE_MESSAGE` if the
    /// table 'diary_entries' does not exist. The diary reads and writes
    /// through the connection opened on `path`, after SQLite answered that
    /// the table exists.
    pub fn new(path: &str) -> (r: Result<DiaryDB, DbError>)
        ensures
            r is Err ==> !(r->Err_0 is ClockBeforeEpoch),
            r is Err && r->Err_0 is Pattern ==> !ruby_patterns_valid(),
            r is Ok ==> r->Ok_0.registered_functions() == diary_functions(),
            r is Ok ==> opened(path@, Ok::<Connection, rusqlite::Error>(r->Ok_0.connection())),
            r is Ok ==> exists|row: Vec<SqlValue>|
                #[trigger] ran_first_row(r->Ok_0.connection(), TABLE_EXISTS_SQL@, Seq::empty(), seq![ColumnType::Bool], Ok::<Vec<SqlValue>, rusqlite::Error>(row))
                && bool_of(row@[0]@),
    {
        let (conn, strip_furigana, normalize_umlauts) = match open_and_setup(path) {
            Ok(c) => c,
            Err(e) => return Err(e),
        };
        let mut columns = Vec::new();
        columns.push(ColumnType::Bool);
        let no_params: Vec<SqlParam> = Vec::new();
        let read = first_row(&conn, TABLE_EXISTS_SQL, &no_params, &columns);
        proof {
            assert(columns@ =~= seq![ColumnType::Bool]);
            assert(params_view(no_params@) =~= Seq::empty());
        }
        let ghost read_value = read;
        let row = match sqlite_step(read) {
            Ok(row) => row,
            Err(e) => return Err(e),
        };
        match check_table_exists(&row) {
            Ok(()) => {},
            Err(e) => return Err(e),
        }
        let db = DiaryDB { conn, strip_furigana, normalize_umlauts };
        let r: Result<DiaryDB, DbError> = Ok(db);
        proof {
            assert(read_value == Ok::<Vec<SqlValue>, rusqlite::Error>(row));
            assert(r->Ok_0.connection() == db.connection());
            assert(ran_first_row(r->Ok_0.connection(), TABLE_EXISTS_SQL@, Seq::empty(), seq![ColumnType::Bool], Ok::<Vec<SqlValue>, rusqlite::Error>(row)));
        }
        r
    }

    /// Insert a new diary entry and return the created record, with the id
    /// SQLite assigned and the current time in milliseconds since the epoch:
    /// the record holds the inserted fields, its time stamp is the one bound
    /// to `INSERT_SQL`, which SQLite ran, and its id is the rowid SQLite
    /// answered after the insert.
    pub fn create_entry(&self, japanese: &str, romaji: &str, meaning: &str, notes: Option<&str>) -> (r: Result<DiaryDBEntry, DbError>)
        ensures
            r is Err ==> (r->Err_0 is Sqlite || r->Err_0 is ClockBeforeEpoch),
            r is Ok ==> ({
                let e = r->Ok_0;
                &&& e.japanese@ == japanese@
                &&& e.romaji@ == romaji@
                &&& e.meaning@ == meaning@
                &&& opt_text_view(e.notes) == match notes {
                    Some(s) => Some(s@),
                    None => None,
                }
            }),
            r is Ok ==> exists|done: usize, rowid: i64| {
                &&& ran_statement(
                    self.connection(),
                    INSERT_SQL@,
                    insert_params_spec(japanese@, romaji@, meaning@, opt_text_view(r->Ok_0.notes), r->Ok_0.date_added),
                    Ok::<usize, rusqlite::Error>(done),
                )
                &&& gave_rowid(self.connection(), rowid)
                &&& r->Ok_0.id == rowid as i32
            },
    {
        let date_added = match unix_millis_now() {
            Ok(ms) => ms,
            Err(e) => return Err(DbError::ClockBeforeEpoch(e)),
        };
        let params = insert_params(japanese, romaji, meaning, notes, date_added);
        let res = run_statement(&self.conn, INSERT_SQL, &params);
        let ghost res_value = res;
        match done_from_read(res) {
            Ok(()) => {},
            Err(e) => return Err(e),
        }
        let rowid = inserted_rowid(&self.conn);
        let e = created_entry(japanese, romaji, meaning, notes, date_added, rowid);
        proof {
            assert(opt_text_view(e.notes) == match notes {
                Some(s) => Some(s@),
                None => None::<Seq<char>>,
            });
            assert(ran_statement(
                self.connection(),
                INSERT_SQL@,
                insert_params_spec(japanese@, romaji@, meaning@, opt_text_view(e.notes), e.date_added),
                Ok::<usize, rusqlite::Error>(res_value->Ok_0),
            ));
        }
        Ok(e)
    }

    /// Fetch a single entry by its id: `Ok(Some(entry))` if found,
    /// `Ok(None)` if no entry exists. The entry is that of the row SQLite
    /// answered to `SELECT_BY_ID_SQL` bound to `id`.
    pub fn get_entry(&self, id: i32) -> (r: Result<Option<DiaryDBEntry>, DbError>)
        ensures
            r is Err ==> r->Err_0 is Sqlite,
            exists|read: Result<Vec<SqlValue>, rusqlite::Error>| {
                &&& #[trigger] ran_first_row(self.connection(), SELECT_BY_ID_SQL@, seq![ParamView::Integer(id as i64)], entry_columns_spec(), read)
                &&& read matches Ok(row) ==> (r matches Ok(Some(e)) && e@ == entry_of_row(row_view(row@)))
                &&& read is Err ==> (r is Ok ==> r->Ok_0 is None)
            },
    {
        let params = id_params(id);
        let columns = entry_columns();
        let read = first_row(&self.conn, SELECT_BY_ID_SQL, &params, &columns);
        let ghost read_value = read;
        let r = entry_from_read(optional_row(read));
        proof {
            assert(ran_first_row(self.connection(), SELECT_BY_ID_SQL@, seq![ParamView::Integer(id as i64)], entry_columns_spec(), read_value));
        }
        r
    }

    /// Fetch all entries, at most `limit` of them when a limit is given:
    /// the entries of the rows SQLite answered to `list_query_spec(limit)`,
    /// every column read, in the order of the rows.
    pub fn get_all_entries(&self, limit: Option<usize>) -> (r: Result<Vec<DiaryDBEntry>, DbError>)
        ensures
            r is Err ==> r->Err_0 is Sqlite,
            exists|read: Result<Vec<Vec<SqlValue>>, rusqlite::Error>|
                ran_query(self.connection(), list_query_spec(limit), Seq::empty(), entry_columns_spec(), read)
                && entries_read_as(read, r),
    {
        let query = list_query(limit);
        let columns = entry_columns();
        let no_params: Vec<SqlParam> = Vec::new();
        proof { assert(params_view(no_params@) =~= Seq::empty()); }
        let read = query_rows(&self.conn, query.as_str(), &no_params, &columns);
        let ghost read_value = read;
        let r = entries_from_read(read);
        proof {
            assert(ran_query(self.connection(), list_query_spec(limit), Seq::empty(), entry_columns_spec(), read_value));
        }
        r
    }

    /// Update an existing entry by id: SQLite is asked to run `UPDATE_SQL`
    /// with every field of `entry`, then its id.
    pub fn update_entry(&self, entry: &DiaryDBEntry) -> (r: Result<(), DbError>)
        ensures
            r is Err ==> r->Err_0 is Sqlite,
            exists|res: Result<usize, rusqlite::Error>|
                ran_statement(self.connection(), UPDATE_SQL@, update_params_spec(entry@), res) && r == done_outcome(res),
    {
        let params = update_params(entry);
        let res = run_statement(&self.conn, UPDATE_SQL, &params);
        let ghost res_value = res;
        let r = done_from_read(res);
        proof {
            assert(ran_statement(self.connection(), UPDATE_SQL@, update_params_spec(entry@), res_value));
        }
        r
    }

    /// Delete an entry by id: SQLite is asked to run `DELETE_SQL` with `id`
    /// alone.
    pub fn delete_entry(&self, id: i32) -> (r: Result<(), DbError>)
        ensures
            r is Err ==> r->Err_0 is Sqlite,
            exists|res: Result<usize, rusqlite::Error>|
                ran_statement(self.connection(), DELETE_SQL@, seq![ParamView::Integer(id as i64)], res) && r == done_outcome(res),
    {
        let params = id_params(id);
        let res = run_statement(&self.conn, DELETE_SQL, &params);
        let ghost res_value = res;
        let r = done_from_read(res);
        proof {
            assert(ran_statement(self.connection(), DELETE_SQL@, seq![ParamView::Integer(id as i64)], res_value));
        }
        r
    }

    /// Search entries by Japanese, romaji, or meaning using a LIKE query;
    /// umlauts in `query` match their spelled-out form, as in the searched
    /// columns, and the matching entries come newest first. The entries are
    /// those of the rows SQLite answered to `SEARCH_SQL` bound to the
    /// pattern `%`, `query` with its umlauts spelled out, `%`.
    pub fn search_entries(&self, query: &str) -> (r: Result<Vec<DiaryDBEntry>, DbError>)
        ensures
            r is Err ==> r->Err_0 is Sqlite,
            exists|read: Result<Vec<Vec<SqlValue>>, rusqlite::Error>|
                ran_query(
                    self.connection(),
                    SEARCH_SQL@,
                    seq![ParamView::Text(like_pattern_spec(normalize_umlauts_spec(query@)))],
                    entry_columns_spec(),
                    read,
                ) && entries_read_as(read, r),
    {
        let pattern = search_pattern(query);
        let mut params = Vec::new();
        params.push(SqlParam::Text(pattern));
        let columns = entry_columns();
        proof {
            assert(params_view(params@) =~= seq![ParamView::Text(like_pattern_spec(normalize_umlauts_spec(query@)))]);
        }
        let read = query_rows(&self.conn, SEARCH_SQL, &params, &columns);
        let ghost read_value = read;
        let r = entries_from_read(read);
        proof {
            assert(ran_query(
                self.connection(),
                SEARCH_SQL@,
                seq![ParamView::Text(like_pattern_spec(normalize_umlauts_spec(query@)))],
                entry_columns_spec(),
                read_value,
            ));
        }
        r
    }

    /// Run a VACUUM on the database to reclaim space.
    pub fn vacuum(&self) -> (r: Result<(), DbError>)
        ensures
            r is Err ==> r->Err_0 is Sqlite,
            exists|res: Result<usize, rusqlite::Error>|
                ran_statement(self.connection(), VACUUM_SQL@, Seq::empty(), res) && r == done_outcome(res),
    {
        let no_params: Vec<SqlParam> = Vec::new();
        proof { assert(params_view(no_params@) =~= Seq::empty()); }
        let res = run_statement(&self.conn, VACUUM_SQL, &no_params);
        let ghost res_value = res;
        let r = done_from_read(res);
        proof {
            assert(ran_statement(self.connection(), VACUUM_SQL@, Seq::empty(), res_value));
        }
        r
    }
}

} // verus!
