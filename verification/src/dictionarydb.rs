use vstd::prelude::*;
use rusqlite::Connection;
use crate::diarydb::{bool_of, like_pattern, like_pattern_spec};
use crate::text::texts_view;
use crate::error::DbError;
use crate::sql::{
    first_row, open_database, opened, query_rows, ran_first_row, ran_query, row_has_types,
    params_view, ColumnType, ParamView, SqlParam, SqlValue, ValueView,
};

verus! {

/// Search result entry for JMdict records.
#[derive(Debug, Clone)]
pub struct JmdictEntry {
    /// Kanji spellings (keb values).
    pub kanji: Vec<String>,
    /// Kana readings (reb values).
    pub readings: Vec<String>,
    /// English glosses.
    pub glosses: Vec<String>,
}

/// The ids of at most 50 distinct entries whose kanji, reading or gloss
/// matches the LIKE pattern `?1`.
pub const SEARCH_IDS_SQL: &'static str =
    "SELECT DISTINCT je.id 
             FROM jmdict_entries je
             LEFT JOIN jmdict_kanji jk ON je.id = jk.entry_id
             LEFT JOIN jmdict_readings jr ON je.id = jr.entry_id
             LEFT JOIN jmdict_senses js ON je.id = js.entry_id
             LEFT JOIN jmdict_glosses jg ON js.id = jg.sense_id
             WHERE jk.keb LIKE ?1 
                OR jr.reb LIKE ?1 
                OR jg.gloss LIKE ?1
             LIMIT 50";

/// Whether the entry with the id `?1` exists.
pub const ENTRY_EXISTS_SQL: &'static str = "SELECT COUNT(*) > 0 FROM jmdict_entries WHERE id = ?1";

/// The kanji spellings of the entry `?1`.
pub const KANJI_SQL: &'static str = "SELECT keb FROM jmdict_kanji WHERE entry_id = ?1";

/// The kana readings of the entry `?1`.
pub const READINGS_SQL: &'static str = "SELECT reb FROM jmdict_readings WHERE entry_id = ?1";

/// The distinct English glosses of the senses of the entry `?1`.
pub const GLOSSES_SQL: &'static str =
    "SELECT DISTINCT jg.gloss 
             FROM jmdict_glosses jg
             JOIN jmdict_senses js ON jg.sense_id = js.id
             WHERE js.entry_id = ?1";

/// The text of a one-column text row.
pub open spec fn row_text(row: Seq<SqlValue>) -> Seq<char> {
    match row[0]@ {
        ValueView::Text(t) => t,
        _ => Seq::empty(),
    }
}

/// The id of a one-column id row.
pub open spec fn row_id(row: Seq<SqlValue>) -> i32 {
    match row[0]@ {
        ValueView::Int32(i) => i,
        _ => 0,
    }
}

/// The texts of one-column text rows, in order.
pub fn texts_from_rows(rows: Vec<Vec<SqlValue>>) -> (v: Vec<String>)
    requires
        forall|k: int| 0 <= k < rows.len() ==> row_has_types(#[trigger] rows@[k]@, seq![ColumnType::Text]),
    ensures
        v.len() == rows.len(),
        forall|k: int| 0 <= k < rows.len() ==> #[trigger] v@[k]@ == row_text(rows@[k]@),
{
    let mut texts: Vec<String> = Vec::new();
    for row in it: rows.into_iter()
        invariant
            it.seq() == rows@,
            texts.len() == it.index(),
            forall|j: int| 0 <= j < rows.len() ==> row_has_types(#[trigger] rows@[j]@, seq![ColumnType::Text]),
            forall|j: int| 0 <= j < it.index() ==> #[trigger] texts@[j]@ == row_text(rows@[j]@),
    {
        let ghost r = row@;
        let mut row = row;
        let t = match row.pop() {
            Some(SqlValue::Text(t)) => t,
            _ => String::new(),
        };
        proof {
            assert(r.len() == 1);
            assert(r[0] == r[r.len() - 1]);
        }
        texts.push(t);
    }
    texts
}

/// The ids of one-column id rows, in order.
pub fn ids_from_rows(rows: &Vec<Vec<SqlValue>>) -> (v: Vec<i32>)
    requires
        forall|k: int| 0 <= k < rows.len() ==> row_has_types(#[trigger] rows@[k]@, seq![ColumnType::Int32]),
    ensures
        v.len() == rows.len(),
        forall|k: int| 0 <= k < rows.len() ==> #[trigger] v@[k] == row_id(rows@[k]@),
        v@ == rows_ids(rows@),
{
    let mut ids: Vec<i32> = Vec::new();
    let mut k: usize = 0;
    while k < rows.len()
        invariant
            k <= rows.len(),
            ids.len() == k,
            forall|j: int| 0 <= j < rows.len() ==> row_has_types(#[trigger] rows@[j]@, seq![ColumnType::Int32]),
            forall|j: int| 0 <= j < k ==> #[trigger] ids@[j] == row_id(rows@[j]@),
        decreases rows.len() - k,
    {
        let id = match &rows[k][0] {
            SqlValue::Int32(i) => *i,
            _ => 0,
        };
        proof { assert(rows@[k as int]@.len() == 1); }
        ids.push(id);
        k = k + 1;
    }
    proof { assert(ids@ =~= rows_ids(rows@)); }
    ids
}

/// The ids of one-column id rows, in order.
pub open spec fn rows_ids(rows: Seq<Vec<SqlValue>>) -> Seq<i32> {
    rows.map_values(|row: Vec<SqlValue>| row_id(row@))
}

/// The value bound to `?1` of the queries about one entry.
fn entry_id_params(entry_id: i32) -> (v: Vec<SqlParam>)
    ensures
        params_view(v@) == seq![ParamView::Integer(entry_id as i64)],
{
    let mut v = Vec::new();
    v.push(SqlParam::Integer(entry_id as i64));
    proof { assert(params_view(v@) =~= seq![ParamView::Integer(entry_id as i64)]); }
    v
}

/// The column types of a one-column text query.
fn text_column() -> (v: Vec<ColumnType>)
    ensures
        v@ == seq![ColumnType::Text],
{
    let mut v = Vec::new();
    v.push(ColumnType::Text);
    proof { assert(v@ =~= seq![ColumnType::Text]); }
    v
}

/// The texts of one-column text rows, in order.
pub open spec fn rows_texts(rows: Seq<Vec<SqlValue>>) -> Seq<Seq<char>> {
    rows.map_values(|row: Vec<SqlValue>| row_text(row@))
}

/// Whether every row holds one text column.
pub open spec fn text_rows(rows: Seq<Vec<SqlValue>>) -> bool {
    forall|k: int| 0 <= k < rows.len() ==> row_has_types(#[trigger] rows[k]@, seq![ColumnType::Text])
}

/// The dictionary entry that the lookup of one id makes of the answers to
/// its queries: nothing when the existence query says no; otherwise the
/// kanji, readings and glosses, each the texts of its own query, in the
/// order the rows came.
pub fn jmdict_entry_from_rows(
    exists: &Vec<SqlValue>,
    kanji: Vec<Vec<SqlValue>>,
    readings: Vec<Vec<SqlValue>>,
    glosses: Vec<Vec<SqlValue>>,
) -> (r: Option<JmdictEntry>)
    requires
        row_has_types(exists@, seq![ColumnType::Bool]),
        text_rows(kanji@),
        text_rows(readings@),
        text_rows(glosses@),
    ensures
        !bool_of(exists@[0]@) ==> r is None,
        bool_of(exists@[0]@) ==> (r matches Some(e) && texts_view(e.kanji@) == rows_texts(kanji@)
            && texts_view(e.readings@) == rows_texts(readings@) && texts_view(e.glosses@)
            == rows_texts(glosses@)),
{
    let entry_exists = match &exists[0] {
        SqlValue::Bool(b) => *b,
        _ => false,
    };
    if !entry_exists {
        return None;
    }
    let ghost (k0, r0, g0) = (kanji@, readings@, glosses@);
    let kanji = texts_from_rows(kanji);
    let readings = texts_from_rows(readings);
    let glosses = texts_from_rows(glosses);
    proof {
        assert(texts_view(kanji@) =~= rows_texts(k0));
        assert(texts_view(readings@) =~= rows_texts(r0));
        assert(texts_view(glosses@) =~= rows_texts(g0));
    }
    Some(JmdictEntry { kanji, readings, glosses })
}

/// The entries that were found among the results of the lookups, in order.
pub open spec fn found_entries(lookups: Seq<Option<JmdictEntry>>) -> Seq<JmdictEntry>
    decreases lookups.len(),
{
    if lookups.len() == 0 {
        Seq::empty()
    } else {
        found_entries(lookups.drop_last()) + match lookups.last() {
            Some(e) => seq![e],
            None => Seq::empty(),
        }
    }
}

/// One step of a search: a found entry is kept after those before it, an
/// id without an entry adds nothing, and an error ends the search.
pub fn collect_lookup(entries: Vec<JmdictEntry>, lookup: Result<Option<JmdictEntry>, DbError>) -> (r: Result<Vec<JmdictEntry>, DbError>)
    ensures
        lookup is Ok ==> (r is Ok && r->Ok_0@ == entries@ + match lookup->Ok_0 {
            Some(e) => seq![e],
            None => Seq::<JmdictEntry>::empty(),
        }),
        lookup is Err ==> r == Err::<Vec<JmdictEntry>, DbError>(lookup->Err_0),
{
    let mut entries = entries;
    match lookup {
        Ok(Some(e)) => {
            let ghost before = entries@;
            entries.push(e);
            proof { assert(entries@ =~= before + seq![e]); }
            Ok(entries)
        },
        Ok(None) => {
            proof { assert(entries@ =~= entries@ + Seq::<JmdictEntry>::empty()); }
            Ok(entries)
        },
        Err(e) => Err(e),
    }
}

/// What a run of lookups that stops at the first error comes to: the
/// entries found, in the order of the lookups, or the error of the first
/// lookup that failed.
pub open spec fn lookups_outcome(lookups: Seq<Result<Option<JmdictEntry>, DbError>>) -> Result<Seq<JmdictEntry>, DbError>
    decreases lookups.len(),
{
    if lookups.len() == 0 {
        Ok(Seq::empty())
    } else {
        match lookups_outcome(lookups.drop_last()) {
            Err(e) => Err(e),
            Ok(found) => match lookups.last() {
                Err(e) => Err(e),
                Ok(Some(entry)) => Ok(found.push(entry)),
                Ok(None) => Ok(found),
            },
        }
    }
}

/// `lookups` is a run of lookups over `ids` that gave `r`: one lookup per
/// id, in the order of the ids, `looked_up(ids[k], lookups[k])` holding of
/// each; the run stops after the first error only, and `r` is what the run
/// comes to.
pub open spec fn lookup_run_by(
    ids: Seq<i32>,
    looked_up: spec_fn(i32, Result<Option<JmdictEntry>, DbError>) -> bool,
    lookups: Seq<Result<Option<JmdictEntry>, DbError>>,
    r: Result<Vec<JmdictEntry>, DbError>,
) -> bool {
    &&& lookups.len() <= ids.len()
    &&& forall|k: int| 0 <= k < lookups.len() ==> looked_up(ids[k], #[trigger] lookups[k])
    &&& forall|k: int| 0 <= k < lookups.len() - 1 ==> #[trigger] lookups[k] is Ok
    &&& lookups.len() < ids.len() ==> (lookups.len() > 0 && lookups.last() is Err)
    &&& match lookups_outcome(lookups) {
        Ok(found) => r is Ok && r->Ok_0@ == found,
        Err(e) => r is Err && r->Err_0 == e && lookups.last() == Err::<Option<JmdictEntry>, DbError>(e),
    }
}

/// `lookups` is a run of `lookup` over `ids` that gave `r`: one lookup per
/// id, in the order of the ids, `lookups[k]` being what `lookup` returned
/// for `ids[k]`; the run stops after the first error only, and `r` is what
/// the run comes to.
pub open spec fn lookup_run_gives<F: Fn(i32) -> Result<Option<JmdictEntry>, DbError>>(
    ids: Seq<i32>,
    lookup: F,
    lookups: Seq<Result<Option<JmdictEntry>, DbError>>,
    r: Result<Vec<JmdictEntry>, DbError>,
) -> bool {
    lookup_run_by(ids, |id: i32, found: Result<Option<JmdictEntry>, DbError>| lookup.ensures((id,), found), lookups, r)
}

/// A run of lookups that comes to entries holds successes only, and comes
/// to the entries they found, in order.
pub proof fn lemma_outcome_entries(lookups: Seq<Result<Option<JmdictEntry>, DbError>>)
    requires
        lookups_outcome(lookups) is Ok,
    ensures
        forall|k: int| 0 <= k < lookups.len() ==> #[trigger] lookups[k] is Ok,
        lookups_outcome(lookups)->Ok_0
            == found_entries(lookups.map_values(|l: Result<Option<JmdictEntry>, DbError>| l->Ok_0)),
    decreases lookups.len(),
{
    let found = lookups.map_values(|l: Result<Option<JmdictEntry>, DbError>| l->Ok_0);
    if lookups.len() == 0 {
        assert(found =~= Seq::<Option<JmdictEntry>>::empty());
    } else {
        let before = lookups.drop_last();
        lemma_outcome_entries(before);
        assert(found.drop_last() =~= before.map_values(|l: Result<Option<JmdictEntry>, DbError>| l->Ok_0));
        let prev = lookups_outcome(before)->Ok_0;
        match lookups.last() {
            Ok(Some(e)) => assert(prev.push(e) =~= prev + seq![e]),
            Ok(None) => assert(prev =~= prev + Seq::<JmdictEntry>::empty()),
            Err(_) => {},
        }
        assert forall|k: int| 0 <= k < lookups.len() implies #[trigger] lookups[k] is Ok by {
            if k < lookups.len() - 1 {
                assert(lookups[k] == before[k]);
            }
        }
    }
}

/// A run of lookups that succeeded, such as that of a dictionary search
/// that succeeded, looked up every id, in order, each with what the lookup
/// of that id answered, and holds exactly the entries those lookups found,
/// in the order of the ids: no id is left out, and no entry added.
pub proof fn law_successful_run_looks_up_every_id(
    ids: Seq<i32>,
    looked_up: spec_fn(i32, Result<Option<JmdictEntry>, DbError>) -> bool,
    lookups: Seq<Result<Option<JmdictEntry>, DbError>>,
    r: Result<Vec<JmdictEntry>, DbError>,
)
    requires
        lookup_run_by(ids, looked_up, lookups, r),
        r is Ok,
    ensures
        lookups.len() == ids.len(),
        forall|k: int| 0 <= k < ids.len() ==> looked_up(ids[k], #[trigger] lookups[k]) && lookups[k] is Ok,
        r->Ok_0@ == found_entries(lookups.map_values(|l: Result<Option<JmdictEntry>, DbError>| l->Ok_0)),
{
    lemma_outcome_entries(lookups);
    if lookups.len() < ids.len() {
        assert(lookups.last() == lookups[lookups.len() - 1]);
    }
}

/// Looks up each id in turn with `lookup`: the entries found, in the order
/// of the ids, skipping ids without an entry; the first error ends the
/// lookups and is the result. No id gives no lookup and no entry.
pub fn lookup_all<F: Fn(i32) -> Result<Option<JmdictEntry>, DbError>>(ids: &Vec<i32>, lookup: F) -> (r: Result<Vec<JmdictEntry>, DbError>)
    requires
        forall|id: i32| lookup.requires((id,)),
    ensures
        exists|lookups: Seq<Result<Option<JmdictEntry>, DbError>>| lookup_run_gives(ids@, lookup, lookups, r),
        ids.len() == 0 ==> (r is Ok && r->Ok_0@ == Seq::<JmdictEntry>::empty()),
{
    let mut entries: Vec<JmdictEntry> = Vec::new();
    let ghost mut lookups: Seq<Result<Option<JmdictEntry>, DbError>> = Seq::empty();
    let mut k: usize = 0;
    while k < ids.len()
        invariant
            k <= ids.len(),
            lookups.len() == k,
            forall|id: i32| lookup.requires((id,)),
            forall|j: int| 0 <= j < k ==> lookup.ensures((ids@[j],), #[trigger] lookups[j]),
            forall|j: int| 0 <= j < k ==> #[trigger] lookups[j] is Ok,
            lookups_outcome(lookups) == Ok::<Seq<JmdictEntry>, DbError>(entries@),
        decreases ids.len() - k,
    {
        let one = lookup(ids[k]);
        let ghost prev = lookups;
        let ghost before = entries@;
        proof {
            lookups = lookups.push(one);
            assert(lookups.drop_last() =~= prev);
        }
        entries = match collect_lookup(entries, one) {
            Ok(v) => {
                proof {
                    match one->Ok_0 {
                        Some(e) => assert(before + seq![e] =~= before.push(e)),
                        None => assert(before + Seq::<JmdictEntry>::empty() =~= before),
                    }
                }
                v
            },
            Err(e) => {
                let r = Err(e);
                assert(lookup_run_gives(ids@, lookup, lookups, r));
                return r;
            },
        };
        k = k + 1;
    }
    let r = Ok(entries);
    assert(lookup_run_gives(ids@, lookup, lookups, r));
    r
}

/// SQLite-backed dictionary database for JMdict data.
pub struct DictionaryDB {
    conn: Connection,
}

impl DictionaryDB {
    /// The connection the dictionary reads through.
    pub closed spec fn connection(&self) -> Connection {
        self.conn
    }

    /// The dictionary that opening its file gave: one that reads through the
    /// opened connection, or the SQLite error.
    pub fn from_opened(open: Result<Connection, rusqlite::Error>) -> (r: Result<DictionaryDB, DbError>)
        ensures
            open is Ok ==> (r is Ok && r->Ok_0.connection() == open->Ok_0),
            open is Err ==> r == Err::<DictionaryDB, DbError>(DbError::Sqlite(open->Err_0)),
    {
        match open {
            Ok(conn) => Ok(DictionaryDB { conn }),
            Err(e) => Err(DbError::Sqlite(e)),
        }
    }

    /// Open the dictionary database at `path`: it reads through the
    /// connection opened on `path`.
    pub fn new(path: &str) -> (r: Result<DictionaryDB, DbError>)
        ensures
            r is Err ==> r->Err_0 is Sqlite,
            r is Ok ==> opened(path@, Ok::<Connection, rusqlite::Error>(r->Ok_0.connection())),
    {
        DictionaryDB::from_opened(open_database(path))
    }

    /// `get_entry_by_id` answered `found` for the id `id`.
    pub closed spec fn looked_up(&self, id: i32, found: Result<Option<JmdictEntry>, DbError>) -> bool {
        call_ensures(DictionaryDB::get_entry_by_id, (self, id), found)
    }

    /// The lookups of this dictionary, as a relation between an id and what
    /// its lookup answered.
    pub open spec fn lookups_by_id(&self) -> spec_fn(i32, Result<Option<JmdictEntry>, DbError>) -> bool {
        |id: i32, found: Result<Option<JmdictEntry>, DbError>| self.looked_up(id, found)
    }

    /// The rows a one-column text query about the entry `entry_id` returns.
    fn entry_text_rows(&self, sql: &str, entry_id: i32) -> (r: Result<Vec<Vec<SqlValue>>, rusqlite::Error>)
        ensures
            ran_query(self.conn, sql@, seq![ParamView::Integer(entry_id as i64)], seq![ColumnType::Text], r),
            r is Ok ==> text_rows(r->Ok_0@),
    {
        let columns = text_column();
        query_rows(&self.conn, sql, &entry_id_params(entry_id), &columns)
    }

    /// Search for entries by kanji, reading, or meaning: the entries whose
    /// ids the search query returns, in that order, skipping ids without
    /// an entry. The ids are those of the rows SQLite answered to
    /// `SEARCH_IDS_SQL` bound to the pattern `%`, `query`, `%`, and every one
    /// of them is looked up, in order, until a lookup fails.
    pub fn search(&self, query: &str) -> (r: Result<Vec<JmdictEntry>, DbError>)
        ensures
            r is Err ==> r->Err_0 is Sqlite,
            exists|read: Result<Vec<Vec<SqlValue>>, rusqlite::Error>| {
                &&& ran_query(
                    self.connection(),
                    SEARCH_IDS_SQL@,
                    seq![ParamView::Text(like_pattern_spec(query@))],
                    seq![ColumnType::Int32],
                    read,
                )
                &&& match read {
                    Ok(rows) => exists|lookups: Seq<Result<Option<JmdictEntry>, DbError>>|
                        lookup_run_by(rows_ids(rows@), self.lookups_by_id(), lookups, r),
                    Err(e) => r == Err::<Vec<JmdictEntry>, DbError>(DbError::Sqlite(e)),
                }
            },
    {
        let pattern = like_pattern(query);
        let mut params = Vec::new();
        params.push(SqlParam::Text(pattern));
        let mut columns = Vec::new();
        columns.push(ColumnType::Int32);
        proof {
            assert(columns@ =~= seq![ColumnType::Int32]);
            assert(params_view(params@) =~= seq![ParamView::Text(like_pattern_spec(query@))]);
        }
        let read = query_rows(&self.conn, SEARCH_IDS_SQL, &params, &columns);
        let ghost read_value = read;
        proof {
            assert(ran_query(
                self.connection(),
                SEARCH_IDS_SQL@,
                seq![ParamView::Text(like_pattern_spec(query@))],
                seq![ColumnType::Int32],
                read_value,
            ));
        }
        let rows = match read {
            Ok(rows) => rows,
            Err(e) => return Err(DbError::Sqlite(e)),
        };
        let entry_ids = ids_from_rows(&rows);
        let by_id = |id: i32| -> (found: Result<Option<JmdictEntry>, DbError>)
            ensures
                found is Err ==> found->Err_0 is Sqlite,
                self.looked_up(id, found),
        { self.get_entry_by_id(id) };
        let ghost lookup = by_id;
        let r = lookup_all(&entry_ids, by_id);
        proof {
            let lookups = choose|l: Seq<Result<Option<JmdictEntry>, DbError>>| lookup_run_gives(entry_ids@, lookup, l, r);
            assert forall|k: int| 0 <= k < lookups.len() implies (self.lookups_by_id())(rows_ids(rows@)[k], #[trigger] lookups[k]) by {
                assert(lookup.ensures((entry_ids@[k],), lookups[k]));
            }
            assert(lookup_run_by(rows_ids(rows@), self.lookups_by_id(), lookups, r));
            if r is Err {
                assert(lookup.ensures((entry_ids@[lookups.len() - 1],), lookups[lookups.len() - 1]));
            }
        }
        r
    }

    /// Get a single entry by its JMdict entry id with related data:
    /// `Ok(Some(entry))` if found, `Ok(None)` if no entry exists. Whether it
    /// exists is SQLite's answer to `ENTRY_EXISTS_SQL` bound to the id; its
    /// kanji, readings and glosses are the texts of the rows SQLite answered
    /// to `KANJI_SQL`, `READINGS_SQL` and `GLOSSES_SQL` bound to the id.
    fn get_entry_by_id(&self, entry_id: i32) -> (r: Result<Option<JmdictEntry>, DbError>)
        ensures
            r is Err ==> r->Err_0 is Sqlite,
            exists|read: Result<Vec<SqlValue>, rusqlite::Error>| {
                &&& #[trigger] ran_first_row(self.conn, ENTRY_EXISTS_SQL@, seq![ParamView::Integer(entry_id as i64)], seq![ColumnType::Bool], read)
                &&& read matches Err(e) ==> r == Err::<Option<JmdictEntry>, DbError>(DbError::Sqlite(e))
                &&& read matches Ok(row) ==> (!bool_of(row@[0]@) ==> r matches Ok(None))
                &&& read matches Ok(row) ==> (bool_of(row@[0]@) && r is Ok ==> exists|kanji: Vec<Vec<SqlValue>>, readings: Vec<Vec<SqlValue>>, glosses: Vec<Vec<SqlValue>>| {
                    &&& ran_query(self.conn, KANJI_SQL@, seq![ParamView::Integer(entry_id as i64)], seq![ColumnType::Text], Ok::<Vec<Vec<SqlValue>>, rusqlite::Error>(kanji))
                    &&& ran_query(self.conn, READINGS_SQL@, seq![ParamView::Integer(entry_id as i64)], seq![ColumnType::Text], Ok::<Vec<Vec<SqlValue>>, rusqlite::Error>(readings))
                    &&& ran_query(self.conn, GLOSSES_SQL@, seq![ParamView::Integer(entry_id as i64)], seq![ColumnType::Text], Ok::<Vec<Vec<SqlValue>>, rusqlite::Error>(glosses))
                    &&& r->Ok_0 matches Some(e)
                    &&& texts_view(e.kanji@) == rows_texts(kanji@)
                    &&& texts_view(e.readings@) == rows_texts(readings@)
                    &&& texts_view(e.glosses@) == rows_texts(glosses@)
                })
            },
    {
        let mut columns = Vec::new();
        columns.push(ColumnType::Bool);
        let read = first_row(&self.conn, ENTRY_EXISTS_SQL, &entry_id_params(entry_id), &columns);
        let ghost read_value = read;
        proof {
            assert(columns@ =~= seq![ColumnType::Bool]);
            assert(text_rows(Seq::<Vec<SqlValue>>::empty()));
            assert(ran_first_row(self.conn, ENTRY_EXISTS_SQL@, seq![ParamView::Integer(entry_id as i64)], seq![ColumnType::Bool], read_value));
        }
        let row = match read {
            Ok(row) => row,
            Err(e) => return Err(DbError::Sqlite(e)),
        };
        let entry_exists = match &row[0] {
            SqlValue::Bool(b) => *b,
            _ => false,
        };
        if !entry_exists {
            return Ok(jmdict_entry_from_rows(&row, Vec::new(), Vec::new(), Vec::new()));
        }
        let kanji = match self.entry_text_rows(KANJI_SQL, entry_id) {
            Ok(v) => v,
            Err(e) => return Err(DbError::Sqlite(e)),
        };
        let readings = match self.entry_text_rows(READINGS_SQL, entry_id) {
            Ok(v) => v,
            Err(e) => return Err(DbError::Sqlite(e)),
        };
        let glosses = match self.entry_text_rows(GLOSSES_SQL, entry_id) {
            Ok(v) => v,
            Err(e) => return Err(DbError::Sqlite(e)),
        };
        let ghost (k0, r0, g0) = (kanji, readings, glosses);
        let found = jmdict_entry_from_rows(&row, kanji, readings, glosses);
        proof {
            assert(ran_query(self.conn, KANJI_SQL@, seq![ParamView::Integer(entry_id as i64)], seq![ColumnType::Text], Ok::<Vec<Vec<SqlValue>>, rusqlite::Error>(k0)));
            assert(ran_query(self.conn, READINGS_SQL@, seq![ParamView::Integer(entry_id as i64)], seq![ColumnType::Text], Ok::<Vec<Vec<SqlValue>>, rusqlite::Error>(r0)));
            assert(ran_query(self.conn, GLOSSES_SQL@, seq![ParamView::Integer(entry_id as i64)], seq![ColumnType::Text], Ok::<Vec<Vec<SqlValue>>, rusqlite::Error>(g0)));
        }
        Ok(found)
    }
}

} // verus!
