use vstd::prelude::*;
use rusqlite::functions::{Context, FunctionFlags};
use rusqlite::types::Value;
use rusqlite::{params_from_iter, Connection, OptionalExtension, Statement};
use crate::furigana::{strip_furigana_spec, strip_markdown_furigana, FuriganaStripper};
use crate::text::{normalize_umlauts, normalize_umlauts_spec};

verus! {

#[verifier::external_type_specification]
#[verifier::external_body]
pub struct ExConnection(Connection);

#[verifier::external_type_specification]
#[verifier::external_body]
pub struct ExStatement<'conn>(Statement<'conn>);

#[verifier::external_type_specification]
#[verifier::external_body]
pub struct ExSqliteError(rusqlite::Error);

/// A value bound to a `?N` parameter of a statement.
pub enum SqlParam {
    Null,
    Integer(i64),
    Text(String),
}

/// The Rust type a result column is read as.
#[derive(Clone, Copy)]
pub enum ColumnType {
    /// `bool`: an INTEGER column, true when nonzero.
    Bool,
    /// `i32`: an INTEGER column within the range of `i32`.
    Int32,
    /// `i64`: an INTEGER column.
    Int64,
    /// `String`: a TEXT column.
    Text,
    /// `Option<String>`: a TEXT column or NULL.
    OptionalText,
}

/// A result column read as the Rust type its `ColumnType` asks for.
pub enum SqlValue {
    Bool(bool),
    Int32(i32),
    Int64(i64),
    Text(String),
    OptionalText(Option<String>),
}

/// Whether `v` was read as the type `t`.
pub open spec fn value_has_type(v: SqlValue, t: ColumnType) -> bool {
    match t {
        ColumnType::Bool => v is Bool,
        ColumnType::Int32 => v is Int32,
        ColumnType::Int64 => v is Int64,
        ColumnType::Text => v is Text,
        ColumnType::OptionalText => v is OptionalText,
    }
}

/// Whether a row holds one value of each requested column type, in order.
pub open spec fn row_has_types(row: Seq<SqlValue>, columns: Seq<ColumnType>) -> bool {
    &&& row.len() == columns.len()
    &&& forall|i: int| 0 <= i < row.len() ==> value_has_type(#[trigger] row[i], columns[i])
}

/// A bound parameter, with its text as characters.
pub enum ParamView {
    Null,
    Integer(i64),
    Text(Seq<char>),
}

impl View for SqlParam {
    type V = ParamView;

    open spec fn view(&self) -> ParamView {
        match self {
            SqlParam::Null => ParamView::Null,
            SqlParam::Integer(i) => ParamView::Integer(*i),
            SqlParam::Text(t) => ParamView::Text(t@),
        }
    }
}

/// A column value, with its texts as characters.
pub enum ValueView {
    Bool(bool),
    Int32(i32),
    Int64(i64),
    Text(Seq<char>),
    OptionalText(Option<Seq<char>>),
}

impl View for SqlValue {
    type V = ValueView;

    open spec fn view(&self) -> ValueView {
        match self {
            SqlValue::Bool(b) => ValueView::Bool(*b),
            SqlValue::Int32(i) => ValueView::Int32(*i),
            SqlValue::Int64(i) => ValueView::Int64(*i),
            SqlValue::Text(t) => ValueView::Text(t@),
            SqlValue::OptionalText(t) => ValueView::OptionalText(
                match t {
                    Some(s) => Some(s@),
                    None => None,
                },
            ),
        }
    }
}

/// The views of the values of a row.
pub open spec fn row_view(row: Seq<SqlValue>) -> Seq<ValueView> {
    row.map_values(|v: SqlValue| v@)
}

/// The views of a list of parameters.
pub open spec fn params_view(params: Seq<SqlParam>) -> Seq<ParamView> {
    params.map_values(|p: SqlParam| p@)
}

/// What reading a stored value back as the type `t` gives, as rusqlite's
/// `FromSql` conversions read it: `None` where the conversion fails.
pub open spec fn read_back(p: ParamView, t: ColumnType) -> Option<ValueView> {
    match (p, t) {
        (ParamView::Integer(i), ColumnType::Bool) => Some(ValueView::Bool(i != 0)),
        (ParamView::Integer(i), ColumnType::Int32) => if i32::MIN <= i <= i32::MAX {
            Some(ValueView::Int32(i as i32))
        } else {
            None
        },
        (ParamView::Integer(i), ColumnType::Int64) => Some(ValueView::Int64(i)),
        (ParamView::Text(s), ColumnType::Text) => Some(ValueView::Text(s)),
        (ParamView::Text(s), ColumnType::OptionalText) => Some(ValueView::OptionalText(Some(s))),
        (ParamView::Null, ColumnType::OptionalText) => Some(ValueView::OptionalText(None)),
        _ => None,
    }
}

/// The SQL functions of one text argument that the library registers.
pub enum TextFunction {
    StripFurigana(FuriganaStripper),
    NormalizeUmlauts,
}

impl TextFunction {
    /// What the function computes from its argument.
    pub open spec fn apply_spec(&self, text: Seq<char>) -> Seq<char> {
        match self {
            TextFunction::StripFurigana(_) => strip_furigana_spec(text),
            TextFunction::NormalizeUmlauts => normalize_umlauts_spec(text),
        }
    }

    /// Which function this is.
    pub open spec fn kind_spec(&self) -> TextFunctionKind {
        match self {
            TextFunction::StripFurigana(_) => TextFunctionKind::StripFurigana,
            TextFunction::NormalizeUmlauts => TextFunctionKind::NormalizeUmlauts,
        }
    }

    /// Applies the function to `text`.
    pub fn apply(&self, text: &str) -> (r: String)
        ensures
            r@ == self.apply_spec(text@),
    {
        match self {
            TextFunction::StripFurigana(p) => strip_markdown_furigana(p, text),
            TextFunction::NormalizeUmlauts => normalize_umlauts(text),
        }
    }
}

/// `rusqlite::Connection::open`: opens (or creates) the database file at
/// `path`. The outcome depends on the file system; nothing is stated of it.
#[verifier::external_body]
pub(crate) fn open_connection(path: &str) -> (r: Result<Connection, rusqlite::Error>) {
    Connection::open(path)
}

/// Which of the text functions a registration installed.
pub enum TextFunctionKind {
    StripFurigana,
    NormalizeUmlauts,
}

impl TextFunctionKind {
    /// What the SQL function computes from its text argument.
    pub open spec fn computes(self, text: Seq<char>) -> Seq<char> {
        match self {
            TextFunctionKind::StripFurigana => strip_furigana_spec(text),
            TextFunctionKind::NormalizeUmlauts => normalize_umlauts_spec(text),
        }
    }
}

/// A record that a text function was registered on a connection under a
/// name. It holds no data at run time; its fields are private to this
/// module, and only `create_text_function` makes one, after SQLite
/// accepted the function.
pub struct Registration {
    name: Ghost<Seq<char>>,
    function: Ghost<TextFunctionKind>,
}

impl Registration {
    /// The SQL name the function was registered under.
    pub closed spec fn name(&self) -> Seq<char> {
        self.name@
    }

    /// The function registered.
    pub closed spec fn function(&self) -> TextFunctionKind {
        self.function@
    }
}

/// `rusqlite::Connection::create_scalar_function`: registers `name` as a
/// deterministic SQL function of one UTF-8 text argument whose value is
/// `f.apply` of that argument, and on success returns the record of that
/// registration, which names `name` and the kind of `f`. An argument that
/// is not text makes the SQL call fail (`Context::get::<String>`); that is
/// not stated. Whether SQLite accepts the function is not stated either.
#[verifier::external_body]
pub(crate) fn create_text_function(conn: &Connection, name: &str, f: TextFunction) -> (r: Result<Registration, rusqlite::Error>)
    ensures
        r is Ok ==> r->Ok_0.name() == name@,
        r is Ok ==> r->Ok_0.function() == f.kind_spec(),
{
    let record = Registration { name: Ghost(name@), function: Ghost(f.kind_spec()) };
    conn.create_scalar_function(
        name,
        1,
        FunctionFlags::SQLITE_UTF8 | FunctionFlags::SQLITE_DETERMINISTIC,
        move |ctx: &Context| Ok(f.apply(&ctx.get::<String>(0)?)),
    ).map(|()| record)
}

/// `rusqlite::Connection::execute`: runs `sql` with `params` bound to
/// `?1`, `?2`, ... and returns the number of changed rows. The outcome
/// depends on the database; nothing is stated of it.
#[verifier::external_body]
pub(crate) fn execute_statement(conn: &Connection, sql: &str, params: &Vec<SqlParam>) -> (r: Result<usize, rusqlite::Error>) {
    conn.execute(sql, params_from_iter(params.iter().map(|p| match p {
        SqlParam::Null => Value::Null,
        SqlParam::Integer(i) => Value::Integer(*i),
        SqlParam::Text(t) => Value::Text(t.clone()),
    })))
}

/// `rusqlite::Connection::last_insert_rowid`: the rowid of the most recent
/// successful INSERT on this connection. Its value is not stated.
#[verifier::external_body]
pub(crate) fn last_insert_rowid(conn: &Connection) -> (r: i64) {
    conn.last_insert_rowid()
}

/// `rusqlite::Connection::query_row`: runs `sql` with `params` and reads
/// the first row, each column `i` with `Row::get` as the type `columns[i]`.
/// When it succeeds, the row holds one value of each requested type; which
/// values is not stated. It fails (among other cases) when there is no row.
#[verifier::external_body]
pub(crate) fn query_first_row(conn: &Connection, sql: &str, params: &Vec<SqlParam>, columns: &Vec<ColumnType>) -> (r: Result<Vec<SqlValue>, rusqlite::Error>)
    ensures
        r matches Ok(row) ==> row_has_types(row@, columns@),
{
    conn.query_row(sql, params_from_iter(params.iter().map(|p| match p {
        SqlParam::Null => Value::Null,
        SqlParam::Integer(i) => Value::Integer(*i),
        SqlParam::Text(t) => Value::Text(t.clone()),
    })), |row| columns.iter().enumerate().map(|(i, c)| Ok(match c {
        ColumnType::Bool => SqlValue::Bool(row.get(i)?),
        ColumnType::Int32 => SqlValue::Int32(row.get(i)?),
        ColumnType::Int64 => SqlValue::Int64(row.get(i)?),
        ColumnType::Text => SqlValue::Text(row.get(i)?),
        ColumnType::OptionalText => SqlValue::OptionalText(row.get(i)?),
    })).collect())
}

/// `rusqlite::OptionalExtension::optional`: a row that was read becomes
/// `Some`; the error that says the query returned no rows becomes `None`;
/// any other error is passed on.
#[verifier::external_body]
pub(crate) fn optional_row(read: Result<Vec<SqlValue>, rusqlite::Error>) -> (r: Result<Option<Vec<SqlValue>>, rusqlite::Error>)
    ensures
        read is Ok ==> (r is Ok && r->Ok_0 == Some(read->Ok_0)),
        read is Err ==> (r is Ok ==> r->Ok_0 is None),
{
    read.optional()
}

/// `rusqlite::Connection::prepare`: compiles `sql` into a statement.
/// Whether SQLite accepts it is not stated.
#[verifier::external_body]
pub(crate) fn prepare_statement<'c>(conn: &'c Connection, sql: &str) -> (r: Result<Statement<'c>, rusqlite::Error>) {
    conn.prepare(sql)
}

/// `rusqlite::Statement::query_map`: runs the statement with `params` and
/// reads every row, each column `i` with `Row::get` as the type
/// `columns[i]`, stopping at the first error. When it succeeds, every row
/// holds one value of each requested type; which rows is not stated.
#[verifier::external_body]
pub(crate) fn query_all_rows(mut stmt: Statement, params: &Vec<SqlParam>, columns: &Vec<ColumnType>) -> (r: Result<Vec<Vec<SqlValue>>, rusqlite::Error>)
    ensures
        r matches Ok(rows) ==> forall|k: int| 0 <= k < rows.len() ==> row_has_types(#[trigger] rows@[k]@, columns@),
{
    stmt.query_map(params_from_iter(params.iter().map(|p| match p {
        SqlParam::Null => Value::Null,
        SqlParam::Integer(i) => Value::Integer(*i),
        SqlParam::Text(t) => Value::Text(t.clone()),
    })), |row| columns.iter().enumerate().map(|(i, c)| Ok(match c {
        ColumnType::Bool => SqlValue::Bool(row.get(i)?),
        ColumnType::Int32 => SqlValue::Int32(row.get(i)?),
        ColumnType::Int64 => SqlValue::Int64(row.get(i)?),
        ColumnType::Text => SqlValue::Text(row.get(i)?),
        ColumnType::OptionalText => SqlValue::OptionalText(row.get(i)?),
    })).collect())?.collect()
}

/// `conn` was handed the statement `sql`, with parameters whose values
/// are `params`, to run by `execute_statement`, and that call answered
/// `res`.
pub closed spec fn ran_statement(conn: Connection, sql: Seq<char>, params: Seq<ParamView>, res: Result<usize, rusqlite::Error>) -> bool {
    exists|s: &str, p: Vec<SqlParam>|
        #![trigger call_ensures(execute_statement, (&conn, s, &p), res)]
        s@ == sql && params_view(p@) == params && call_ensures(execute_statement, (&conn, s, &p), res)
}

/// Runs `sql` with `params` on `conn`, answering the number of changed
/// rows or SQLite's error.
pub fn run_statement(conn: &Connection, sql: &str, params: &Vec<SqlParam>) -> (r: Result<usize, rusqlite::Error>)
    ensures
        ran_statement(*conn, sql@, params_view(params@), r),
{
    let r = execute_statement(conn, sql, params);
    proof {
        assert(call_ensures(execute_statement, (conn, sql, params), r));
    }
    r
}

/// `conn` was asked by `query_first_row` for the first row of `sql`, with
/// parameters whose values are `params`, read as `columns`, and answered
/// `res`.
pub closed spec fn ran_first_row(
    conn: Connection,
    sql: Seq<char>,
    params: Seq<ParamView>,
    columns: Seq<ColumnType>,
    res: Result<Vec<SqlValue>, rusqlite::Error>,
) -> bool {
    exists|s: &str, p: Vec<SqlParam>, c: Vec<ColumnType>|
        #![trigger call_ensures(query_first_row, (&conn, s, &p, &c), res)]
        s@ == sql && params_view(p@) == params && c@ == columns && call_ensures(query_first_row, (&conn, s, &p, &c), res)
}

/// Reads the first row of `sql` run with `params` on `conn`, each column
/// `i` as the type `columns[i]`.
pub fn first_row(conn: &Connection, sql: &str, params: &Vec<SqlParam>, columns: &Vec<ColumnType>) -> (r: Result<Vec<SqlValue>, rusqlite::Error>)
    ensures
        ran_first_row(*conn, sql@, params_view(params@), columns@, r),
        r matches Ok(row) ==> row_has_types(row@, columns@),
{
    let r = query_first_row(conn, sql, params, columns);
    proof {
        assert(call_ensures(query_first_row, (conn, sql, params, columns), r));
    }
    r
}

/// `conn` was asked to prepare `sql` and to run it with parameters whose
/// values are `params`, reading every row as `columns`, and answered
/// `res`: the error of preparing it, or what `query_all_rows` answered for
/// the prepared statement.
pub closed spec fn ran_query(
    conn: Connection,
    sql: Seq<char>,
    params: Seq<ParamView>,
    columns: Seq<ColumnType>,
    res: Result<Vec<Vec<SqlValue>>, rusqlite::Error>,
) -> bool {
    exists|s: &str, p: Vec<SqlParam>, c: Vec<ColumnType>, prepared: Result<Statement, rusqlite::Error>|
        #![trigger call_ensures(prepare_statement, (&conn, s), prepared), params_view(p@), c@]
        s@ == sql && params_view(p@) == params && c@ == columns
            && call_ensures(prepare_statement, (&conn, s), prepared)
            && match prepared {
                Ok(stmt) => call_ensures(query_all_rows, (stmt, &p, &c), res),
                Err(e) => res == Err::<Vec<Vec<SqlValue>>, rusqlite::Error>(e),
            }
}

/// Prepares `sql` on `conn` and reads every row it gives when run with
/// `params`, each column `i` as the type `columns[i]`.
pub fn query_rows(conn: &Connection, sql: &str, params: &Vec<SqlParam>, columns: &Vec<ColumnType>) -> (r: Result<Vec<Vec<SqlValue>>, rusqlite::Error>)
    ensures
        ran_query(*conn, sql@, params_view(params@), columns@, r),
        r matches Ok(rows) ==> forall|k: int| 0 <= k < rows.len() ==> row_has_types(#[trigger] rows@[k]@, columns@),
{
    let prepared = prepare_statement(conn, sql);
    let ghost prepared_value = prepared;
    proof {
        assert(call_ensures(prepare_statement, (conn, sql), prepared_value));
    }
    match prepared {
        Ok(stmt) => {
            let r = query_all_rows(stmt, params, columns);
            proof {
                assert(call_ensures(query_all_rows, (prepared_value->Ok_0, params, columns), r));
            }
            r
        },
        Err(e) => Err(e),
    }
}

/// `open_connection` was asked to open the file at `path` and answered
/// `res`.
pub closed spec fn opened(path: Seq<char>, res: Result<Connection, rusqlite::Error>) -> bool {
    exists|s: &str| #![trigger call_ensures(open_connection, (s,), res)] s@ == path && call_ensures(open_connection, (s,), res)
}

/// Opens (or creates) the database file at `path`.
pub fn open_database(path: &str) -> (r: Result<Connection, rusqlite::Error>)
    ensures
        opened(path@, r),
{
    let r = open_connection(path);
    proof {
        assert(call_ensures(open_connection, (path,), r));
    }
    r
}

/// `last_insert_rowid` answered `rowid` on `conn`.
pub closed spec fn gave_rowid(conn: Connection, rowid: i64) -> bool {
    call_ensures(last_insert_rowid, (&conn,), rowid)
}

/// The rowid of the most recent successful INSERT on `conn`.
pub fn inserted_rowid(conn: &Connection) -> (r: i64)
    ensures
        gave_rowid(*conn, r),
{
    last_insert_rowid(conn)
}

} // verus!
