//! SQL text of the log table and of the capture triggers.
//!
//! Every name written into a statement has passed the identifier grammar of
//! `ident`, so it holds no quote, no separator and no comment marker.

use vstd::prelude::*;
use vstd::string::*;
use crate::ident::{is_valid_identifier, valid_identifier};

verus! {

/// What a capture trigger reacts to.
#[derive(Clone, Copy, Debug, PartialEq, Eq, Structural)]
pub enum Action {
    Insert,
    Update,
    Delete,
}

/// The word that names an action, in trigger names, in SQL and in the log.
pub open spec fn action_word(a: Action) -> Seq<char> {
    match a {
        Action::Insert => "insert"@,
        Action::Update => "update"@,
        Action::Delete => "delete"@,
    }
}

impl Action {
    /// The word that names this action.
    pub fn word(&self) -> (r: &'static str)
        ensures
            r@ == action_word(*self),
    {
        match self {
            Action::Insert => "insert",
            Action::Update => "update",
            Action::Delete => "delete",
        }
    }
}

/// The name of the log table.
pub open spec fn log_table_name() -> Seq<char> {
    "change_stream_log"@
}

/// What every capture trigger's name begins with.
pub open spec fn trigger_prefix() -> Seq<char> {
    "change_stream_"@
}

/// The statement that creates the log table when it is absent.
pub open spec fn log_table_sql() -> Seq<char> {
    "CREATE TABLE IF NOT EXISTS change_stream_log (id INTEGER PRIMARY KEY AUTOINCREMENT, table_name TEXT NOT NULL, action TEXT NOT NULL, rowid INTEGER, new_data TEXT, old_data TEXT, ts DATETIME DEFAULT CURRENT_TIMESTAMP);"@
}

/// The statement that removes the log table, if it exists.
pub open spec fn drop_log_table_sql() -> Seq<char> {
    "DROP TABLE IF EXISTS change_stream_log;"@
}

/// The name of the trigger that captures `action` on `table`.
pub open spec fn trigger_name(table: Seq<char>, action: Action) -> Seq<char> {
    "change_stream_"@ + table + "_"@ + action_word(action)
}

/// The statement that removes the trigger `name`, if it exists.
pub open spec fn drop_trigger_sql(name: Seq<char>) -> Seq<char> {
    "DROP TRIGGER IF EXISTS \""@ + name + "\";"@
}

/// The comma-separated `'col', ROW."col"` pairs of a row image over `columns`,
/// where `row` is `NEW` or `OLD`.
pub open spec fn image_pairs(row: Seq<char>, columns: Seq<Seq<char>>) -> Seq<char>
    decreases columns.len(),
{
    if columns.len() == 0 {
        Seq::empty()
    } else {
        let prev = image_pairs(row, columns.drop_last());
        let lead = if columns.len() == 1 { prev } else { prev + ", "@ };
        lead + "'"@ + columns.last() + "', "@ + row + ".\""@ + columns.last() + "\""@
    }
}

/// The SQL expression that builds the JSON object of a row image.
pub open spec fn image_sql(row: Seq<char>, columns: Seq<Seq<char>>) -> Seq<char> {
    "json_object("@ + image_pairs(row, columns) + ")"@
}

/// The log insertion that a trigger of `action` on `table` performs.
pub open spec fn log_insert_sql(table: Seq<char>, action: Action, columns: Seq<Seq<char>>) -> Seq<char> {
    let new_img = image_sql("NEW"@, columns);
    let old_img = image_sql("OLD"@, columns);
    match action {
        Action::Insert =>
            "INSERT INTO change_stream_log(table_name, action, rowid, new_data) VALUES ('"@ + table
                + "', 'insert', NEW.rowid, "@ + new_img + ");"@,
        Action::Update =>
            "INSERT INTO change_stream_log(table_name, action, rowid, new_data, old_data) VALUES ('"@
                + table + "', 'update', NEW.rowid, "@ + new_img + ", "@ + old_img + ");"@,
        Action::Delete =>
            "INSERT INTO change_stream_log(table_name, action, rowid, old_data) VALUES ('"@ + table
                + "', 'delete', OLD.rowid, "@ + old_img + ");"@,
    }
}

/// The statement that installs the trigger capturing `action` on `table`.
pub open spec fn create_trigger_sql(table: Seq<char>, action: Action, columns: Seq<Seq<char>>) -> Seq<char> {
    "CREATE TRIGGER IF NOT EXISTS \""@ + trigger_name(table, action) + "\" AFTER "@
        + action_word(action) + " ON \""@ + table + "\" FOR EACH ROW BEGIN "@
        + log_insert_sql(table, action, columns) + " END;"@
}

/// Whether every name of `columns` follows the identifier grammar.
pub open spec fn all_valid(columns: Seq<Seq<char>>) -> bool {
    forall|i: int| 0 <= i < columns.len() ==> #[trigger] valid_identifier(columns[i])
}

/// Why a table could not be instrumented.
#[derive(Clone, Copy, Debug, PartialEq, Eq, Structural)]
pub enum InstrumentationError {
    /// The table's name is not an identifier.
    BadTableName,
    /// A column's name is not an identifier.
    BadColumnName,
}

/// The three statements that instrument one table.
pub struct TriggerSet {
    pub on_insert: String,
    pub on_update: String,
    pub on_delete: String,
}

/// Returns the statement that creates the log table.
pub fn log_table_statement() -> (r: String)
    ensures
        r@ == log_table_sql(),
{
    String::from_str(
        "CREATE TABLE IF NOT EXISTS change_stream_log (id INTEGER PRIMARY KEY AUTOINCREMENT, table_name TEXT NOT NULL, action TEXT NOT NULL, rowid INTEGER, new_data TEXT, old_data TEXT, ts DATETIME DEFAULT CURRENT_TIMESTAMP);",
    )
}

/// Returns the statement that removes the log table.
pub fn drop_log_table_statement() -> (r: String)
    ensures
        r@ == drop_log_table_sql(),
{
    String::from_str("DROP TABLE IF EXISTS change_stream_log;")
}

/// Returns the statement that removes the trigger `name`.
pub fn drop_trigger_statement(name: &str) -> (r: String)
    ensures
        r@ == drop_trigger_sql(name@),
{
    let mut r = String::from_str("DROP TRIGGER IF EXISTS \"");
    r.append(name);
    r.append("\";");
    r
}

/// Returns the name of the trigger that captures `action` on `table`.
pub fn trigger_name_of(table: &str, action: Action) -> (r: String)
    ensures
        r@ == trigger_name(table@, action),
{
    let mut r = String::from_str("change_stream_");
    r.append(table);
    r.append("_");
    r.append(action.word());
    r
}

/// Builds the JSON object expression of the `row` image over `columns`.
pub fn image_expression(row: &str, columns: &Vec<String>) -> (r: String)
    ensures
        r@ == image_sql(row@, columns.deep_view()),
{
    let ghost cols = columns.deep_view();
    let mut body = String::new();
    let mut i: usize = 0;
    while i < columns.len()
        invariant
            cols == columns.deep_view(),
            i <= columns.len(),
            body@ == image_pairs(row@, cols.subrange(0, i as int)),
        decreases columns.len() - i,
    {
        let ghost before = cols.subrange(0, i as int);
        let ghost after = cols.subrange(0, i + 1);
        assert(after.drop_last() =~= before);
        assert(after.last() == columns[i as int]@);
        if i > 0 {
            body.append(", ");
        }
        let c = columns[i].as_str();
        body.append("'");
        body.append(c);
        body.append("', ");
        body.append(row);
        body.append(".\"");
        body.append(c);
        body.append("\"");
        i = i + 1;
    }
    assert(cols.subrange(0, columns.len() as int) =~= cols);
    let mut r = String::from_str("json_object(");
    r.append(body.as_str());
    r.append(")");
    r
}

fn log_insert_statement(table: &str, action: Action, new_img: &str, old_img: &str) -> (r: String)
    ensures
        r@ == match action {
            Action::Insert =>
                "INSERT INTO change_stream_log(table_name, action, rowid, new_data) VALUES ('"@ + table@
                    + "', 'insert', NEW.rowid, "@ + new_img@ + ");"@,
            Action::Update =>
                "INSERT INTO change_stream_log(table_name, action, rowid, new_data, old_data) VALUES ('"@
                    + table@ + "', 'update', NEW.rowid, "@ + new_img@ + ", "@ + old_img@ + ");"@,
            Action::Delete =>
                "INSERT INTO change_stream_log(table_name, action, rowid, old_data) VALUES ('"@ + table@
                    + "', 'delete', OLD.rowid, "@ + old_img@ + ");"@,
        },
{
    match action {
        Action::Insert => {
            let mut r = String::from_str(
                "INSERT INTO change_stream_log(table_name, action, rowid, new_data) VALUES ('",
            );
            r.append(table);
            r.append("', 'insert', NEW.rowid, ");
            r.append(new_img);
            r.append(");");
            r
        },
        Action::Update => {
            let mut r = String::from_str(
                "INSERT INTO change_stream_log(table_name, action, rowid, new_data, old_data) VALUES ('",
            );
            r.append(table);
            r.append("', 'update', NEW.rowid, ");
            r.append(new_img);
            r.append(", ");
            r.append(old_img);
            r.append(");");
            r
        },
        Action::Delete => {
            let mut r = String::from_str(
                "INSERT INTO change_stream_log(table_name, action, rowid, old_data) VALUES ('",
            );
            r.append(table);
            r.append("', 'delete', OLD.rowid, ");
            r.append(old_img);
            r.append(");");
            r
        },
    }
}

fn create_trigger_statement(table: &str, action: Action, new_img: &String, old_img: &String, columns: &Vec<String>) -> (r: String)
    requires
        new_img@ == image_sql("NEW"@, columns.deep_view()),
        old_img@ == image_sql("OLD"@, columns.deep_view()),
    ensures
        r@ == create_trigger_sql(table@, action, columns.deep_view()),
{
    let name = trigger_name_of(table, action);
    let insert = log_insert_statement(table, action, new_img.as_str(), old_img.as_str());
    let mut r = String::from_str("CREATE TRIGGER IF NOT EXISTS \"");
    r.append(name.as_str());
    r.append("\" AFTER ");
    r.append(action.word());
    r.append(" ON \"");
    r.append(table);
    r.append("\" FOR EACH ROW BEGIN ");
    r.append(insert.as_str());
    r.append(" END;");
    r
}

/// Builds the statements that instrument `table`, whose current columns are
/// `columns`. Names outside the identifier grammar are refused.
pub fn create_triggers_for_table(table: &str, columns: &Vec<String>) -> (r: Result<TriggerSet, InstrumentationError>)
    ensures
        !valid_identifier(table@) ==> r == Err::<TriggerSet, _>(InstrumentationError::BadTableName),
        valid_identifier(table@) && !all_valid(columns.deep_view())
            ==> r == Err::<TriggerSet, _>(InstrumentationError::BadColumnName),
        valid_identifier(table@) && all_valid(columns.deep_view()) ==> (r matches Ok(set) && {
            &&& set.on_insert@ == create_trigger_sql(table@, Action::Insert, columns.deep_view())
            &&& set.on_update@ == create_trigger_sql(table@, Action::Update, columns.deep_view())
            &&& set.on_delete@ == create_trigger_sql(table@, Action::Delete, columns.deep_view())
        }),
{
    if !is_valid_identifier(table) {
        return Err(InstrumentationError::BadTableName);
    }
    let mut i: usize = 0;
    while i < columns.len()
        invariant
            valid_identifier(table@),
            i <= columns.len(),
            forall|j: int| 0 <= j < i ==> #[trigger] valid_identifier(columns.deep_view()[j]),
        decreases columns.len() - i,
    {
        assert(columns.deep_view()[i as int] == columns[i as int]@);
        if !is_valid_identifier(columns[i].as_str()) {
            return Err(InstrumentationError::BadColumnName);
        }
        i = i + 1;
    }
    let new_img = image_expression("NEW", columns);
    let old_img = image_expression("OLD", columns);
    let on_insert = create_trigger_statement(table, Action::Insert, &new_img, &old_img, columns);
    let on_update = create_trigger_statement(table, Action::Update, &new_img, &old_img, columns);
    let on_delete = create_trigger_statement(table, Action::Delete, &new_img, &old_img, columns);
    Ok(TriggerSet { on_insert, on_update, on_delete })
}

/// Idempotent installation: each statement creates its trigger only when no
/// trigger of that name exists, and the name depends on the table and the
/// action alone, so running the statements again adds nothing.
pub proof fn lemma_install_guarded(table: Seq<char>, action: Action, columns: Seq<Seq<char>>)
    ensures
        ({
            let stmt = create_trigger_sql(table, action, columns);
            let head = "CREATE TRIGGER IF NOT EXISTS \""@ + trigger_name(table, action) + "\" AFTER "@;
            head.len() <= stmt.len() && stmt.subrange(0, head.len() as int) == head
        }),
{
    let stmt = create_trigger_sql(table, action, columns);
    let head = "CREATE TRIGGER IF NOT EXISTS \""@ + trigger_name(table, action) + "\" AFTER "@;
    assert(stmt.subrange(0, head.len() as int) =~= head);
}

} // verus!
