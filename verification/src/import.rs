//! The importer: from a payload to the rows of one table, and into the
//! database as a whole or not at all.

use crate::error::{ImportError, ImportErrorView, Reason};
use crate::json::{parsed_text, Json, JsonView};
use crate::model::{lemma_views_empty, lemma_views_push, views};
use crate::records::{Config, Entity, Message, Messages, Mob, MovementComponent, Player};
use crate::rows::Row;
use crate::schema::Table;
use crate::store::{Batch, BatchView, Database, DatabaseView};
use vstd::prelude::*;

verus! {

/// The rows of an export envelope: the array under `rows` in the one object
/// that the envelope, an array, holds.
pub open spec fn rows_of(envelope: JsonView) -> Result<Seq<JsonView>, ImportErrorView> {
    match envelope {
        JsonView::Array(results) => if results.len() == 1 && results[0] is Object {
            match results[0].member("rows"@) {
                Some(JsonView::Array(rows)) => Ok(rows),
                _ => Err(ImportErrorView::MissingRows),
            }
        } else {
            Err(ImportErrorView::MissingResultObject)
        },
        _ => Err(ImportErrorView::MissingResultObject),
    }
}

/// The record that row `index` decodes to, or why it does not.
pub open spec fn row_decoded<R: Row>(row: JsonView, index: int) -> Result<R::V, ImportErrorView> {
    match row {
        JsonView::Array(cells) => if cells.len() < R::table().min_columns_spec() {
            Err(
                ImportErrorView::TooFewColumns {
                    table: R::table(),
                    row: index,
                    expected: R::table().min_columns_spec() as int,
                    actual: cells.len() as int,
                },
            )
        } else {
            match R::decoded(cells) {
                Ok(record) => Ok(record),
                Err(e) => Err(
                    ImportErrorView::Cell {
                        table: R::table(),
                        row: index,
                        column: e.column as int,
                        reason: e.reason,
                    },
                ),
            }
        },
        _ => Err(ImportErrorView::RowNotArray { table: R::table(), row: index }),
    }
}

/// Whether one of the records staged so far has the primary key of `record`.
pub open spec fn key_taken<R: Row>(staged: Seq<R::V>, record: R::V) -> bool {
    exists|j: int| 0 <= j < staged.len() && R::same_key(#[trigger] staged[j], record)
}

/// The staged records after row `index` is taken in: the row's record is
/// added at the end, unless it is one that is not stored. A row that does not
/// decode, or whose primary key an earlier row has taken, is an error; the
/// key is reported in column 0, where every keyed table has it.
pub open spec fn stage_row<R: Row>(staged: Seq<R::V>, row: JsonView, index: int) -> Result<
    Seq<R::V>,
    ImportErrorView,
> {
    match row_decoded::<R>(row, index) {
        Err(e) => Err(e),
        Ok(record) => if !R::stored(record) {
            Ok(staged)
        } else if key_taken::<R>(staged, record) {
            Err(
                ImportErrorView::Cell {
                    table: R::table(),
                    row: index,
                    column: 0,
                    reason: Reason::DuplicateKey,
                },
            )
        } else {
            Ok(staged.push(record))
        },
    }
}

/// The records staged from the first `n` rows, taken in order, or the error
/// of the first row that fails.
pub open spec fn staged<R: Row>(rows: Seq<JsonView>, n: int) -> Result<Seq<R::V>, ImportErrorView>
    decreases n,
{
    if n <= 0 {
        Ok(Seq::empty())
    } else {
        match staged::<R>(rows, n - 1) {
            Err(e) => Err(e),
            Ok(earlier) => stage_row::<R>(earlier, rows[n - 1], n - 1),
        }
    }
}

/// The batch that `rows` decode to for `table`.
pub open spec fn batch_for(table: Table, rows: Seq<JsonView>) -> Result<BatchView, ImportErrorView> {
    let n = rows.len() as int;
    match table {
        Table::Config => match staged::<Config>(rows, n) {
            Ok(records) => Ok(BatchView::Config(records)),
            Err(e) => Err(e),
        },
        Table::Entity => match staged::<Entity>(rows, n) {
            Ok(records) => Ok(BatchView::Entity(records)),
            Err(e) => Err(e),
        },
        Table::Mob => match staged::<Mob>(rows, n) {
            Ok(records) => Ok(BatchView::Mob(records)),
            Err(e) => Err(e),
        },
        Table::MovementComponent => match staged::<MovementComponent>(rows, n) {
            Ok(records) => Ok(BatchView::MovementComponent(records)),
            Err(e) => Err(e),
        },
        Table::Player => match staged::<Player>(rows, n) {
            Ok(records) => Ok(BatchView::Player(records)),
            Err(e) => Err(e),
        },
        Table::Message => match staged::<Message>(rows, n) {
            Ok(records) => Ok(BatchView::Message(records)),
            Err(e) => Err(e),
        },
        Table::Messages => match staged::<Messages>(rows, n) {
            Ok(records) => Ok(BatchView::Messages(records)),
            Err(e) => Err(e),
        },
    }
}

/// The batch that an envelope decodes to for the table called `name`. The
/// envelope's shape is examined before the name.
pub open spec fn batch_of(name: Seq<char>, envelope: JsonView) -> Result<
    BatchView,
    ImportErrorView,
> {
    match rows_of(envelope) {
        Err(e) => Err(e),
        Ok(rows) => match Table::named(name) {
            None => Err(ImportErrorView::UnknownTable { name }),
            Some(table) => batch_for(table, rows),
        },
    }
}

/// The batch that a payload decodes to, given what the parser made of it.
pub open spec fn batch_of_parsed(name: Seq<char>, parsed: Result<JsonView, Seq<char>>) -> Result<
    BatchView,
    ImportErrorView,
> {
    match parsed {
        Err(message) => Err(ImportErrorView::Parse { message }),
        Ok(envelope) => batch_of(name, envelope),
    }
}

/// Finds the rows of an export envelope.
pub fn find_rows(envelope: &Json) -> (r: Result<&Vec<Json>, ImportError>)
    ensures
        match r {
            Ok(rows) => rows_of(envelope@) == Ok::<Seq<JsonView>, ImportErrorView>(views(rows@)),
            Err(e) => rows_of(envelope@) == Err::<Seq<JsonView>, ImportErrorView>(e@),
        },
{
    let results = match envelope.as_array() {
        Some(results) => results,
        None => return Err(ImportError::MissingResultObject),
    };
    if results.len() != 1 || !results[0].is_object() {
        return Err(ImportError::MissingResultObject);
    }
    match results[0].member("rows") {
        Some(value) => match value.as_array() {
            Some(rows) => Ok(rows),
            None => Err(ImportError::MissingRows),
        },
        None => Err(ImportError::MissingRows),
    }
}

fn key_in<R: Row>(staged: &Vec<R>, record: &R) -> (r: bool)
    ensures
        r == key_taken::<R>(views(staged@), record@),
{
    let mut j: usize = 0;
    while j < staged.len()
        invariant
            j <= staged@.len(),
            forall|k: int| 0 <= k < j ==> !R::same_key(#[trigger] views(staged@)[k], record@),
        decreases staged.len() - j,
    {
        if staged[j].has_key_of(record) {
            assert(R::same_key(views(staged@)[j as int], record@));
            return true;
        }
        j = j + 1;
    }
    false
}

/// Decodes the rows of one table in order and stages the records to insert.
/// Stops at the first row that fails.
pub fn decode_rows<R: Row>(rows: &Vec<Json>) -> (r: Result<Vec<R>, ImportError>)
    ensures
        match r {
            Ok(records) => staged::<R>(views(rows@), rows@.len() as int) == Ok::<
                Seq<R::V>,
                ImportErrorView,
            >(views(records@)),
            Err(e) => staged::<R>(views(rows@), rows@.len() as int) == Err::<
                Seq<R::V>,
                ImportErrorView,
            >(e@),
        },
{
    let table = R::layout();
    let expected = table.min_columns();
    let mut out: Vec<R> = Vec::new();
    let mut i: usize = 0;
    proof {
        lemma_views_empty::<R>();
    }
    while i < rows.len()
        invariant
            i <= rows@.len(),
            table == R::table(),
            expected == table.min_columns_spec(),
            staged::<R>(views(rows@), i as int) == Ok::<Seq<R::V>, ImportErrorView>(views(out@)),
        decreases rows.len() - i,
    {
        let ghost row = views(rows@)[i as int];
        assert(row == rows@[i as int]@);
        proof {
            if staged::<R>(views(rows@), i as int + 1) is Err {
                lemma_stop::<R>(views(rows@), i as int + 1, rows@.len() as int);
            }
        }
        let cells = match rows[i].as_array() {
            Some(cells) => cells,
            None => return Err(ImportError::RowNotArray { table, row: i }),
        };
        if cells.len() < expected {
            return Err(
                ImportError::TooFewColumns { table, row: i, expected, actual: cells.len() },
            );
        }
        let record = match R::decode(cells) {
            Ok(record) => record,
            Err(e) => return Err(
                ImportError::Cell { table, row: i, column: e.column, reason: e.reason },
            ),
        };
        if record.is_stored() {
            if key_in(&out, &record) {
                return Err(
                    ImportError::Cell { table, row: i, column: 0, reason: Reason::DuplicateKey },
                );
            }
            proof {
                lemma_views_push(out@, record);
            }
            out.push(record);
        }
        i = i + 1;
    }
    Ok(out)
}

/// Once staging has failed, it stays failed with the same error.
pub proof fn lemma_stop<R: Row>(rows: Seq<JsonView>, n: int, m: int)
    requires
        n <= m,
        staged::<R>(rows, n) is Err,
    ensures
        staged::<R>(rows, m) == staged::<R>(rows, n),
    decreases m - n,
{
    if n < m {
        lemma_stop::<R>(rows, n, m - 1);
    }
}

/// Decodes the rows of `table`.
pub fn decode_table(table: Table, rows: &Vec<Json>) -> (r: Result<Batch, ImportError>)
    ensures
        match r {
            Ok(batch) => batch_for(table, views(rows@)) == Ok::<BatchView, ImportErrorView>(batch@),
            Err(e) => batch_for(table, views(rows@)) == Err::<BatchView, ImportErrorView>(e@),
        },
{
    match table {
        Table::Config => match decode_rows::<Config>(rows) {
            Ok(records) => Ok(Batch::Config(records)),
            Err(e) => Err(e),
        },
        Table::Entity => match decode_rows::<Entity>(rows) {
            Ok(records) => Ok(Batch::Entity(records)),
            Err(e) => Err(e),
        },
        Table::Mob => match decode_rows::<Mob>(rows) {
            Ok(records) => Ok(Batch::Mob(records)),
            Err(e) => Err(e),
        },
        Table::MovementComponent => match decode_rows::<MovementComponent>(rows) {
            Ok(records) => Ok(Batch::MovementComponent(records)),
            Err(e) => Err(e),
        },
        Table::Player => match decode_rows::<Player>(rows) {
            Ok(records) => Ok(Batch::Player(records)),
            Err(e) => Err(e),
        },
        Table::Message => match decode_rows::<Message>(rows) {
            Ok(records) => Ok(Batch::Message(records)),
            Err(e) => Err(e),
        },
        Table::Messages => match decode_rows::<Messages>(rows) {
            Ok(records) => Ok(Batch::Messages(records)),
            Err(e) => Err(e),
        },
    }
}

/// Decodes an export envelope into the batch for the table called
/// `table_name`.
pub fn decode_batch(table_name: &str, envelope: &Json) -> (r: Result<Batch, ImportError>)
    ensures
        match r {
            Ok(batch) => batch_of(table_name@, envelope@) == Ok::<BatchView, ImportErrorView>(
                batch@,
            ),
            Err(e) => batch_of(table_name@, envelope@) == Err::<BatchView, ImportErrorView>(e@),
        },
{
    let rows = match find_rows(envelope) {
        Ok(rows) => rows,
        Err(e) => return Err(e),
    };
    match Table::from_name(table_name) {
        Some(table) => decode_table(table, rows),
        None => Err(ImportError::UnknownTable { name: table_name.to_owned() }),
    }
}

/// Parses a payload and decodes it into the batch for the table called
/// `table_name`.
pub fn decode_payload(table_name: &str, json_data: &str) -> (r: Result<Batch, ImportError>)
    ensures
        match r {
            Ok(batch) => batch_of_parsed(table_name@, parsed_text(json_data@)) == Ok::<
                BatchView,
                ImportErrorView,
            >(batch@),
            Err(e) => batch_of_parsed(table_name@, parsed_text(json_data@)) == Err::<
                BatchView,
                ImportErrorView,
            >(e@),
        },
{
    match Json::parse(json_data) {
        Ok(envelope) => decode_batch(table_name, &envelope),
        Err(message) => Err(ImportError::Parse { message }),
    }
}

/// What an import returns and leaves behind, given the database before it
/// and the batch that the payload decodes to: the batch is stored and its
/// size returned, or the error is returned and the database is as it was.
pub open spec fn import_outcome(
    before: DatabaseView,
    decoded: Result<BatchView, ImportErrorView>,
) -> (Result<nat, ImportErrorView>, DatabaseView) {
    match decoded {
        Ok(batch) => (Ok(batch.len()), before.applied(batch)),
        Err(e) => (Err(e), before),
    }
}

/// Whether `r` and `after` are what `outcome` says.
pub open spec fn is_outcome(
    r: Result<usize, ImportError>,
    after: DatabaseView,
    outcome: (Result<nat, ImportErrorView>, DatabaseView),
) -> bool {
    &&& after == outcome.1
    &&& match r {
        Ok(inserted) => outcome.0 == Ok::<nat, ImportErrorView>(inserted as nat),
        Err(e) => outcome.0 == Err::<nat, ImportErrorView>(e@),
    }
}

fn store(db: &mut Database, decoded: Result<Batch, ImportError>) -> (r: Result<
    usize,
    ImportError,
>)
    ensures
        match decoded {
            Ok(batch) => is_outcome(
                r,
                final(db)@,
                import_outcome(old(db)@, Ok::<BatchView, ImportErrorView>(batch@)),
            ),
            Err(e) => is_outcome(
                r,
                final(db)@,
                import_outcome(old(db)@, Err::<BatchView, ImportErrorView>(e@)),
            ),
        },
{
    match decoded {
        Ok(batch) => Ok(db.apply(batch)),
        Err(e) => Err(e),
    }
}

/// Imports a parsed export envelope into the table called `table_name`:
/// decodes every row, then replaces the table's contents with the decoded
/// records (appends them, for the table without a primary key) and returns
/// how many were inserted. On any error nothing is changed.
pub fn import_json(db: &mut Database, table_name: &str, envelope: &Json) -> (r: Result<
    usize,
    ImportError,
>)
    ensures
        is_outcome(r, final(db)@, import_outcome(old(db)@, batch_of(table_name@, envelope@))),
{
    let decoded = decode_batch(table_name, envelope);
    store(db, decoded)
}

/// Imports a JSON payload into the table called `table_name`: parses it,
/// decodes every row, then replaces the table's contents with the decoded
/// records (appends them, for the table without a primary key) and returns
/// how many were inserted. On any error nothing is changed.
pub fn import_table_data(db: &mut Database, table_name: &str, json_data: &str) -> (r: Result<
    usize,
    ImportError,
>)
    ensures
        is_outcome(
            r,
            final(db)@,
            import_outcome(old(db)@, batch_of_parsed(table_name@, parsed_text(json_data@))),
        ),
{
    let decoded = decode_payload(table_name, json_data);
    store(db, decoded)
}

} // verus!
