//! What holds of every import, proved from the definitions the contracts use.

use crate::decode::{
    bare_identity_of, identity_of, timestamp_of, vector3_of, wrapped_identity_of,
};
use crate::error::{ImportErrorView, Reason, VectorError};
use crate::hex::is_hex;
use crate::import::{
    batch_for, batch_of, import_outcome, key_taken, row_decoded, rows_of, stage_row, staged,
};
use crate::json::{JsonNumber, JsonView};
use crate::records::{Config, DbVector3, MessageView, Timestamp};
use crate::rows::Row;
use crate::schema::Table;
use crate::store::{BatchView, DatabaseView};
use crate::text::decimal;
use vstd::prelude::*;

verus! {

/// The record that row `index` decodes to, where it does.
pub open spec fn record_at<R: Row>(rows: Seq<JsonView>, index: int) -> R::V {
    row_decoded::<R>(rows[index], index)->Ok_0
}

/// Whether each of the first `n` rows decodes to a record that is stored,
/// and no two of them to records with the same primary key.
pub open spec fn all_valid<R: Row>(rows: Seq<JsonView>, n: int) -> bool {
    &&& forall|i: int| 0 <= i < n ==> (#[trigger] row_decoded::<R>(rows[i], i)) is Ok
    &&& forall|i: int| 0 <= i < n ==> R::stored(#[trigger] record_at::<R>(rows, i))
    &&& forall|i: int, j: int|
        0 <= i < j < n ==> !R::same_key(
            #[trigger] record_at::<R>(rows, i),
            #[trigger] record_at::<R>(rows, j),
        )
}

/// Whether no two of `records` have the same primary key.
pub open spec fn distinct_keys<R: Row>(records: Seq<R::V>) -> bool {
    forall|i: int, j: int|
        0 <= i < j < records.len() ==> !R::same_key(#[trigger] records[i], #[trigger] records[j])
}

/// Whether `part` occurs in `message`.
pub open spec fn mentions(message: Seq<char>, part: Seq<char>) -> bool {
    exists|k: int|
        0 <= k && k + part.len() <= message.len() && #[trigger] message.subrange(
            k,
            k + part.len(),
        ) == part
}

/// N valid rows are staged as exactly their N records, in the order of the
/// rows.
pub proof fn law_valid_rows_are_all_staged<R: Row>(rows: Seq<JsonView>, n: int)
    requires
        0 <= n <= rows.len(),
        all_valid::<R>(rows, n),
    ensures
        staged::<R>(rows, n) == Ok::<Seq<R::V>, ImportErrorView>(
            Seq::new(n as nat, |i: int| record_at::<R>(rows, i)),
        ),
    decreases n,
{
    if n > 0 {
        law_valid_rows_are_all_staged::<R>(rows, n - 1);
        let earlier = Seq::new((n - 1) as nat, |i: int| record_at::<R>(rows, i));
        let record = record_at::<R>(rows, n - 1);
        assert(row_decoded::<R>(rows[n - 1], n - 1) is Ok);
        assert(R::stored(record));
        assert(!key_taken::<R>(earlier, record)) by {
            if key_taken::<R>(earlier, record) {
                let j = choose|j: int|
                    0 <= j < earlier.len() && R::same_key(#[trigger] earlier[j], record);
                assert(earlier[j] == record_at::<R>(rows, j));
            }
        }
        assert(earlier.push(record) =~= Seq::new(n as nat, |i: int| record_at::<R>(rows, i)));
    } else {
        assert(Seq::<R::V>::empty() =~= Seq::new(n as nat, |i: int| record_at::<R>(rows, i)));
    }
}

/// A row that decodes to a record that is not stored is passed over: it adds
/// nothing and is no error.
pub proof fn law_unstored_rows_are_skipped<R: Row>(earlier: Seq<R::V>, row: JsonView, index: int)
    requires
        row_decoded::<R>(row, index) matches Ok(record) && !R::stored(record),
    ensures
        stage_row::<R>(earlier, row, index) == Ok::<Seq<R::V>, ImportErrorView>(earlier),
{
}

/// Of the configuration table exactly the records with `id` 0 are stored.
pub proof fn law_config_stores_id_zero(record: Config)
    ensures
        <Config as Row>::stored(record) <==> record.id == 0,
{
}

/// What is staged are stored records with pairwise different primary keys,
/// no more of them than rows were taken in.
pub proof fn law_staged_records_are_distinct<R: Row>(rows: Seq<JsonView>, n: int)
    requires
        staged::<R>(rows, n) is Ok,
    ensures
        distinct_keys::<R>(staged::<R>(rows, n)->Ok_0),
        forall|i: int|
            0 <= i < staged::<R>(rows, n)->Ok_0.len() ==> R::stored(
                #[trigger] staged::<R>(rows, n)->Ok_0[i],
            ),
        staged::<R>(rows, n)->Ok_0.len() <= if n > 0 {
            n
        } else {
            0
        },
    decreases n,
{
    if n > 0 {
        law_staged_records_are_distinct::<R>(rows, n - 1);
        let earlier = staged::<R>(rows, n - 1)->Ok_0;
        let now = staged::<R>(rows, n)->Ok_0;
        let record = row_decoded::<R>(rows[n - 1], n - 1)->Ok_0;
        if R::stored(record) {
            assert(!key_taken::<R>(earlier, record));
            assert(now == earlier.push(record));
            assert forall|i: int, j: int| 0 <= i < j < now.len() implies !R::same_key(
                #[trigger] now[i],
                #[trigger] now[j],
            ) by {
                if j == earlier.len() {
                    assert(now[i] == earlier[i]);
                    if R::same_key(now[i], now[j]) {
                        assert(R::same_key(earlier[i], record));
                    }
                } else {
                    assert(now[i] == earlier[i]);
                    assert(now[j] == earlier[j]);
                }
            }
        }
    }
}

/// Where staging succeeds, every row taken in has decoded.
pub proof fn law_staged_rows_all_decode<R: Row>(rows: Seq<JsonView>, n: int)
    requires
        staged::<R>(rows, n) is Ok,
    ensures
        forall|i: int| 0 <= i < n ==> (#[trigger] row_decoded::<R>(rows[i], i)) is Ok,
    decreases n,
{
    if n > 0 {
        law_staged_rows_all_decode::<R>(rows, n - 1);
    }
}

/// Where staging fails, it fails at one row, the first that does not decode
/// or repeats a key: every row before it has decoded and been staged, and
/// the error is about that row. Returns the row's index.
pub proof fn law_first_failure<R: Row>(rows: Seq<JsonView>, n: int) -> (index: int)
    requires
        staged::<R>(rows, n) is Err,
    ensures
        0 <= index < n,
        staged::<R>(rows, index) is Ok,
        forall|i: int| 0 <= i < index ==> (#[trigger] row_decoded::<R>(rows[i], i)) is Ok,
        stage_row::<R>(staged::<R>(rows, index)->Ok_0, rows[index], index) == staged::<R>(rows, n),
        staged::<R>(rows, n)->Err_0.row() == Some(index),
    decreases n,
{
    if staged::<R>(rows, n - 1) is Err {
        law_first_failure::<R>(rows, n - 1)
    } else {
        law_staged_rows_all_decode::<R>(rows, n - 1);
        n - 1
    }
}

/// An error about a row names the row: its message begins with `Row `, the
/// row's index in decimal, and the table's name in quotes.
pub proof fn law_row_errors_name_the_row(e: ImportErrorView)
    requires
        e.row() is Some,
        e.row()->Some_0 >= 0,
    ensures
        mentions(e.message(), decimal(e.row()->Some_0 as nat)),
        e.message().subrange(0, 4) == "Row "@,
        e.message().subrange(4, 4 + decimal(e.row()->Some_0 as nat).len() as int) == decimal(
            e.row()->Some_0 as nat,
        ),
{
    reveal_strlit("Row ");
    let digits = decimal(e.row()->Some_0 as nat);
    let message = e.message();
    assert("Row "@.len() == 4);
    assert(message.subrange(0, 4) =~= "Row "@);
    assert(message.subrange(4, 4 + digits.len() as int) =~= digits);
}

/// An error about a cell names the column: the column's index in decimal
/// and its label both occur in the message, after the row.
pub proof fn law_cell_errors_name_the_column(
    table: Table,
    row: int,
    column: int,
    reason: Reason,
)
    requires
        row >= 0,
        column >= 0,
    ensures
        ({
            let e = ImportErrorView::Cell { table, row, column, reason };
            &&& mentions(e.message(), decimal(column as nat))
            &&& mentions(e.message(), table.label_spec(column))
            &&& e.message() == ImportErrorView::row_prefix(table, row) + " Col "@ + decimal(
                column as nat,
            ) + " ('"@ + table.label_spec(column) + "'): "@ + reason.message_spec()
        }),
{
    let e = ImportErrorView::Cell { table, row, column, reason };
    let message = e.message();
    let head = ImportErrorView::row_prefix(table, row) + " Col "@;
    let digits = decimal(column as nat);
    let label = table.label_spec(column);
    let k1 = head.len() as int;
    assert(message.subrange(k1, k1 + digits.len()) =~= digits);
    let k2 = (head + digits + " ('"@).len() as int;
    assert(message.subrange(k2, k2 + label.len()) =~= label);
}

/// A name that addresses no table is refused with an error that holds the
/// name as it was given, whatever rows the envelope has.
pub proof fn law_unknown_table_is_named(name: Seq<char>, envelope: JsonView)
    requires
        Table::named(name) is None,
        rows_of(envelope) is Ok,
    ensures
        batch_of(name, envelope) == Err::<BatchView, ImportErrorView>(
            ImportErrorView::UnknownTable { name },
        ),
        mentions(ImportErrorView::UnknownTable { name }.message(), name),
{
    let message = ImportErrorView::UnknownTable { name }.message();
    let k = "Import not implemented for table: "@.len() as int;
    assert(message.subrange(k, k + name.len()) =~= name);
}

/// A failed import changes nothing: every table is as it was.
pub proof fn law_failure_changes_nothing(before: DatabaseView, e: ImportErrorView)
    ensures
        import_outcome(before, Err(e)) == (Err::<nat, ImportErrorView>(e), before),
{
}

/// A successful import into a keyed table replaces the table: afterwards it
/// holds the batch's records and none of those it held, the count returned
/// is the number it holds, and no table but the batch's has changed.
pub proof fn law_keyed_import_replaces(before: DatabaseView, batch: BatchView)
    requires
        batch.table().keyed_spec(),
    ensures
        ({
            let (result, after) = import_outcome(before, Ok(batch));
            &&& result == Ok::<nat, ImportErrorView>(batch.len())
            &&& after.count(batch.table()) == batch.len()
            &&& after.applied(batch) == after
            &&& forall|other: Table|
                other != batch.table() ==> after.count(other) == before.count(other)
            &&& match batch {
                BatchView::Config(records) => after.config == records,
                BatchView::Entity(records) => after.entity == records,
                BatchView::Mob(records) => after.mob == records,
                BatchView::MovementComponent(records) => after.movement_component == records,
                BatchView::Player(records) => after.player == records,
                BatchView::Message(records) => false,
                BatchView::Messages(records) => after.messages == records,
            }
        }),
{
}

/// Importing into a keyed table twice is the same as importing once.
pub proof fn law_keyed_import_is_idempotent(before: DatabaseView, batch: BatchView)
    requires
        batch.table().keyed_spec(),
    ensures
        before.applied(batch).applied(batch) == before.applied(batch),
{
}

/// The table without a primary key accumulates: an import leaves what the
/// table held and adds the batch after it, so that importing the same batch
/// twice stores every record of it twice.
pub proof fn law_unkeyed_import_accumulates(before: DatabaseView, records: Seq<MessageView>)
    ensures
        ({
            let batch = BatchView::Message(records);
            let once = before.applied(batch);
            let twice = once.applied(batch);
            &&& once.message == before.message + records
            &&& twice.message == before.message + records + records
            &&& once.count(Table::Message) == before.count(Table::Message) + records.len()
            &&& twice.count(Table::Message) == before.count(Table::Message) + 2 * records.len()
            &&& import_outcome(once, Ok(batch)) == (
                Ok::<nat, ImportErrorView>(records.len()),
                twice,
            )
        }),
{
}

/// A batch is for the table it was decoded for.
pub proof fn law_batch_is_for_its_table(table: Table, rows: Seq<JsonView>)
    requires
        batch_for(table, rows) is Ok,
    ensures
        batch_for(table, rows)->Ok_0.table() == table,
{
}

/// A vector decodes alike from its object form and its array form: where
/// the members `x`, `y`, `z` of an object are the first three elements of an
/// array, both decode or neither does, and to the same vector.
pub proof fn law_vector_forms_agree(object: JsonView, array: JsonView)
    requires
        object is Object,
        array matches JsonView::Array(items) && items.len() >= 3 && object.member("x"@) == Some(
            items[0],
        ) && object.member("y"@) == Some(items[1]) && object.member("z"@) == Some(items[2]),
    ensures
        vector3_of(object) is Ok <==> vector3_of(array) is Ok,
        vector3_of(object) is Ok ==> vector3_of(object) == vector3_of(array),
{
}

/// An array of fewer than three elements is no vector.
pub proof fn law_short_array_is_no_vector(items: Seq<JsonView>)
    requires
        items.len() < 3,
    ensures
        vector3_of(JsonView::Array(items)) == Err::<DbVector3, VectorError>(
            VectorError::TooFewElements,
        ),
{
}

/// An identity decodes alike from a bare hexadecimal string and from an
/// array whose first element is that string, in the decoder that accepts
/// both and in the two that accept one form each.
pub proof fn law_identity_forms_agree(text: Seq<char>, items: Seq<JsonView>)
    requires
        items.len() >= 1,
        items[0] == JsonView::Text(text),
    ensures
        identity_of(JsonView::Array(items)) == identity_of(JsonView::Text(text)),
        wrapped_identity_of(JsonView::Array(items)) == bare_identity_of(JsonView::Text(text)),
        identity_of(JsonView::Text(text)) == bare_identity_of(JsonView::Text(text)),
        identity_of(JsonView::Text(text)) is Ok <==> is_hex(text),
{
}

/// An empty wrapping array is no identity.
pub proof fn law_empty_array_is_no_identity()
    ensures
        identity_of(JsonView::Array(Seq::empty())) == Err::<Seq<u8>, Reason>(Reason::EmptyArray),
        wrapped_identity_of(JsonView::Array(Seq::empty())) == Err::<Seq<u8>, Reason>(
            Reason::EmptyArray,
        ),
{
}

/// A timestamp is the wrapped integer taken as microseconds from the
/// epoch, before it as well as after; an empty array is no timestamp.
pub proof fn law_timestamp_is_the_wrapped_integer(items: Seq<JsonView>, number: JsonNumber)
    requires
        items.len() >= 1,
        items[0] == JsonView::Number(number),
    ensures
        number.signed matches Some(micros) ==> timestamp_of(JsonView::Array(items)) == Ok::<
            Timestamp,
            Reason,
        >(Timestamp { micros_since_unix_epoch: micros }),
        number.signed is None ==> timestamp_of(JsonView::Array(items)) == Err::<Timestamp, Reason>(
            Reason::NotInteger,
        ),
        timestamp_of(JsonView::Array(Seq::empty())) == Err::<Timestamp, Reason>(
            Reason::EmptyArray,
        ),
{
}

} // verus!
