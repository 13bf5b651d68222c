//! Files: which of them a table takes, and with what error it turns the others down.

use crate::data_file::{DataContentType, DataFileView, LiteralView, PrimitiveType};
use crate::error::{ErrorKind, ErrorView};
use crate::manifest::ManifestContentType;
use crate::table::TableView;
use crate::transaction::snapshot_producer::{
    file_error, first_file_error, partition_fits, unless_error, NOT_DATA, NOT_DELETES,
    PARTITION_MISMATCH, PARTITION_SPEC_MISMATCH,
};
use vstd::prelude::*;

verus! {

/// What types the values of each kind may stand for.
pub proof fn law_types_of_literals(literal: LiteralView, primitive: PrimitiveType)
    ensures
        literal.has_type(primitive) <==> (match literal {
            LiteralView::Boolean(_) => primitive is Boolean,
            LiteralView::Int(_) => primitive is Int || primitive is Date,
            LiteralView::Long(_) => {
                ||| primitive is Long
                ||| primitive is Time
                ||| primitive is Timestamp
                ||| primitive is Timestamptz
                ||| primitive is TimestampNs
                ||| primitive is TimestamptzNs
            },
            LiteralView::Float(_) => primitive is Float,
            LiteralView::Double(_) => primitive is Double,
            LiteralView::Int128(_) => primitive is Decimal,
            LiteralView::UInt128(_) => primitive is Uuid,
            LiteralView::String(_) => primitive is String,
            LiteralView::Binary(_) => primitive is Fixed || primitive is Binary,
        }),
{
}

/// A partition fits a table's partition types exactly where it has one value per type, and each
/// value is null or of that type.
pub proof fn law_partition_fits_value_by_value(
    partition: Seq<Option<LiteralView>>,
    types: Seq<PrimitiveType>,
    value: Option<LiteralView>,
    primitive: PrimitiveType,
)
    ensures
        partition_fits(Seq::empty(), Seq::empty()),
        partition.len() != types.len() ==> !partition_fits(partition, types),
        partition.len() == types.len() ==> (partition_fits(
            partition.push(value),
            types.push(primitive),
        ) <==> partition_fits(partition, types) && (value is None || value->0.has_type(primitive))),
{
    if partition.len() == types.len() {
        let more = partition.push(value);
        let n = partition.len() as int;
        if partition_fits(more, types.push(primitive)) {
            assert(more[n] == value);
            assert forall|i: int| 0 <= i < n implies (#[trigger] partition[i] matches Some(v)
                ==> v.has_type(types[i])) by {
                assert(more[i] == partition[i]);
            }
        }
        if partition_fits(partition, types) && (value is None || value->0.has_type(primitive)) {
            assert forall|i: int| 0 <= i < more.len() implies (#[trigger] more[i] matches Some(v)
                ==> v.has_type(types.push(primitive)[i])) by {
                if i < n {
                    assert(more[i] == partition[i]);
                }
            }
        }
    }
}

/// A table takes a file among the data files exactly where it is a data file, and among the delete
/// files exactly where it is a file of position deletes or of equality deletes; in both cases it
/// must belong to the table's default partition spec and have a value, of the right type or null,
/// for each of its fields. What is wrong is looked for in this order, and no retry mends it.
pub proof fn law_files_that_a_table_takes(
    table: TableView,
    content: ManifestContentType,
    file: DataFileView,
)
    ensures
        ({
            let result = file_error(table, content, file);
            let right_content = match content {
                ManifestContentType::Data => file.content == DataContentType::Data,
                ManifestContentType::Deletes => file.content == DataContentType::PositionDeletes
                    || file.content == DataContentType::EqualityDeletes,
            };
            let right_spec = file.partition_spec_id == table.default_partition_spec_id;
            let right_values = file.partition.len() == table.partition_type.len() && forall|k: int|
                0 <= k < file.partition.len() ==> (#[trigger] file.partition[k] matches Some(value)
                    ==> value.has_type(table.partition_type[k]));
            &&& result is None <==> right_content && right_spec && right_values
            &&& result matches Some(error) ==> error.kind == ErrorKind::DataInvalid
                && !error.retryable && error.message == (if !right_content {
                match content {
                    ManifestContentType::Data => NOT_DATA@,
                    ManifestContentType::Deletes => NOT_DELETES@,
                }
            } else if !right_spec {
                PARTITION_SPEC_MISMATCH@
            } else {
                PARTITION_MISMATCH@
            })
        }),
{
}

/// Files pass where each of them does; else the first that does not pass decides.
pub proof fn law_first_bad_file_decides(
    table: TableView,
    content: ManifestContentType,
    files: Seq<DataFileView>,
    n: int,
)
    requires
        0 <= n <= files.len(),
        forall|i: int|
            0 <= i < n ==> file_error(table, content, #[trigger] files[i]) is None,
    ensures
        n == files.len() ==> first_file_error(table, content, files) is None,
        n < files.len() && file_error(table, content, files[n]) is Some ==> first_file_error(
            table,
            content,
            files,
        ) == file_error(table, content, files[n]),
    decreases n,
{
    if n > 0 {
        let rest = files.drop_first();
        assert forall|i: int| 0 <= i < n - 1 implies file_error(
            table,
            content,
            #[trigger] rest[i],
        ) is None by {
            assert(rest[i] == files[i + 1]);
        }
        assert(file_error(table, content, files[0]) is None);
        law_first_bad_file_decides(table, content, rest, n - 1);
    }
}

/// Where files pass, each of them does.
pub proof fn law_passing_files_pass_each(
    table: TableView,
    content: ManifestContentType,
    files: Seq<DataFileView>,
    i: int,
)
    requires
        first_file_error(table, content, files) is None,
        0 <= i < files.len(),
    ensures
        file_error(table, content, files[i]) is None,
    decreases files.len(),
{
    if i > 0 {
        assert(files.drop_first()[i - 1] == files[i]);
        law_passing_files_pass_each(table, content, files.drop_first(), i - 1);
    }
}

/// Files pass exactly where each of them has the right content, partition spec and values.
pub(crate) proof fn lemma_files_pass(
    table: TableView,
    content: ManifestContentType,
    files: Seq<DataFileView>,
)
    ensures
        first_file_error(table, content, files) is None <==> forall|i: int|
            0 <= i < files.len() ==> {
                &&& (content == ManifestContentType::Data <==> (#[trigger] files[i]).content
                    == DataContentType::Data)
                &&& files[i].partition_spec_id == table.default_partition_spec_id
                &&& files[i].partition.len() == table.partition_type.len()
                &&& forall|k: int|
                    0 <= k < files[i].partition.len() ==> (
                    #[trigger] files[i].partition[k] matches Some(value) ==> value.has_type(
                        table.partition_type[k],
                    ))
            },
    decreases files.len(),
{
    if files.len() > 0 {
        let rest = files.drop_first();
        lemma_files_pass(table, content, rest);
        law_files_that_a_table_takes(table, content, files[0]);
        assert forall|i: int| 0 <= i < rest.len() implies rest[i] == #[trigger] files[i + 1] by {}
        assert forall|i: int| 0 < i < files.len() implies #[trigger] files[i] == rest[i - 1] by {}
    }
}

/// The check of files succeeds where nothing is wrong, else fails with what is.
pub proof fn law_check_fails_with_the_error(error: ErrorView)
    ensures
        unless_error(None) is Ok,
        unless_error(Some(error)) == Err::<(), ErrorView>(error),
{
}

} // verus!
