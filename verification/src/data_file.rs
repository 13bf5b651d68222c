//! Data files and delete files, as the writers hand them in.

use crate::views::views;
use vstd::prelude::*;

verus! {

/// What a file holds.
#[derive(Clone, Copy, PartialEq, Eq, Structural, Debug)]
pub enum DataContentType {
    /// Rows.
    Data,
    /// Positions of deleted rows.
    PositionDeletes,
    /// Key values of deleted rows.
    EqualityDeletes,
}

/// How a file is encoded.
#[derive(Clone, Copy, PartialEq, Eq, Structural, Debug)]
pub enum DataFileFormat {
    Avro,
    Orc,
    Parquet,
}

/// The type of a partition field.
#[derive(Clone, Copy, PartialEq, Eq, Structural, Debug)]
pub enum PrimitiveType {
    Boolean,
    Int,
    Long,
    Float,
    Double,
    Decimal { precision: u32, scale: u32 },
    /// Days.
    Date,
    /// Microseconds of a day.
    Time,
    /// Microseconds, without a time zone.
    Timestamp,
    /// Microseconds, with a time zone.
    Timestamptz,
    /// Nanoseconds, without a time zone.
    TimestampNs,
    /// Nanoseconds, with a time zone.
    TimestamptzNs,
    String,
    Uuid,
    /// So many bytes.
    Fixed(u64),
    Binary,
}

/// The value of a partition field.
#[derive(Debug)]
pub enum Literal {
    Boolean(bool),
    /// An int, or the days of a date.
    Int(i32),
    /// A long, a time or a timestamp.
    Long(i64),
    /// The bits of a float.
    Float(u32),
    /// The bits of a double.
    Double(u64),
    /// The unscaled value of a decimal.
    Int128(i128),
    /// The number that a UUID's bytes make.
    UInt128(u128),
    String(String),
    /// Bytes, of a fixed number or not.
    Binary(Vec<u8>),
}

/// The contents of a [`Literal`].
pub enum LiteralView {
    Boolean(bool),
    Int(int),
    Long(int),
    Float(u32),
    Double(u64),
    Int128(int),
    UInt128(int),
    String(Seq<char>),
    Binary(Seq<u8>),
}

impl View for Literal {
    type V = LiteralView;

    open spec fn view(&self) -> LiteralView {
        match self {
            Literal::Boolean(value) => LiteralView::Boolean(*value),
            Literal::Int(value) => LiteralView::Int(*value as int),
            Literal::Long(value) => LiteralView::Long(*value as int),
            Literal::Float(bits) => LiteralView::Float(*bits),
            Literal::Double(bits) => LiteralView::Double(*bits),
            Literal::Int128(value) => LiteralView::Int128(*value as int),
            Literal::UInt128(value) => LiteralView::UInt128(*value as int),
            Literal::String(value) => LiteralView::String(value@),
            Literal::Binary(bytes) => LiteralView::Binary(bytes@),
        }
    }
}

impl LiteralView {
    /// Whether the literal is of the kind that holds values of the type.
    pub open spec fn has_type(self, primitive: PrimitiveType) -> bool {
        match primitive {
            PrimitiveType::Boolean => self is Boolean,
            PrimitiveType::Int | PrimitiveType::Date => self is Int,
            PrimitiveType::Long
            | PrimitiveType::Time
            | PrimitiveType::Timestamp
            | PrimitiveType::Timestamptz
            | PrimitiveType::TimestampNs
            | PrimitiveType::TimestamptzNs => self is Long,
            PrimitiveType::Float => self is Float,
            PrimitiveType::Double => self is Double,
            PrimitiveType::Decimal { .. } => self is Int128,
            PrimitiveType::Uuid => self is UInt128,
            PrimitiveType::String => self is String,
            PrimitiveType::Fixed(_) | PrimitiveType::Binary => self is Binary,
        }
    }
}

impl Clone for Literal {
    fn clone(&self) -> (literal: Literal)
        ensures
            literal@ == self@,
    {
        match self {
            Literal::Boolean(value) => Literal::Boolean(*value),
            Literal::Int(value) => Literal::Int(*value),
            Literal::Long(value) => Literal::Long(*value),
            Literal::Float(bits) => Literal::Float(*bits),
            Literal::Double(bits) => Literal::Double(*bits),
            Literal::Int128(value) => Literal::Int128(*value),
            Literal::UInt128(value) => Literal::UInt128(*value),
            Literal::String(value) => Literal::String(value.clone()),
            Literal::Binary(bytes) => {
                let copy = bytes.clone();
                assert(copy@ =~= bytes@);
                Literal::Binary(copy)
            },
        }
    }
}

impl Literal {
    /// Whether the literal is of the kind that holds values of the type.
    pub fn compatible(&self, primitive: PrimitiveType) -> (answer: bool)
        ensures
            answer == self@.has_type(primitive),
    {
        match self {
            Literal::Boolean(_) => matches!(primitive, PrimitiveType::Boolean),
            Literal::Int(_) => matches!(primitive, PrimitiveType::Int | PrimitiveType::Date),
            Literal::Long(_) => matches!(
                primitive,
                PrimitiveType::Long
                | PrimitiveType::Time
                | PrimitiveType::Timestamp
                | PrimitiveType::Timestamptz
                | PrimitiveType::TimestampNs
                | PrimitiveType::TimestamptzNs
            ),
            Literal::Float(_) => matches!(primitive, PrimitiveType::Float),
            Literal::Double(_) => matches!(primitive, PrimitiveType::Double),
            Literal::Int128(_) => matches!(primitive, PrimitiveType::Decimal { .. }),
            Literal::UInt128(_) => matches!(primitive, PrimitiveType::Uuid),
            Literal::String(_) => matches!(primitive, PrimitiveType::String),
            Literal::Binary(_) => matches!(
                primitive,
                PrimitiveType::Fixed(_) | PrimitiveType::Binary
            ),
        }
    }
}

/// A file of rows or of deletes.
#[derive(Debug)]
pub struct DataFile {
    pub content: DataContentType,
    pub file_path: String,
    pub file_format: DataFileFormat,
    pub file_size_in_bytes: u64,
    pub record_count: u64,
    /// One value per partition field; a field may be null.
    pub partition: Vec<Option<Literal>>,
    pub partition_spec_id: i32,
    /// The fields that an equality delete compares.
    pub equality_ids: Option<Vec<i32>>,
    /// The row ID of the file's first row, where it does not follow from the manifest.
    pub first_row_id: Option<u64>,
}

/// The contents of a [`DataFile`].
pub struct DataFileView {
    pub content: DataContentType,
    pub file_path: Seq<char>,
    pub file_format: DataFileFormat,
    pub file_size_in_bytes: nat,
    pub record_count: nat,
    pub partition: Seq<Option<LiteralView>>,
    pub partition_spec_id: int,
    pub equality_ids: Option<Seq<i32>>,
    pub first_row_id: Option<u64>,
}

/// The values of a partition.
pub open spec fn partition_view(partition: Seq<Option<Literal>>) -> Seq<Option<LiteralView>> {
    Seq::new(
        partition.len(),
        |i: int|
            match partition[i] {
                Some(literal) => Some(literal@),
                None => None,
            },
    )
}

impl View for DataFile {
    type V = DataFileView;

    open spec fn view(&self) -> DataFileView {
        DataFileView {
            content: self.content,
            file_path: self.file_path@,
            file_format: self.file_format,
            file_size_in_bytes: self.file_size_in_bytes as nat,
            record_count: self.record_count as nat,
            partition: partition_view(self.partition@),
            partition_spec_id: self.partition_spec_id as int,
            equality_ids: match self.equality_ids {
                Some(ids) => Some(ids@),
                None => None,
            },
            first_row_id: self.first_row_id,
        }
    }
}

/// A copy of a partition's values.
fn clone_partition(partition: &Vec<Option<Literal>>) -> (copy: Vec<Option<Literal>>)
    ensures
        partition_view(copy@) == partition_view(partition@),
{
    let mut copy: Vec<Option<Literal>> = Vec::new();
    let mut i: usize = 0;
    while i < partition.len()
        invariant
            i <= partition.len(),
            copy.len() == i,
            forall|j: int|
                0 <= j < i ==> (#[trigger] partition_view(copy@)[j] == partition_view(partition@)[j]),
        decreases partition.len() - i,
    {
        let ghost before = copy@;
        let value = match &partition[i] {
            Some(literal) => Some(literal.clone()),
            None => None,
        };
        copy.push(value);
        proof {
            assert forall|j: int| 0 <= j < i + 1 implies (#[trigger] partition_view(copy@)[j]
                == partition_view(partition@)[j]) by {
                if j < i {
                    assert(copy@[j] == before[j]);
                    assert(partition_view(before)[j] == partition_view(partition@)[j]);
                }
            }
        }
        i += 1;
    }
    assert(partition_view(copy@) =~= partition_view(partition@));
    copy
}

/// A copy of field IDs.
fn clone_ids(ids: &Vec<i32>) -> (copy: Vec<i32>)
    ensures
        copy@ == ids@,
{
    let copy = ids.clone();
    assert(copy@ =~= ids@);
    copy
}

impl Clone for DataFile {
    fn clone(&self) -> (file: DataFile)
        ensures
            file@ == self@,
    {
        DataFile {
            content: self.content,
            file_path: self.file_path.clone(),
            file_format: self.file_format,
            file_size_in_bytes: self.file_size_in_bytes,
            record_count: self.record_count,
            partition: clone_partition(&self.partition),
            partition_spec_id: self.partition_spec_id,
            equality_ids: match &self.equality_ids {
                Some(ids) => Some(clone_ids(ids)),
                None => None,
            },
            first_row_id: self.first_row_id,
        }
    }
}

/// A copy of a list of files.
pub fn clone_files(files: &Vec<DataFile>) -> (copy: Vec<DataFile>)
    ensures
        views(copy@) == views(files@),
{
    let mut copy: Vec<DataFile> = Vec::new();
    let mut i: usize = 0;
    while i < files.len()
        invariant
            i <= files.len(),
            copy.len() == i,
            forall|j: int| 0 <= j < i ==> (#[trigger] copy@[j])@ == files@[j]@,
        decreases files.len() - i,
    {
        copy.push(files[i].clone());
        i += 1;
    }
    assert(views(copy@) =~= views(files@));
    copy
}

} // verus!
