//! Column descriptors and file metadata, resolved from raw type tags.

use vstd::prelude::*;

use crate::tags::{
    converted_label, logical_label, physical_label, push_converted_label, push_logical_label,
    push_physical_label, ConvertedTag, LogicalTag, PhysicalTag,
};
use crate::ext::chars_to_string;

verus! {

/// A column's type annotations as read from the container footer:
/// the mandatory physical type, and the optional logical and legacy
/// converted tags.
#[derive(Clone, PartialEq, Eq, Debug)]
pub struct RawColumn {
    pub name: String,
    pub physical: PhysicalTag,
    pub logical: Option<LogicalTag>,
    pub converted: Option<ConvertedTag>,
}

/// A resolved column descriptor. `column_type` is the logical-or-converted
/// label when one resolves, else the physical type name; `logical_type` is
/// that same label, or `None` when neither tag is present.
#[derive(PartialEq, Eq, Debug)]
pub struct ColumnInfo {
    pub name: String,
    pub column_type: String,
    pub logical_type: Option<String>,
    pub physical_type: String,
}

/// The model of a column descriptor: its fields as character sequences.
pub struct ColumnInfoV {
    pub name: Seq<char>,
    pub column_type: Seq<char>,
    pub logical_type: Option<Seq<char>>,
    pub physical_type: Seq<char>,
}

impl View for ColumnInfo {
    type V = ColumnInfoV;

    open spec fn view(&self) -> ColumnInfoV {
        ColumnInfoV {
            name: self.name@,
            column_type: self.column_type@,
            logical_type: match self.logical_type {
                Some(s) => Some(s@),
                None => None,
            },
            physical_type: self.physical_type@,
        }
    }
}

/// Metadata of one container file: its row count and its columns in
/// on-disk schema order.
#[derive(PartialEq, Eq, Debug)]
pub struct ParquetMetadata {
    pub num_rows: i64,
    pub num_columns: usize,
    pub columns: Vec<ColumnInfo>,
}

/// The model of a file's metadata.
pub struct MetadataV {
    pub num_rows: i64,
    pub num_columns: int,
    pub columns: Seq<ColumnInfoV>,
}

impl View for ParquetMetadata {
    type V = MetadataV;

    open spec fn view(&self) -> MetadataV {
        MetadataV {
            num_rows: self.num_rows,
            num_columns: self.num_columns as int,
            columns: Seq::new(self.columns@.len(), |i: int| self.columns@[i]@),
        }
    }
}

impl Clone for ColumnInfo {
    fn clone(&self) -> (r: Self)
        ensures
            r == *self,
    {
        let r = ColumnInfo {
            name: self.name.clone(),
            column_type: self.column_type.clone(),
            logical_type: match &self.logical_type {
                Some(s) => Some(s.clone()),
                None => None,
            },
            physical_type: self.physical_type.clone(),
        };
        r
    }
}

impl Clone for ParquetMetadata {
    fn clone(&self) -> (r: Self)
        ensures
            r@ == self@,
    {
        let columns = self.columns.clone();
        assert(columns@ =~= self.columns@);
        let r = ParquetMetadata {
            num_rows: self.num_rows,
            num_columns: self.num_columns,
            columns,
        };
        assert(r@.columns =~= self@.columns);
        r
    }
}

/// The label that resolution assigns to a raw column, if either tag
/// resolves: the logical tag's label first, else the converted tag's.
pub open spec fn resolved_label(c: RawColumn) -> Option<Seq<char>> {
    if c.logical is Some {
        Some(logical_label(c.logical->0))
    } else if c.converted is Some {
        Some(converted_label(c.converted->0))
    } else {
        None
    }
}

/// The normalized type of a raw column: its resolved label when one
/// exists, else the physical type name.
pub open spec fn normalized_label(c: RawColumn) -> Seq<char> {
    match resolved_label(c) {
        Some(l) => l,
        None => physical_label(c.physical),
    }
}

/// The descriptor that resolution produces for a raw column.
pub open spec fn column_view_of(c: RawColumn) -> ColumnInfoV {
    ColumnInfoV {
        name: c.name@,
        column_type: normalized_label(c),
        logical_type: resolved_label(c),
        physical_type: physical_label(c.physical),
    }
}

/// The metadata that resolution produces from a row count and the raw
/// columns, in schema order.
pub open spec fn metadata_view_of(num_rows: i64, raw: Seq<RawColumn>) -> MetadataV {
    MetadataV {
        num_rows,
        num_columns: raw.len() as int,
        columns: Seq::new(raw.len(), |i: int| column_view_of(raw[i])),
    }
}

/// Resolves one column's tags to its descriptor.
pub fn resolve_column(raw: &RawColumn) -> (info: ColumnInfo)
    ensures
        info@ == column_view_of(*raw),
{
    let mut phys: Vec<char> = Vec::new();
    push_physical_label(&raw.physical, &mut phys);
    let physical_type = chars_to_string(&phys);

    let logical_type: Option<String> = match &raw.logical {
        Some(tag) => {
            let mut label: Vec<char> = Vec::new();
            push_logical_label(tag, &mut label);
            Some(chars_to_string(&label))
        },
        None => match &raw.converted {
            Some(tag) => {
                let mut label: Vec<char> = Vec::new();
                push_converted_label(tag, &mut label);
                Some(chars_to_string(&label))
            },
            None => None,
        },
    };

    let column_type = match &logical_type {
        Some(s) => s.clone(),
        None => physical_type.clone(),
    };

    ColumnInfo { name: raw.name.clone(), column_type, logical_type, physical_type }
}

/// Builds the metadata descriptor for a file from its row count and the
/// raw tags of every schema field, in schema order.
pub fn build_metadata(num_rows: i64, raw: &Vec<RawColumn>) -> (meta: ParquetMetadata)
    ensures
        meta@ == metadata_view_of(num_rows, raw@),
{
    let mut columns: Vec<ColumnInfo> = Vec::new();
    let n = raw.len();
    let mut i: usize = 0;
    while i < n
        invariant
            n == raw@.len(),
            i <= n,
            columns@.len() == i,
            forall|j: int| 0 <= j < i ==> (#[trigger] columns@[j])@ == column_view_of(raw@[j]),
        decreases n - i,
    {
        let info = resolve_column(&raw[i]);
        columns.push(info);
        i = i + 1;
    }
    let meta = ParquetMetadata { num_rows, num_columns: columns.len(), columns };
    assert(meta@.columns =~= metadata_view_of(num_rows, raw@).columns);
    meta
}

} // verus!
