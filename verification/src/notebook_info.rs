//! Per-category facts the window needs to build a tab's view: the column
//! types of the category's model, and, for the grouped categories, the
//! model column that flags a group-header row.

use vstd::prelude::*;

verus! {

use crate::help_functions::{
    ColumnsDuplicates, ColumnsSameMusic, ColumnsSimilarImages, ColumnsSimilarVideos,
};
use crate::list_store::ColumnType;
use crate::notebook_enums::NotebookMainEnum;

/// What one notebook tab is built from.
pub struct NotebookObject {
    pub notebook_enum: NotebookMainEnum,
    /// The boolean model column that marks group-header rows, in the
    /// categories that group their results.
    pub column_header: Option<i32>,
    /// The value type of each model column, by index.
    pub columns_types: Vec<ColumnType>,
}

/// The header-flag column of a category, where it groups its results.
pub open spec fn spec_column_header(e: NotebookMainEnum) -> Option<i32> {
    match e {
        NotebookMainEnum::Duplicate => Some(ColumnsDuplicates::IsHeader.spec_idx()),
        NotebookMainEnum::SimilarImages => Some(ColumnsSimilarImages::IsHeader.spec_idx()),
        NotebookMainEnum::SimilarVideos => Some(ColumnsSimilarVideos::IsHeader.spec_idx()),
        NotebookMainEnum::SameMusic => Some(ColumnsSameMusic::IsHeader.spec_idx()),
        _ => None,
    }
}

/// The column types of a category's model, in column order.
pub open spec fn spec_columns_types(e: NotebookMainEnum) -> Seq<ColumnType> {
    match e {
        NotebookMainEnum::Duplicate => seq![
            ColumnType::Bool,
            ColumnType::Bool,
            ColumnType::Str,
            ColumnType::Str,
            ColumnType::Str,
            ColumnType::Str,
            ColumnType::Str,
            ColumnType::Bool,
            ColumnType::Str,
        ],
        NotebookMainEnum::EmptyDirectories => seq![
            ColumnType::Bool,
            ColumnType::Str,
            ColumnType::Str,
            ColumnType::Str,
            ColumnType::U64,
        ],
        NotebookMainEnum::BigFiles => seq![
            ColumnType::Bool,
            ColumnType::Str,
            ColumnType::Str,
            ColumnType::Str,
            ColumnType::Str,
            ColumnType::U64,
        ],
        NotebookMainEnum::EmptyFiles => seq![
            ColumnType::Bool,
            ColumnType::Str,
            ColumnType::Str,
            ColumnType::Str,
            ColumnType::U64,
        ],
        NotebookMainEnum::Temporary => seq![
            ColumnType::Bool,
            ColumnType::Str,
            ColumnType::Str,
            ColumnType::Str,
            ColumnType::U64,
        ],
        NotebookMainEnum::SimilarImages => seq![
            ColumnType::Bool,
            ColumnType::Bool,
            ColumnType::Str,
            ColumnType::Str,
            ColumnType::Str,
            ColumnType::Str,
            ColumnType::Str,
            ColumnType::Str,
            ColumnType::Str,
            ColumnType::Bool,
            ColumnType::Str,
        ],
        NotebookMainEnum::SimilarVideos => seq![
            ColumnType::Bool,
            ColumnType::Bool,
            ColumnType::Str,
            ColumnType::Str,
            ColumnType::Str,
            ColumnType::Str,
            ColumnType::Str,
            ColumnType::Bool,
            ColumnType::Str,
        ],
        NotebookMainEnum::SameMusic => seq![
            ColumnType::Bool,
            ColumnType::Bool,
            ColumnType::Str,
            ColumnType::Str,
            ColumnType::Str,
            ColumnType::Str,
            ColumnType::Str,
            ColumnType::Str,
            ColumnType::Str,
            ColumnType::Str,
            ColumnType::Str,
            ColumnType::Str,
            ColumnType::Str,
            ColumnType::Bool,
            ColumnType::Str,
        ],
        NotebookMainEnum::Symlinks => seq![
            ColumnType::Bool,
            ColumnType::Str,
            ColumnType::Str,
            ColumnType::Str,
            ColumnType::Str,
            ColumnType::Str,
            ColumnType::U64,
        ],
        NotebookMainEnum::BrokenFiles => seq![
            ColumnType::Bool,
            ColumnType::Str,
            ColumnType::Str,
            ColumnType::Str,
            ColumnType::Str,
            ColumnType::U64,
        ],
        NotebookMainEnum::BadExtensions => seq![
            ColumnType::Bool,
            ColumnType::Str,
            ColumnType::Str,
            ColumnType::Str,
            ColumnType::Str,
        ],
    }
}

/// Where a category declares a header-flag column, that column exists in
/// its schema and holds booleans, so the selection rule can read it.
pub proof fn column_header_is_boolean(e: NotebookMainEnum)
    ensures
        spec_column_header(e) matches Some(h) ==> 0 <= h < spec_columns_types(e).len()
            && spec_columns_types(e)[h as int] is Bool,
{
}

/// The tab description of one category.
pub fn notebook_object(e: NotebookMainEnum) -> (o: NotebookObject)
    ensures
        o.notebook_enum == e,
        o.column_header == spec_column_header(e),
        o.columns_types@ == spec_columns_types(e),
{
    let column_header: Option<i32> = match e {
        NotebookMainEnum::Duplicate => Some(ColumnsDuplicates::IsHeader.idx()),
        NotebookMainEnum::SimilarImages => Some(ColumnsSimilarImages::IsHeader.idx()),
        NotebookMainEnum::SimilarVideos => Some(ColumnsSimilarVideos::IsHeader.idx()),
        NotebookMainEnum::SameMusic => Some(ColumnsSameMusic::IsHeader.idx()),
        _ => None,
    };
    let columns_types = columns_types_of(e);
    NotebookObject { notebook_enum: e, column_header, columns_types }
}

/// The column types of a category's model.
pub fn columns_types_of(e: NotebookMainEnum) -> (t: Vec<ColumnType>)
    ensures
        t@ == spec_columns_types(e),
{
    let mut t: Vec<ColumnType> = Vec::new();
    match e {
        NotebookMainEnum::Duplicate => {
            t.push(ColumnType::Bool);
            t.push(ColumnType::Bool);
            t.push(ColumnType::Str);
            t.push(ColumnType::Str);
            t.push(ColumnType::Str);
            t.push(ColumnType::Str);
            t.push(ColumnType::Str);
            t.push(ColumnType::Bool);
            t.push(ColumnType::Str);
        },
        NotebookMainEnum::EmptyDirectories => {
            t.push(ColumnType::Bool);
            t.push(ColumnType::Str);
            t.push(ColumnType::Str);
            t.push(ColumnType::Str);
            t.push(ColumnType::U64);
        },
        NotebookMainEnum::BigFiles => {
            t.push(ColumnType::Bool);
            t.push(ColumnType::Str);
            t.push(ColumnType::Str);
            t.push(ColumnType::Str);
            t.push(ColumnType::Str);
            t.push(ColumnType::U64);
        },
        NotebookMainEnum::EmptyFiles => {
            t.push(ColumnType::Bool);
            t.push(ColumnType::Str);
            t.push(ColumnType::Str);
            t.push(ColumnType::Str);
            t.push(ColumnType::U64);
        },
        NotebookMainEnum::Temporary => {
            t.push(ColumnType::Bool);
            t.push(ColumnType::Str);
            t.push(ColumnType::Str);
            t.push(ColumnType::Str);
            t.push(ColumnType::U64);
        },
        NotebookMainEnum::SimilarImages => {
            t.push(ColumnType::Bool);
            t.push(ColumnType::Bool);
            t.push(ColumnType::Str);
            t.push(ColumnType::Str);
            t.push(ColumnType::Str);
            t.push(ColumnType::Str);
            t.push(ColumnType::Str);
            t.push(ColumnType::Str);
            t.push(ColumnType::Str);
            t.push(ColumnType::Bool);
            t.push(ColumnType::Str);
        },
        NotebookMainEnum::SimilarVideos => {
            t.push(ColumnType::Bool);
            t.push(ColumnType::Bool);
            t.push(ColumnType::Str);
            t.push(ColumnType::Str);
            t.push(ColumnType::Str);
            t.push(ColumnType::Str);
            t.push(ColumnType::Str);
            t.push(ColumnType::Bool);
            t.push(ColumnType::Str);
        },
        NotebookMainEnum::SameMusic => {
            t.push(ColumnType::Bool);
            t.push(ColumnType::Bool);
            t.push(ColumnType::Str);
            t.push(ColumnType::Str);
            t.push(ColumnType::Str);
            t.push(ColumnType::Str);
            t.push(ColumnType::Str);
            t.push(ColumnType::Str);
            t.push(ColumnType::Str);
            t.push(ColumnType::Str);
            t.push(ColumnType::Str);
            t.push(ColumnType::Str);
            t.push(ColumnType::Str);
            t.push(ColumnType::Bool);
            t.push(ColumnType::Str);
        },
        NotebookMainEnum::Symlinks => {
            t.push(ColumnType::Bool);
            t.push(ColumnType::Str);
            t.push(ColumnType::Str);
            t.push(ColumnType::Str);
            t.push(ColumnType::Str);
            t.push(ColumnType::Str);
            t.push(ColumnType::U64);
        },
        NotebookMainEnum::BrokenFiles => {
            t.push(ColumnType::Bool);
            t.push(ColumnType::Str);
            t.push(ColumnType::Str);
            t.push(ColumnType::Str);
            t.push(ColumnType::Str);
            t.push(ColumnType::U64);
        },
        NotebookMainEnum::BadExtensions => {
            t.push(ColumnType::Bool);
            t.push(ColumnType::Str);
            t.push(ColumnType::Str);
            t.push(ColumnType::Str);
            t.push(ColumnType::Str);
        },
    }
    proof {
        assert(t@ =~= spec_columns_types(e));
    }
    t
}

} // verus!
