//! The two directory-picker views of the options pane: the included and
//! the excluded directories.

use vstd::prelude::*;

verus! {

use crate::common_tree_view::{
    create_default_column, create_default_selection_button_column, spec_selection_button_column,
    spec_text_column, unchanged_but_columns, ColumnSort, TreeView, TreeViewListStoreTrait,
};
use crate::help_functions::{ColumnsExcludedDirectory, ColumnsIncludedDirectory};

/// Gives the included-directories view its two columns: the path, sorted
/// by itself, and the reference-directory toggle. The view must already
/// have its store.
pub fn create_tree_view_included_directories(tree_view: &mut TreeView)
    requires
        old(tree_view).has_list_store(),
    ensures
        final(tree_view).columns@ == old(tree_view).columns@.push(
            spec_text_column(
                ColumnsIncludedDirectory::Path.spec_idx(),
                ColumnSort::DefaultSort,
                None,
            ),
        ).push(spec_selection_button_column(ColumnsIncludedDirectory::ReferenceButton.spec_idx(), None)),
        unchanged_but_columns(*final(tree_view), *old(tree_view)),
{
    create_default_column(tree_view, ColumnsIncludedDirectory::Path.idx(), Some(None), None);
    create_default_selection_button_column(
        tree_view,
        ColumnsIncludedDirectory::ReferenceButton.idx(),
        None,
    );
}

/// Gives the excluded-directories view its single path column, sorted by
/// itself, and hides the header row.
pub fn create_tree_view_excluded_directories(tree_view: &mut TreeView)
    ensures
        !final(tree_view).headers_visible,
        final(tree_view).columns@ == old(tree_view).columns@.push(
            spec_text_column(
                ColumnsExcludedDirectory::Path.spec_idx(),
                ColumnSort::DefaultSort,
                None,
            ),
        ),
        final(tree_view).model == old(tree_view).model,
        final(tree_view).vexpand == old(tree_view).vexpand,
        final(tree_view).selection_mode_multiple == old(tree_view).selection_mode_multiple,
        final(tree_view).select_function_header == old(tree_view).select_function_header,
        final(tree_view).widget_name == old(tree_view).widget_name,
{
    tree_view.headers_visible = false;
    create_default_column(tree_view, ColumnsExcludedDirectory::Path.idx(), Some(None), None);
}

} // verus!
