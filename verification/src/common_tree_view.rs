//! The tree views shared by the scan-result tabs.
//!
//! `TreeView` here is the model of one such view: the store behind it and
//! the widget columns laid over that store. Widget columns come in two
//! shapes, a fixed-width toggle column for the per-row selection button
//! and resizable text columns, and are appended by the same two helpers
//! the whole window uses.

use vstd::prelude::*;

verus! {

use vstd::pervasive::unreached;
use crate::help_functions::{
    ColumnsBadExtensions, ColumnsBigFiles, ColumnsBrokenFiles, ColumnsDuplicates,
    ColumnsEmptyFiles, ColumnsEmptyFolders, ColumnsInvalidSymlinks, ColumnsSameMusic,
    ColumnsSimilarImages, ColumnsSimilarVideos, ColumnsTemporaryFiles,
};
use crate::list_store::{CellValue, ColumnType, ListStore};
use crate::notebook_enums::NotebookMainEnum;
use crate::notebook_info::{notebook_object, spec_column_header, spec_columns_types, NotebookObject};

/// Which renderer draws a widget column's cells.
#[derive(Clone, Copy, Debug, PartialEq, Eq, Structural)]
pub enum CellRendererKind {
    Text,
    Toggle,
}

/// How a widget column sorts: not at all, by its own model column, or by
/// another model column.
#[derive(Clone, Copy, Debug, PartialEq, Eq)]
pub enum ColumnSort {
    NoSort,
    DefaultSort,
    CustomSort(i32),
}

/// One widget column: its renderer, sizing, sort key, and which model
/// columns feed the renderer's properties.
#[derive(Clone, Copy, Debug, PartialEq, Eq)]
pub struct TreeViewColumn {
    pub renderer: CellRendererKind,
    pub resizable: bool,
    pub fixed_width: Option<i32>,
    pub min_width: Option<i32>,
    pub sort_column_id: Option<i32>,
    /// Feeds the renderer's content: its toggle state or its text.
    pub content_column: i32,
    pub activatable_column: Option<i32>,
    pub cell_background_column: Option<i32>,
    pub background_column: Option<i32>,
    pub foreground_column: Option<i32>,
}

/// The model of one tree view.
pub struct TreeView {
    pub model: Option<ListStore>,
    pub columns: Vec<TreeViewColumn>,
    pub headers_visible: bool,
    pub vexpand: bool,
    pub selection_mode_multiple: bool,
    /// When set, selection consults the boolean in this model column.
    pub select_function_header: Option<i32>,
    pub widget_name: String,
}

/// A tree view with a store behind it.
pub trait TreeViewListStoreTrait {
    spec fn has_list_store(&self) -> bool;

    spec fn spec_model(&self) -> ListStore;

    fn get_model(&self) -> (m: &ListStore)
        requires
            self.has_list_store(),
        ensures
            *m == self.spec_model(),
    ;
}

impl TreeViewListStoreTrait for TreeView {
    open spec fn has_list_store(&self) -> bool {
        self.model is Some
    }

    open spec fn spec_model(&self) -> ListStore {
        self.model->0
    }

    fn get_model(&self) -> (m: &ListStore) {
        match &self.model {
            Some(m) => m,
            None => unreached(),
        }
    }
}

impl TreeView {
    /// A fresh view: no store, no columns, the toolkit's defaults.
    pub fn new() -> (t: TreeView)
        ensures
            t.model is None,
            t.columns@.len() == 0,
            t.headers_visible,
            !t.vexpand,
            !t.selection_mode_multiple,
            t.select_function_header is None,
            t.widget_name@.len() == 0,
    {
        proof {
            reveal_strlit("");
        }
        TreeView {
            model: None,
            columns: Vec::new(),
            headers_visible: true,
            vexpand: false,
            selection_mode_multiple: false,
            select_function_header: None,
            widget_name: String::from_str(""),
        }
    }
}

/// The fields a column helper leaves alone.
pub open spec fn unchanged_but_columns(new: TreeView, prev: TreeView) -> bool {
    &&& new.model == prev.model
    &&& new.headers_visible == prev.headers_visible
    &&& new.vexpand == prev.vexpand
    &&& new.selection_mode_multiple == prev.selection_mode_multiple
    &&& new.select_function_header == prev.select_function_header
    &&& new.widget_name == prev.widget_name
}

/// The selection-button column over the given model column: a fixed-width
/// toggle, optionally made clickable and tinted by two further columns.
pub open spec fn spec_selection_button_column(
    column_id: i32,
    activatable_color_columns: Option<(i32, i32)>,
) -> TreeViewColumn {
    TreeViewColumn {
        renderer: CellRendererKind::Toggle,
        resizable: false,
        fixed_width: Some(30),
        min_width: None,
        sort_column_id: None,
        content_column: column_id,
        activatable_column: match activatable_color_columns {
            Some(ac) => Some(ac.0),
            None => None,
        },
        cell_background_column: match activatable_color_columns {
            Some(ac) => Some(ac.1),
            None => None,
        },
        background_column: None,
        foreground_column: None,
    }
}

/// A text column over the given model column, with its sort key and,
/// optionally, background and foreground colour columns.
pub open spec fn spec_text_column(
    column_id: i32,
    sort_method: ColumnSort,
    colors_columns_id: Option<(i32, i32)>,
) -> TreeViewColumn {
    TreeViewColumn {
        renderer: CellRendererKind::Text,
        resizable: true,
        fixed_width: None,
        min_width: Some(50),
        sort_column_id: match sort_method {
            ColumnSort::NoSort => None,
            ColumnSort::DefaultSort => Some(column_id),
            ColumnSort::CustomSort(v) => Some(v),
        },
        content_column: column_id,
        activatable_column: None,
        cell_background_column: None,
        background_column: match colors_columns_id {
            Some(cc) => Some(cc.0),
            None => None,
        },
        foreground_column: match colors_columns_id {
            Some(cc) => Some(cc.1),
            None => None,
        },
    }
}

/// The text columns for a whole list of `(model column, sort)` pairs.
pub open spec fn spec_text_columns(
    columns: Seq<(i32, ColumnSort)>,
    colors_columns_id: Option<(i32, i32)>,
) -> Seq<TreeViewColumn> {
    Seq::new(columns.len(), |i: int| spec_text_column(columns[i].0, columns[i].1, colors_columns_id))
}

/// Appends the selection-button column and returns it.
pub fn create_default_selection_button_column(
    tree_view: &mut TreeView,
    column_id: i32,
    activatable_color_columns: Option<(i32, i32)>,
) -> (c: TreeViewColumn)
    ensures
        c == spec_selection_button_column(column_id, activatable_color_columns),
        final(tree_view).columns@ == old(tree_view).columns@.push(c),
        unchanged_but_columns(*final(tree_view), *old(tree_view)),
{
    let column = TreeViewColumn {
        renderer: CellRendererKind::Toggle,
        resizable: false,
        fixed_width: Some(30),
        min_width: None,
        sort_column_id: None,
        content_column: column_id,
        activatable_column: match activatable_color_columns {
            Some(ac) => Some(ac.0),
            None => None,
        },
        cell_background_column: match activatable_color_columns {
            Some(ac) => Some(ac.1),
            None => None,
        },
        background_column: None,
        foreground_column: None,
    };
    tree_view.columns.push(column);
    column
}

/// Appends one text column. The sort argument reads: `None` for no sort,
/// `Some(None)` to sort by the column itself, `Some(Some(c))` to sort by
/// model column `c`.
pub fn create_default_column(
    tree_view: &mut TreeView,
    column_id: i32,
    sort_column: Option<Option<i32>>,
    colors_columns_id: Option<(i32, i32)>,
) -> (c: TreeViewColumn)
    ensures
        c == spec_text_column(column_id, spec_sort_of(sort_column), colors_columns_id),
        final(tree_view).columns@ == old(tree_view).columns@.push(c),
        unchanged_but_columns(*final(tree_view), *old(tree_view)),
{
    let sort_method = match sort_column {
        None => ColumnSort::NoSort,
        Some(None) => ColumnSort::DefaultSort,
        Some(Some(v)) => ColumnSort::CustomSort(v),
    };
    push_text_column(tree_view, column_id, sort_method, colors_columns_id)
}

/// The `ColumnSort` meant by a nested sort option.
pub open spec fn spec_sort_of(sort_column: Option<Option<i32>>) -> ColumnSort {
    match sort_column {
        None => ColumnSort::NoSort,
        Some(None) => ColumnSort::DefaultSort,
        Some(Some(v)) => ColumnSort::CustomSort(v),
    }
}

fn push_text_column(
    tree_view: &mut TreeView,
    column_id: i32,
    sort_method: ColumnSort,
    colors_columns_id: Option<(i32, i32)>,
) -> (c: TreeViewColumn)
    ensures
        c == spec_text_column(column_id, sort_method, colors_columns_id),
        final(tree_view).columns@ == old(tree_view).columns@.push(c),
        unchanged_but_columns(*final(tree_view), *old(tree_view)),
{
    let column = TreeViewColumn {
        renderer: CellRendererKind::Text,
        resizable: true,
        fixed_width: None,
        min_width: Some(50),
        sort_column_id: match sort_method {
            ColumnSort::NoSort => None,
            ColumnSort::DefaultSort => Some(column_id),
            ColumnSort::CustomSort(v) => Some(v),
        },
        content_column: column_id,
        activatable_column: None,
        cell_background_column: None,
        background_column: match colors_columns_id {
            Some(cc) => Some(cc.0),
            None => None,
        },
        foreground_column: match colors_columns_id {
            Some(cc) => Some(cc.1),
            None => None,
        },
    };
    tree_view.columns.push(column);
    column
}

/// Appends one text column per `(model column, sort)` pair, all sharing
/// the same optional colour columns.
pub fn create_default_columns(
    tree_view: &mut TreeView,
    columns: &Vec<(i32, ColumnSort)>,
    colors_columns_id: Option<(i32, i32)>,
)
    ensures
        final(tree_view).columns@ == old(tree_view).columns@ + spec_text_columns(
            columns@,
            colors_columns_id,
        ),
        unchanged_but_columns(*final(tree_view), *old(tree_view)),
{
    let mut i: usize = 0;
    while i < columns.len()
        invariant
            i <= columns@.len(),
            tree_view.columns@ == old(tree_view).columns@ + spec_text_columns(
                columns@.subrange(0, i as int),
                colors_columns_id,
            ),
            unchanged_but_columns(*tree_view, *old(tree_view)),
        decreases columns@.len() - i,
    {
        let (col_id, sort_method) = columns[i];
        push_text_column(tree_view, col_id, sort_method, colors_columns_id);
        proof {
            assert(spec_text_columns(columns@.subrange(0, i + 1 as int), colors_columns_id)
                =~= spec_text_columns(columns@.subrange(0, i as int), colors_columns_id).push(
                spec_text_column(columns@[i as int].0, columns@[i as int].1, colors_columns_id),
            ));
        }
        i = i + 1;
    }
    proof {
        assert(columns@.subrange(0, columns@.len() as int) =~= columns@);
    }
}

/// What a click on the selection button of one row does: the boolean in
/// that row's toggle column is flipped, and nothing else changes.
pub fn toggle_selection_button(model: &mut ListStore, row: usize, column_id: i32)
    requires
        old(model).wf(),
        row < old(model).rows@.len(),
        0 <= column_id < old(model).types@.len(),
        old(model).types@[column_id as int] is Bool,
    ensures
        final(model).wf(),
        final(model).types@ == old(model).types@,
        final(model).rows@.len() == old(model).rows@.len(),
        forall|r: int|
            0 <= r < old(model).rows@.len() && r != row ==> final(model).rows@[r] == old(
                model,
            ).rows@[r],
        final(model).rows@[row as int]@ == old(model).rows@[row as int]@.update(
            column_id as int,
            CellValue::Bool(!old(model).rows@[row as int]@[column_id as int].spec_bool()),
        ),
{
    let mut fixed = model.get_bool(row, column_id);
    fixed = !fixed;
    model.set_value(row, column_id as u32, CellValue::Bool(fixed));
}


/// The widget columns a category's view is given, in order: its
/// selection-button column, then its text columns.
pub open spec fn spec_planned_columns(e: NotebookMainEnum) -> Seq<TreeViewColumn> {
    match e {
        NotebookMainEnum::Duplicate => seq![
            spec_selection_button_column(
                ColumnsDuplicates::SelectionButton.spec_idx(),
                Some((
                    ColumnsDuplicates::ActivatableSelectButton.spec_idx(),
                    ColumnsDuplicates::Color.spec_idx(),
                )),
            ),
        ] + spec_text_columns(
            seq![
                (ColumnsDuplicates::Size.spec_idx(), ColumnSort::DefaultSort),
                (ColumnsDuplicates::Name.spec_idx(), ColumnSort::DefaultSort),
                (ColumnsDuplicates::Path.spec_idx(), ColumnSort::DefaultSort),
                (ColumnsDuplicates::Modification.spec_idx(), ColumnSort::DefaultSort),
            ],
            Some((ColumnsDuplicates::Color.spec_idx(), ColumnsDuplicates::TextColor.spec_idx())),
        ),
        NotebookMainEnum::EmptyDirectories => seq![
            spec_selection_button_column(ColumnsEmptyFolders::SelectionButton.spec_idx(), None),
        ] + spec_text_columns(
            seq![
                (ColumnsEmptyFolders::Name.spec_idx(), ColumnSort::DefaultSort),
                (ColumnsEmptyFolders::Path.spec_idx(), ColumnSort::DefaultSort),
                (
                    ColumnsEmptyFolders::Modification.spec_idx(),
                    ColumnSort::CustomSort(ColumnsEmptyFolders::ModificationAsSecs.spec_idx()),
                ),
            ],
            None,
        ),
        NotebookMainEnum::BigFiles => seq![
            spec_selection_button_column(ColumnsBigFiles::SelectionButton.spec_idx(), None),
        ] + spec_text_columns(
            seq![
                (ColumnsBigFiles::Size.spec_idx(), ColumnSort::DefaultSort),
                (ColumnsBigFiles::Name.spec_idx(), ColumnSort::DefaultSort),
                (ColumnsBigFiles::Path.spec_idx(), ColumnSort::DefaultSort),
                (
                    ColumnsBigFiles::Modification.spec_idx(),
                    ColumnSort::CustomSort(ColumnsBigFiles::ModificationAsSecs.spec_idx()),
                ),
            ],
            None,
        ),
        NotebookMainEnum::EmptyFiles => seq![
            spec_selection_button_column(ColumnsEmptyFiles::SelectionButton.spec_idx(), None),
        ] + spec_text_columns(
            seq![
                (ColumnsEmptyFiles::Name.spec_idx(), ColumnSort::DefaultSort),
                (ColumnsEmptyFiles::Path.spec_idx(), ColumnSort::DefaultSort),
                (
                    ColumnsEmptyFiles::Modification.spec_idx(),
                    ColumnSort::CustomSort(ColumnsEmptyFiles::ModificationAsSecs.spec_idx()),
                ),
            ],
            None,
        ),
        NotebookMainEnum::Temporary => seq![
            spec_selection_button_column(ColumnsTemporaryFiles::SelectionButton.spec_idx(), None),
        ] + spec_text_columns(
            seq![
                (ColumnsTemporaryFiles::Name.spec_idx(), ColumnSort::DefaultSort),
                (ColumnsTemporaryFiles::Path.spec_idx(), ColumnSort::DefaultSort),
                (
                    ColumnsTemporaryFiles::Modification.spec_idx(),
                    ColumnSort::CustomSort(ColumnsTemporaryFiles::ModificationAsSecs.spec_idx()),
                ),
            ],
            None,
        ),
        NotebookMainEnum::SimilarImages => seq![
            spec_selection_button_column(
                ColumnsSimilarImages::SelectionButton.spec_idx(),
                Some((
                    ColumnsSimilarImages::ActivatableSelectButton.spec_idx(),
                    ColumnsSimilarImages::Color.spec_idx(),
                )),
            ),
        ] + spec_text_columns(
            seq![
                (ColumnsSimilarImages::Similarity.spec_idx(), ColumnSort::DefaultSort),
                (ColumnsSimilarImages::Size.spec_idx(), ColumnSort::DefaultSort),
                (ColumnsSimilarImages::Dimensions.spec_idx(), ColumnSort::DefaultSort),
                (ColumnsSimilarImages::Name.spec_idx(), ColumnSort::DefaultSort),
                (ColumnsSimilarImages::Path.spec_idx(), ColumnSort::DefaultSort),
                (ColumnsSimilarImages::Modification.spec_idx(), ColumnSort::DefaultSort),
            ],
            Some((
                ColumnsSimilarImages::Color.spec_idx(),
                ColumnsSimilarImages::TextColor.spec_idx(),
            )),
        ),
        NotebookMainEnum::SimilarVideos => seq![
            spec_selection_button_column(
                ColumnsSimilarVideos::SelectionButton.spec_idx(),
                Some((
                    ColumnsSimilarVideos::ActivatableSelectButton.spec_idx(),
                    ColumnsSimilarVideos::Color.spec_idx(),
                )),
            ),
        ] + spec_text_columns(
            seq![
                (ColumnsSimilarVideos::Size.spec_idx(), ColumnSort::DefaultSort),
                (ColumnsSimilarVideos::Name.spec_idx(), ColumnSort::DefaultSort),
                (ColumnsSimilarVideos::Path.spec_idx(), ColumnSort::DefaultSort),
                (ColumnsSimilarVideos::Modification.spec_idx(), ColumnSort::DefaultSort),
            ],
            Some((
                ColumnsSimilarVideos::Color.spec_idx(),
                ColumnsSimilarVideos::TextColor.spec_idx(),
            )),
        ),
        NotebookMainEnum::SameMusic => seq![
            spec_selection_button_column(
                ColumnsSameMusic::SelectionButton.spec_idx(),
                Some((
                    ColumnsSameMusic::ActivatableSelectButton.spec_idx(),
                    ColumnsSameMusic::Color.spec_idx(),
                )),
            ),
        ] + spec_text_columns(
            seq![
                (ColumnsSameMusic::Size.spec_idx(), ColumnSort::DefaultSort),
                (ColumnsSameMusic::Name.spec_idx(), ColumnSort::DefaultSort),
                (ColumnsSameMusic::Title.spec_idx(), ColumnSort::DefaultSort),
                (ColumnsSameMusic::Artist.spec_idx(), ColumnSort::DefaultSort),
                (ColumnsSameMusic::Year.spec_idx(), ColumnSort::DefaultSort),
                (ColumnsSameMusic::Bitrate.spec_idx(), ColumnSort::DefaultSort),
                (ColumnsSameMusic::Length.spec_idx(), ColumnSort::DefaultSort),
                (ColumnsSameMusic::Genre.spec_idx(), ColumnSort::DefaultSort),
                (ColumnsSameMusic::Path.spec_idx(), ColumnSort::DefaultSort),
                (ColumnsSameMusic::Modification.spec_idx(), ColumnSort::DefaultSort),
            ],
            Some((ColumnsSameMusic::Color.spec_idx(), ColumnsSameMusic::TextColor.spec_idx())),
        ),
        NotebookMainEnum::Symlinks => seq![
            spec_selection_button_column(ColumnsInvalidSymlinks::SelectionButton.spec_idx(), None),
        ] + spec_text_columns(
            seq![
                (ColumnsInvalidSymlinks::Name.spec_idx(), ColumnSort::DefaultSort),
                (ColumnsInvalidSymlinks::Path.spec_idx(), ColumnSort::DefaultSort),
                (ColumnsInvalidSymlinks::DestinationPath.spec_idx(), ColumnSort::DefaultSort),
                (ColumnsInvalidSymlinks::TypeOfError.spec_idx(), ColumnSort::DefaultSort),
                (
                    ColumnsInvalidSymlinks::Modification.spec_idx(),
                    ColumnSort::CustomSort(ColumnsInvalidSymlinks::ModificationAsSecs.spec_idx()),
                ),
            ],
            None,
        ),
        NotebookMainEnum::BrokenFiles => seq![
            spec_selection_button_column(ColumnsBrokenFiles::SelectionButton.spec_idx(), None),
        ] + spec_text_columns(
            seq![
                (ColumnsBrokenFiles::Name.spec_idx(), ColumnSort::DefaultSort),
                (ColumnsBrokenFiles::Path.spec_idx(), ColumnSort::DefaultSort),
                (ColumnsBrokenFiles::ErrorType.spec_idx(), ColumnSort::DefaultSort),
                (
                    ColumnsBrokenFiles::Modification.spec_idx(),
                    ColumnSort::CustomSort(ColumnsBrokenFiles::ModificationAsSecs.spec_idx()),
                ),
            ],
            None,
        ),
        NotebookMainEnum::BadExtensions => seq![
            spec_selection_button_column(ColumnsBadExtensions::SelectionButton.spec_idx(), None),
        ] + spec_text_columns(
            seq![
                (ColumnsBadExtensions::Name.spec_idx(), ColumnSort::DefaultSort),
                (ColumnsBadExtensions::Path.spec_idx(), ColumnSort::DefaultSort),
                (ColumnsBadExtensions::CurrentExtension.spec_idx(), ColumnSort::DefaultSort),
                (ColumnsBadExtensions::ValidExtensions.spec_idx(), ColumnSort::DefaultSort),
            ],
            None,
        ),
    }
}

/// One notebook tab's view and what it was built from.
pub struct SubView {
    pub tree_view: TreeView,
    pub notebook_object: NotebookObject,
    pub enum_value: NotebookMainEnum,
    /// The name of the preview widget shown beside the view, if it has one.
    pub image_preview: Option<String>,
    /// The header-flag column the selection handler consults, if any.
    pub start_select_function: Option<i32>,
    pub tree_view_name: String,
}

/// The fields `_setup_tree_view_config` leaves alone.
pub open spec fn subview_fields_unchanged(new: SubView, prev: SubView) -> bool {
    &&& new.notebook_object == prev.notebook_object
    &&& new.enum_value == prev.enum_value
    &&& new.image_preview == prev.image_preview
    &&& new.start_select_function == prev.start_select_function
    &&& new.tree_view_name == prev.tree_view_name
}

/// What `SubView::setup` makes of a subview: a fresh, empty store of the
/// category's column types, the category's widget columns appended, and
/// the view's selection and naming put in place.
pub open spec fn spec_subview_set_up(new: SubView, prev: SubView) -> bool {
    &&& subview_fields_unchanged(new, prev)
    &&& new.tree_view.model matches Some(m) && {
        &&& m.types@ == prev.notebook_object.columns_types@
        &&& m.rows@.len() == 0
        &&& m.wf()
    }
    &&& new.tree_view.columns@ == prev.tree_view.columns@ + spec_planned_columns(prev.enum_value)
    &&& new.tree_view.selection_mode_multiple
    &&& new.tree_view.select_function_header == prev.start_select_function
    &&& new.tree_view.vexpand
    &&& new.tree_view.headers_visible == prev.tree_view.headers_visible
    &&& new.tree_view.widget_name@ == prev.tree_view_name@
}

impl SubView {
    /// A tab's view before setup: a fresh tree view, the category's tab
    /// description, and the selection rule the description asks for.
    pub fn new(
        enum_value: NotebookMainEnum,
        preview_str: Option<String>,
        tree_view_name: &str,
    ) -> (s: SubView)
        ensures
            s.enum_value == enum_value,
            s.notebook_object.notebook_enum == enum_value,
            s.notebook_object.column_header == spec_column_header(enum_value),
            s.notebook_object.columns_types@ == spec_columns_types(enum_value),
            s.image_preview == preview_str,
            s.start_select_function == spec_column_header(enum_value),
            s.tree_view_name@ == tree_view_name@,
            s.tree_view.model is None,
            s.tree_view.columns@.len() == 0,
            s.tree_view.headers_visible,
    {
        let tree_view = TreeView::new();
        let notebook_object = notebook_object(enum_value);
        let start_select_function = notebook_object.column_header;
        SubView {
            tree_view,
            notebook_object,
            enum_value,
            image_preview: preview_str,
            start_select_function,
            tree_view_name: String::from_str(tree_view_name),
        }
    }

    /// Builds the tab's view: a fresh store of the category's column
    /// types, multiple selection with the category's selection rule, and
    /// the category's widget columns.
    pub fn setup(&mut self)
        ensures
            spec_subview_set_up(*final(self), *old(self)),
    {
        self.tree_view.model = Some(ListStore::new(&self.notebook_object.columns_types));
        self.tree_view.selection_mode_multiple = true;
        self.tree_view.select_function_header = self.start_select_function;
        self.tree_view.vexpand = true;
        self._setup_tree_view_config();
        self.tree_view.widget_name = self.tree_view_name.clone();
    }

    /// Appends the widget columns of this subview's category.
    fn _setup_tree_view_config(&mut self)
        ensures
            subview_fields_unchanged(*final(self), *old(self)),
            final(self).tree_view.columns@ == old(self).tree_view.columns@
                + spec_planned_columns(old(self).enum_value),
            unchanged_but_columns(final(self).tree_view, old(self).tree_view),
    {
        let tree_view = &mut self.tree_view;
        match self.enum_value {
            NotebookMainEnum::Duplicate => {
                let columns_colors = (
                    ColumnsDuplicates::Color.idx(),
                    ColumnsDuplicates::TextColor.idx(),
                );
                let activatable_colors = (
                    ColumnsDuplicates::ActivatableSelectButton.idx(),
                    ColumnsDuplicates::Color.idx(),
                );
                create_default_selection_button_column(
                    tree_view,
                    ColumnsDuplicates::SelectionButton.idx(),
                    Some(activatable_colors),
                );
                let mut columns: Vec<(i32, ColumnSort)> = Vec::new();
                columns.push((ColumnsDuplicates::Size.idx(), ColumnSort::DefaultSort));
                columns.push((ColumnsDuplicates::Name.idx(), ColumnSort::DefaultSort));
                columns.push((ColumnsDuplicates::Path.idx(), ColumnSort::DefaultSort));
                columns.push((ColumnsDuplicates::Modification.idx(), ColumnSort::DefaultSort));
                create_default_columns(tree_view, &columns, Some(columns_colors));
                proof {
                    assert(self.tree_view.columns@ =~= old(self).tree_view.columns@
                        + spec_planned_columns(old(self).enum_value));
                }
            },
            NotebookMainEnum::EmptyDirectories => {
                create_default_selection_button_column(
                    tree_view,
                    ColumnsEmptyFolders::SelectionButton.idx(),
                    None,
                );
                let mut columns: Vec<(i32, ColumnSort)> = Vec::new();
                columns.push((ColumnsEmptyFolders::Name.idx(), ColumnSort::DefaultSort));
                columns.push((ColumnsEmptyFolders::Path.idx(), ColumnSort::DefaultSort));
                columns.push((
                    ColumnsEmptyFolders::Modification.idx(),
                    ColumnSort::CustomSort(ColumnsEmptyFolders::ModificationAsSecs.idx()),
                ));
                create_default_columns(tree_view, &columns, None);
                proof {
                    assert(self.tree_view.columns@ =~= old(self).tree_view.columns@
                        + spec_planned_columns(old(self).enum_value));
                }
            },
            NotebookMainEnum::BigFiles => {
                create_default_selection_button_column(
                    tree_view,
                    ColumnsBigFiles::SelectionButton.idx(),
                    None,
                );
                let mut columns: Vec<(i32, ColumnSort)> = Vec::new();
                columns.push((ColumnsBigFiles::Size.idx(), ColumnSort::DefaultSort));
                columns.push((ColumnsBigFiles::Name.idx(), ColumnSort::DefaultSort));
                columns.push((ColumnsBigFiles::Path.idx(), ColumnSort::DefaultSort));
                columns.push((
                    ColumnsBigFiles::Modification.idx(),
                    ColumnSort::CustomSort(ColumnsBigFiles::ModificationAsSecs.idx()),
                ));
                create_default_columns(tree_view, &columns, None);
                proof {
                    assert(self.tree_view.columns@ =~= old(self).tree_view.columns@
                        + spec_planned_columns(old(self).enum_value));
                }
            },
            NotebookMainEnum::EmptyFiles => {
                create_default_selection_button_column(
                    tree_view,
                    ColumnsEmptyFiles::SelectionButton.idx(),
                    None,
                );
                let mut columns: Vec<(i32, ColumnSort)> = Vec::new();
                columns.push((ColumnsEmptyFiles::Name.idx(), ColumnSort::DefaultSort));
                columns.push((ColumnsEmptyFiles::Path.idx(), ColumnSort::DefaultSort));
                columns.push((
                    ColumnsEmptyFiles::Modification.idx(),
                    ColumnSort::CustomSort(ColumnsEmptyFiles::ModificationAsSecs.idx()),
                ));
                create_default_columns(tree_view, &columns, None);
                proof {
                    assert(self.tree_view.columns@ =~= old(self).tree_view.columns@
                        + spec_planned_columns(old(self).enum_value));
                }
            },
            NotebookMainEnum::Temporary => {
                create_default_selection_button_column(
                    tree_view,
                    ColumnsTemporaryFiles::SelectionButton.idx(),
                    None,
                );
                let mut columns: Vec<(i32, ColumnSort)> = Vec::new();
                columns.push((ColumnsTemporaryFiles::Name.idx(), ColumnSort::DefaultSort));
                columns.push((ColumnsTemporaryFiles::Path.idx(), ColumnSort::DefaultSort));
                columns.push((
                    ColumnsTemporaryFiles::Modification.idx(),
                    ColumnSort::CustomSort(ColumnsTemporaryFiles::ModificationAsSecs.idx()),
                ));
                create_default_columns(tree_view, &columns, None);
                proof {
                    assert(self.tree_view.columns@ =~= old(self).tree_view.columns@
                        + spec_planned_columns(old(self).enum_value));
                }
            },
            NotebookMainEnum::SimilarImages => {
                let columns_colors = (
                    ColumnsSimilarImages::Color.idx(),
                    ColumnsSimilarImages::TextColor.idx(),
                );
                let activatable_colors = (
                    ColumnsSimilarImages::ActivatableSelectButton.idx(),
                    ColumnsSimilarImages::Color.idx(),
                );
                create_default_selection_button_column(
                    tree_view,
                    ColumnsSimilarImages::SelectionButton.idx(),
                    Some(activatable_colors),
                );
                let mut columns: Vec<(i32, ColumnSort)> = Vec::new();
                columns.push((ColumnsSimilarImages::Similarity.idx(), ColumnSort::DefaultSort));
                columns.push((ColumnsSimilarImages::Size.idx(), ColumnSort::DefaultSort));
                columns.push((ColumnsSimilarImages::Dimensions.idx(), ColumnSort::DefaultSort));
                columns.push((ColumnsSimilarImages::Name.idx(), ColumnSort::DefaultSort));
                columns.push((ColumnsSimilarImages::Path.idx(), ColumnSort::DefaultSort));
                columns.push((ColumnsSimilarImages::Modification.idx(), ColumnSort::DefaultSort));
                create_default_columns(tree_view, &columns, Some(columns_colors));
                proof {
                    assert(self.tree_view.columns@ =~= old(self).tree_view.columns@
                        + spec_planned_columns(old(self).enum_value));
                }
            },
            NotebookMainEnum::SimilarVideos => {
                let columns_colors = (
                    ColumnsSimilarVideos::Color.idx(),
                    ColumnsSimilarVideos::TextColor.idx(),
                );
                let activatable_colors = (
                    ColumnsSimilarVideos::ActivatableSelectButton.idx(),
                    ColumnsSimilarVideos::Color.idx(),
                );
                create_default_selection_button_column(
                    tree_view,
                    ColumnsSimilarVideos::SelectionButton.idx(),
                    Some(activatable_colors),
                );
                let mut columns: Vec<(i32, ColumnSort)> = Vec::new();
                columns.push((ColumnsSimilarVideos::Size.idx(), ColumnSort::DefaultSort));
                columns.push((ColumnsSimilarVideos::Name.idx(), ColumnSort::DefaultSort));
                columns.push((ColumnsSimilarVideos::Path.idx(), ColumnSort::DefaultSort));
                columns.push((ColumnsSimilarVideos::Modification.idx(), ColumnSort::DefaultSort));
                create_default_columns(tree_view, &columns, Some(columns_colors));
                proof {
                    assert(self.tree_view.columns@ =~= old(self).tree_view.columns@
                        + spec_planned_columns(old(self).enum_value));
                }
            },
            NotebookMainEnum::SameMusic => {
                let columns_colors = (
                    ColumnsSameMusic::Color.idx(),
                    ColumnsSameMusic::TextColor.idx(),
                );
                let activatable_colors = (
                    ColumnsSameMusic::ActivatableSelectButton.idx(),
                    ColumnsSameMusic::Color.idx(),
                );
                create_default_selection_button_column(
                    tree_view,
                    ColumnsSameMusic::SelectionButton.idx(),
                    Some(activatable_colors),
                );
                let mut columns: Vec<(i32, ColumnSort)> = Vec::new();
                columns.push((ColumnsSameMusic::Size.idx(), ColumnSort::DefaultSort));
                columns.push((ColumnsSameMusic::Name.idx(), ColumnSort::DefaultSort));
                columns.push((ColumnsSameMusic::Title.idx(), ColumnSort::DefaultSort));
                columns.push((ColumnsSameMusic::Artist.idx(), ColumnSort::DefaultSort));
                columns.push((ColumnsSameMusic::Year.idx(), ColumnSort::DefaultSort));
                columns.push((ColumnsSameMusic::Bitrate.idx(), ColumnSort::DefaultSort));
                columns.push((ColumnsSameMusic::Length.idx(), ColumnSort::DefaultSort));
                columns.push((ColumnsSameMusic::Genre.idx(), ColumnSort::DefaultSort));
                columns.push((ColumnsSameMusic::Path.idx(), ColumnSort::DefaultSort));
                columns.push((ColumnsSameMusic::Modification.idx(), ColumnSort::DefaultSort));
                create_default_columns(tree_view, &columns, Some(columns_colors));
                proof {
                    assert(self.tree_view.columns@ =~= old(self).tree_view.columns@
                        + spec_planned_columns(old(self).enum_value));
                }
            },
            NotebookMainEnum::Symlinks => {
                create_default_selection_button_column(
                    tree_view,
                    ColumnsInvalidSymlinks::SelectionButton.idx(),
                    None,
                );
                let mut columns: Vec<(i32, ColumnSort)> = Vec::new();
                columns.push((ColumnsInvalidSymlinks::Name.idx(), ColumnSort::DefaultSort));
                columns.push((ColumnsInvalidSymlinks::Path.idx(), ColumnSort::DefaultSort));
                columns.push((ColumnsInvalidSymlinks::DestinationPath.idx(), ColumnSort::DefaultSort));
                columns.push((ColumnsInvalidSymlinks::TypeOfError.idx(), ColumnSort::DefaultSort));
                columns.push((
                    ColumnsInvalidSymlinks::Modification.idx(),
                    ColumnSort::CustomSort(ColumnsInvalidSymlinks::ModificationAsSecs.idx()),
                ));
                create_default_columns(tree_view, &columns, None);
                proof {
                    assert(self.tree_view.columns@ =~= old(self).tree_view.columns@
                        + spec_planned_columns(old(self).enum_value));
                }
            },
            NotebookMainEnum::BrokenFiles => {
                create_default_selection_button_column(
                    tree_view,
                    ColumnsBrokenFiles::SelectionButton.idx(),
                    None,
                );
                let mut columns: Vec<(i32, ColumnSort)> = Vec::new();
                columns.push((ColumnsBrokenFiles::Name.idx(), ColumnSort::DefaultSort));
                columns.push((ColumnsBrokenFiles::Path.idx(), ColumnSort::DefaultSort));
                columns.push((ColumnsBrokenFiles::ErrorType.idx(), ColumnSort::DefaultSort));
                columns.push((
                    ColumnsBrokenFiles::Modification.idx(),
                    ColumnSort::CustomSort(ColumnsBrokenFiles::ModificationAsSecs.idx()),
                ));
                create_default_columns(tree_view, &columns, None);
                proof {
                    assert(self.tree_view.columns@ =~= old(self).tree_view.columns@
                        + spec_planned_columns(old(self).enum_value));
                }
            },
            NotebookMainEnum::BadExtensions => {
                create_default_selection_button_column(
                    tree_view,
                    ColumnsBadExtensions::SelectionButton.idx(),
                    None,
                );
                let mut columns: Vec<(i32, ColumnSort)> = Vec::new();
                columns.push((ColumnsBadExtensions::Name.idx(), ColumnSort::DefaultSort));
                columns.push((ColumnsBadExtensions::Path.idx(), ColumnSort::DefaultSort));
                columns.push((ColumnsBadExtensions::CurrentExtension.idx(), ColumnSort::DefaultSort));
                columns.push((ColumnsBadExtensions::ValidExtensions.idx(), ColumnSort::DefaultSort));
                create_default_columns(tree_view, &columns, None);
                proof {
                    assert(self.tree_view.columns@ =~= old(self).tree_view.columns@
                        + spec_planned_columns(old(self).enum_value));
                }
            },
        }
    }
}

/// The page state of the main notebook: which tab is in front.
pub struct Notebook {
    pub current_page: Option<u32>,
}

/// All the tabs' views, beside the notebook that switches among them.
pub struct CommonTreeViews {
    pub subviews: Vec<SubView>,
    pub notebook_main: Notebook,
}

impl CommonTreeViews {
    /// The index of the tab in front.
    pub open spec fn spec_current_index(self) -> int {
        self.notebook_main.current_page->0 as int
    }

    /// A tab is in front and a subview exists for it.
    pub open spec fn has_current(self) -> bool {
        &&& self.notebook_main.current_page is Some
        &&& self.spec_current_index() < self.subviews@.len()
    }

    /// The subview of the tab in front.
    pub fn get_current(&self) -> (s: &SubView)
        requires
            self.has_current(),
        ensures
            *s == self.subviews@[self.spec_current_index()],
    {
        let nb_number = match self.notebook_main.current_page {
            Some(n) => n,
            None => unreached(),
        };
        &self.subviews[nb_number as usize]
    }

    /// The tree view of the tab in front.
    pub fn get_current_tree_view(&self) -> (t: &TreeView)
        requires
            self.has_current(),
        ensures
            *t == self.subviews@[self.spec_current_index()].tree_view,
    {
        &self.get_current().tree_view
    }

    /// The store behind the tab in front.
    pub fn get_current_model(&self) -> (m: &ListStore)
        requires
            self.has_current(),
            self.subviews@[self.spec_current_index()].tree_view.has_list_store(),
        ensures
            *m == self.subviews@[self.spec_current_index()].tree_view.spec_model(),
    {
        self.get_current_tree_view().get_model()
    }

    /// Builds every tab's view, in place and in order.
    pub fn setup(&mut self)
        ensures
            final(self).subviews@.len() == old(self).subviews@.len(),
            forall|j: int|
                0 <= j < old(self).subviews@.len() ==> spec_subview_set_up(
                    #[trigger] final(self).subviews@[j],
                    old(self).subviews@[j],
                ),
            final(self).notebook_main == old(self).notebook_main,
    {
        let mut prepared: Vec<SubView> = Vec::new();
        while self.subviews.len() > 0
            invariant
                prepared@.len() + self.subviews@.len() == old(self).subviews@.len(),
                forall|j: int|
                    0 <= j < self.subviews@.len() ==> (#[trigger] self.subviews@[j]) == old(
                        self,
                    ).subviews@[prepared@.len() + j],
                forall|j: int|
                    0 <= j < prepared@.len() ==> spec_subview_set_up(
                        #[trigger] prepared@[j],
                        old(self).subviews@[j],
                    ),
                self.notebook_main == old(self).notebook_main,
            decreases self.subviews@.len(),
        {
            let mut subview = self.subviews.remove(0);
            subview.setup();
            prepared.push(subview);
        }
        self.subviews = prepared;
    }
}

/// A widget column only reads model columns that a schema has, and of the
/// right types: its toggle state from a boolean column, its text and its
/// colour names from string columns, and its sort key from some column.
pub open spec fn column_fits_schema(c: TreeViewColumn, types: Seq<ColumnType>) -> bool {
    &&& 0 <= c.content_column < types.len()
    &&& (c.renderer is Toggle ==> types[c.content_column as int] is Bool)
    &&& (c.renderer is Text ==> types[c.content_column as int] is Str)
    &&& (c.sort_column_id matches Some(sc) ==> 0 <= sc < types.len())
    &&& (c.activatable_column matches Some(ac) ==> 0 <= ac < types.len() && types[
        ac as int
    ] is Bool)
    &&& (c.cell_background_column matches Some(cb) ==> 0 <= cb < types.len() && types[
        cb as int
    ] is Str)
    &&& (c.background_column matches Some(bg) ==> 0 <= bg < types.len() && types[
        bg as int
    ] is Str)
    &&& (c.foreground_column matches Some(fg) ==> 0 <= fg < types.len() && types[
        fg as int
    ] is Str)
}

/// Every widget column a category's view is given fits that category's
/// model schema.
pub proof fn planned_columns_fit_schema(e: NotebookMainEnum)
    ensures
        forall|i: int|
            0 <= i < spec_planned_columns(e).len() ==> column_fits_schema(
                #[trigger] spec_planned_columns(e)[i],
                spec_columns_types(e),
            ),
{
}

} // verus!
