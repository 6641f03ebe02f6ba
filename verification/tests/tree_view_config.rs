use czkawka_gui::common_tree_view::{
    create_default_column, create_default_columns, create_default_selection_button_column,
    CellRendererKind, ColumnSort, TreeView, TreeViewListStoreTrait,
};
use czkawka_gui::create_tree_view::{
    create_tree_view_excluded_directories, create_tree_view_included_directories,
};
use czkawka_gui::list_store::{ColumnType, ListStore};
use czkawka_gui::notebook_enums::NotebookMainEnum;
use czkawka_gui::notebook_info::{columns_types_of, notebook_object};

#[test]
fn fresh_tree_view_has_toolkit_defaults() {
    let tree_view = TreeView::new();
    assert!(tree_view.model.is_none());
    assert!(tree_view.columns.is_empty());
    assert!(tree_view.headers_visible);
    assert!(!tree_view.vexpand);
    assert!(!tree_view.selection_mode_multiple);
    assert!(tree_view.select_function_header.is_none());
    assert_eq!(tree_view.widget_name, "");
}

#[test]
fn selection_button_column_shape() {
    let mut tree_view = TreeView::new();
    let column = create_default_selection_button_column(&mut tree_view, 1, Some((0, 6)));
    assert_eq!(tree_view.columns.len(), 1);
    assert_eq!(tree_view.columns[0], column);
    assert_eq!(column.renderer, CellRendererKind::Toggle);
    assert!(!column.resizable);
    assert_eq!(column.fixed_width, Some(30));
    assert_eq!(column.min_width, None);
    assert_eq!(column.sort_column_id, None);
    assert_eq!(column.content_column, 1);
    assert_eq!(column.activatable_column, Some(0));
    assert_eq!(column.cell_background_column, Some(6));
    assert_eq!(column.background_column, None);
    assert_eq!(column.foreground_column, None);
}

#[test]
fn selection_button_column_without_colors() {
    let mut tree_view = TreeView::new();
    let column = create_default_selection_button_column(&mut tree_view, 0, None);
    assert_eq!(column.activatable_column, None);
    assert_eq!(column.cell_background_column, None);
}

#[test]
fn text_column_sort_variants() {
    let mut tree_view = TreeView::new();
    create_default_column(&mut tree_view, 2, None, None);
    create_default_column(&mut tree_view, 2, Some(None), None);
    create_default_column(&mut tree_view, 2, Some(Some(5)), None);
    assert_eq!(tree_view.columns[0].sort_column_id, None);
    assert_eq!(tree_view.columns[1].sort_column_id, Some(2));
    assert_eq!(tree_view.columns[2].sort_column_id, Some(5));
    for column in &tree_view.columns {
        assert_eq!(column.renderer, CellRendererKind::Text);
        assert!(column.resizable);
        assert_eq!(column.min_width, Some(50));
        assert_eq!(column.content_column, 2);
    }
}

#[test]
fn text_columns_share_colors() {
    let mut tree_view = TreeView::new();
    let pairs = vec![
        (2, ColumnSort::DefaultSort),
        (3, ColumnSort::NoSort),
        (5, ColumnSort::CustomSort(7)),
    ];
    create_default_columns(&mut tree_view, &pairs, Some((8, 9)));
    assert_eq!(tree_view.columns.len(), 3);
    assert_eq!(tree_view.columns[0].sort_column_id, Some(2));
    assert_eq!(tree_view.columns[1].sort_column_id, None);
    assert_eq!(tree_view.columns[2].sort_column_id, Some(7));
    for column in &tree_view.columns {
        assert_eq!(column.background_column, Some(8));
        assert_eq!(column.foreground_column, Some(9));
    }
}

#[test]
fn get_model_returns_the_store() {
    let mut tree_view = TreeView::new();
    let types = vec![ColumnType::Str];
    tree_view.model = Some(ListStore::new(&types));
    assert_eq!(tree_view.get_model().n_columns(), 1);
}

#[test]
fn included_directories_columns() {
    let mut tree_view = TreeView::new();
    let types = columns_types_of_included();
    tree_view.model = Some(ListStore::new(&types));
    create_tree_view_included_directories(&mut tree_view);
    assert_eq!(tree_view.columns.len(), 2);
    let path = &tree_view.columns[0];
    assert_eq!(path.renderer, CellRendererKind::Text);
    assert_eq!(path.content_column, 0);
    assert_eq!(path.sort_column_id, Some(0));
    let reference = &tree_view.columns[1];
    assert_eq!(reference.renderer, CellRendererKind::Toggle);
    assert_eq!(reference.content_column, 1);
    assert!(tree_view.headers_visible);
}

fn columns_types_of_included() -> Vec<ColumnType> {
    vec![ColumnType::Str, ColumnType::Bool]
}

#[test]
fn excluded_directories_hide_headers() {
    let mut tree_view = TreeView::new();
    create_tree_view_excluded_directories(&mut tree_view);
    assert!(!tree_view.headers_visible);
    assert_eq!(tree_view.columns.len(), 1);
    assert_eq!(tree_view.columns[0].renderer, CellRendererKind::Text);
    assert_eq!(tree_view.columns[0].content_column, 0);
    assert_eq!(tree_view.columns[0].sort_column_id, Some(0));
}

#[test]
fn notebook_objects_mark_grouped_categories() {
    assert_eq!(
        notebook_object(NotebookMainEnum::Duplicate).column_header,
        Some(7)
    );
    assert_eq!(
        notebook_object(NotebookMainEnum::SimilarImages).column_header,
        Some(9)
    );
    assert_eq!(
        notebook_object(NotebookMainEnum::SimilarVideos).column_header,
        Some(7)
    );
    assert_eq!(
        notebook_object(NotebookMainEnum::SameMusic).column_header,
        Some(13)
    );
    assert_eq!(notebook_object(NotebookMainEnum::BigFiles).column_header, None);
    assert_eq!(notebook_object(NotebookMainEnum::Symlinks).column_header, None);
}

#[test]
fn duplicate_schema_types() {
    let types = columns_types_of(NotebookMainEnum::Duplicate);
    assert_eq!(
        types,
        vec![
            ColumnType::Bool,
            ColumnType::Bool,
            ColumnType::Str,
            ColumnType::Str,
            ColumnType::Str,
            ColumnType::Str,
            ColumnType::Str,
            ColumnType::Bool,
            ColumnType::Str,
        ]
    );
}

#[test]
fn schema_sizes_per_category() {
    assert_eq!(columns_types_of(NotebookMainEnum::Duplicate).len(), 9);
    assert_eq!(columns_types_of(NotebookMainEnum::EmptyDirectories).len(), 5);
    assert_eq!(columns_types_of(NotebookMainEnum::BigFiles).len(), 6);
    assert_eq!(columns_types_of(NotebookMainEnum::EmptyFiles).len(), 5);
    assert_eq!(columns_types_of(NotebookMainEnum::Temporary).len(), 5);
    assert_eq!(columns_types_of(NotebookMainEnum::SimilarImages).len(), 11);
    assert_eq!(columns_types_of(NotebookMainEnum::SimilarVideos).len(), 9);
    assert_eq!(columns_types_of(NotebookMainEnum::SameMusic).len(), 15);
    assert_eq!(columns_types_of(NotebookMainEnum::Symlinks).len(), 7);
    assert_eq!(columns_types_of(NotebookMainEnum::BrokenFiles).len(), 6);
    assert_eq!(columns_types_of(NotebookMainEnum::BadExtensions).len(), 5);
}
