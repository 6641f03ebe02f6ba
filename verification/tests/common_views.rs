use czkawka_gui::common_tree_view::{
    CellRendererKind, CommonTreeViews, Notebook, SubView,
};
use czkawka_gui::help_functions::get_list_store;
use czkawka_gui::list_store::ColumnType;
use czkawka_gui::notebook_enums::{all_notebook_enums, NotebookMainEnum};

fn build_common_tree_views() -> CommonTreeViews {
    let mut subviews = Vec::new();
    for (i, enum_value) in all_notebook_enums().into_iter().enumerate() {
        subviews.push(SubView::new(
            enum_value,
            None,
            &format!("tree_view_{}", i),
        ));
    }
    CommonTreeViews {
        subviews,
        notebook_main: Notebook {
            current_page: Some(0),
        },
    }
}

#[test]
fn all_notebook_enums_are_in_page_order() {
    let all = all_notebook_enums();
    assert_eq!(all.len(), 11);
    assert_eq!(all[0], NotebookMainEnum::Duplicate);
    assert_eq!(all[10], NotebookMainEnum::BadExtensions);
    for (i, enum_value) in all.iter().enumerate() {
        assert_eq!(enum_value.idx(), i);
    }
}

#[test]
fn subview_new_records_the_category() {
    let subview = SubView::new(
        NotebookMainEnum::SameMusic,
        Some(String::from("image_preview_similar_images")),
        "tree_view_same_music_finder",
    );
    assert_eq!(subview.enum_value, NotebookMainEnum::SameMusic);
    assert_eq!(subview.start_select_function, Some(13));
    assert_eq!(
        subview.image_preview,
        Some(String::from("image_preview_similar_images"))
    );
    assert_eq!(subview.tree_view_name, "tree_view_same_music_finder");
    assert!(subview.tree_view.model.is_none());
    assert!(subview.tree_view.columns.is_empty());
}

#[test]
fn setup_builds_every_tab() {
    let mut views = build_common_tree_views();
    views.setup();
    assert_eq!(views.subviews.len(), 11);
    for subview in &views.subviews {
        let tree_view = &subview.tree_view;
        assert!(tree_view.selection_mode_multiple);
        assert!(tree_view.vexpand);
        assert_eq!(tree_view.select_function_header, subview.start_select_function);
        assert_eq!(tree_view.widget_name, subview.tree_view_name);
        let store = tree_view.model.as_ref().expect("setup installs a store");
        assert_eq!(store.len(), 0);
        assert_eq!(store.types, subview.notebook_object.columns_types);
        let first = &tree_view.columns[0];
        assert_eq!(first.renderer, CellRendererKind::Toggle);
    }
}

#[test]
fn setup_gives_duplicates_their_columns() {
    let mut views = build_common_tree_views();
    views.setup();
    let duplicates = &views.subviews[0];
    let columns = &duplicates.tree_view.columns;
    assert_eq!(columns.len(), 5);
    assert_eq!(columns[0].content_column, 1);
    assert_eq!(columns[0].activatable_column, Some(0));
    assert_eq!(columns[0].cell_background_column, Some(6));
    // Size, name, path, modification, each sorted by itself.
    for (i, content) in [(1usize, 2), (2, 3), (3, 4), (4, 5)] {
        assert_eq!(columns[i].renderer, CellRendererKind::Text);
        assert_eq!(columns[i].content_column, content);
        assert_eq!(columns[i].sort_column_id, Some(content));
        assert_eq!(columns[i].background_column, Some(6));
        assert_eq!(columns[i].foreground_column, Some(8));
    }
}

#[test]
fn setup_uses_custom_sort_for_modification_dates() {
    let mut views = build_common_tree_views();
    views.setup();
    let empty_directories = &views.subviews[1];
    let columns = &empty_directories.tree_view.columns;
    assert_eq!(columns.len(), 4);
    let modification = &columns[3];
    assert_eq!(modification.content_column, 3);
    assert_eq!(modification.sort_column_id, Some(4));
    assert_eq!(
        empty_directories.notebook_object.columns_types[4],
        ColumnType::U64
    );
}

#[test]
fn setup_column_counts_per_category() {
    let mut views = build_common_tree_views();
    views.setup();
    let expected = [5usize, 4, 5, 4, 4, 7, 5, 11, 6, 5, 5];
    for (subview, want) in views.subviews.iter().zip(expected) {
        assert_eq!(subview.tree_view.columns.len(), want);
    }
}

#[test]
fn get_current_follows_the_notebook_page() {
    let mut views = build_common_tree_views();
    views.setup();
    views.notebook_main.current_page = Some(3);
    assert_eq!(
        views.get_current().enum_value,
        NotebookMainEnum::EmptyFiles
    );
    assert_eq!(
        views.get_current_tree_view().widget_name,
        "tree_view_3"
    );
    let store = views.get_current_model();
    assert_eq!(store.n_columns(), 5);

    views.notebook_main.current_page = Some(7);
    assert_eq!(views.get_current().enum_value, NotebookMainEnum::SameMusic);
    assert_eq!(views.get_current_model().n_columns(), 15);
}

#[test]
fn get_list_store_reads_through_the_tree_view() {
    let mut views = build_common_tree_views();
    views.setup();
    let store = get_list_store(&views.subviews[2].tree_view);
    assert_eq!(store.n_columns(), 6);
}
