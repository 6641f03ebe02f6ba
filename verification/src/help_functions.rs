//! Column maps of the scan-result models.
//!
//! Each scan category keeps its results in a model whose columns are
//! addressed by index. One enum per category names those columns; `idx`
//! gives the index a column occupies in that category's model.

use vstd::prelude::*;

verus! {

use crate::common_tree_view::{TreeView, TreeViewListStoreTrait};
use crate::list_store::ListStore;

/// Columns of the duplicate-files model.
#[derive(Clone, Copy, Debug, PartialEq, Eq, Structural)]
pub enum ColumnsDuplicates {
    ActivatableSelectButton,
    SelectionButton,
    Size,
    Name,
    Path,
    Modification,
    Color,
    IsHeader,
    TextColor,
}

impl ColumnsDuplicates {
    pub open spec fn spec_idx(self) -> i32 {
        match self {
            ColumnsDuplicates::ActivatableSelectButton => 0,
            ColumnsDuplicates::SelectionButton => 1,
            ColumnsDuplicates::Size => 2,
            ColumnsDuplicates::Name => 3,
            ColumnsDuplicates::Path => 4,
            ColumnsDuplicates::Modification => 5,
            ColumnsDuplicates::Color => 6,
            ColumnsDuplicates::IsHeader => 7,
            ColumnsDuplicates::TextColor => 8,
        }
    }

    pub fn idx(self) -> (r: i32)
        ensures
            r == self.spec_idx(),
    {
        match self {
            ColumnsDuplicates::ActivatableSelectButton => 0,
            ColumnsDuplicates::SelectionButton => 1,
            ColumnsDuplicates::Size => 2,
            ColumnsDuplicates::Name => 3,
            ColumnsDuplicates::Path => 4,
            ColumnsDuplicates::Modification => 5,
            ColumnsDuplicates::Color => 6,
            ColumnsDuplicates::IsHeader => 7,
            ColumnsDuplicates::TextColor => 8,
        }
    }
}

/// Columns of the empty-folders model.
#[derive(Clone, Copy, Debug, PartialEq, Eq, Structural)]
pub enum ColumnsEmptyFolders {
    SelectionButton,
    Name,
    Path,
    Modification,
    ModificationAsSecs,
}

impl ColumnsEmptyFolders {
    pub open spec fn spec_idx(self) -> i32 {
        match self {
            ColumnsEmptyFolders::SelectionButton => 0,
            ColumnsEmptyFolders::Name => 1,
            ColumnsEmptyFolders::Path => 2,
            ColumnsEmptyFolders::Modification => 3,
            ColumnsEmptyFolders::ModificationAsSecs => 4,
        }
    }

    pub fn idx(self) -> (r: i32)
        ensures
            r == self.spec_idx(),
    {
        match self {
            ColumnsEmptyFolders::SelectionButton => 0,
            ColumnsEmptyFolders::Name => 1,
            ColumnsEmptyFolders::Path => 2,
            ColumnsEmptyFolders::Modification => 3,
            ColumnsEmptyFolders::ModificationAsSecs => 4,
        }
    }
}

/// Columns of the big-files model.
#[derive(Clone, Copy, Debug, PartialEq, Eq, Structural)]
pub enum ColumnsBigFiles {
    SelectionButton,
    Size,
    Name,
    Path,
    Modification,
    ModificationAsSecs,
}

impl ColumnsBigFiles {
    pub open spec fn spec_idx(self) -> i32 {
        match self {
            ColumnsBigFiles::SelectionButton => 0,
            ColumnsBigFiles::Size => 1,
            ColumnsBigFiles::Name => 2,
            ColumnsBigFiles::Path => 3,
            ColumnsBigFiles::Modification => 4,
            ColumnsBigFiles::ModificationAsSecs => 5,
        }
    }

    pub fn idx(self) -> (r: i32)
        ensures
            r == self.spec_idx(),
    {
        match self {
            ColumnsBigFiles::SelectionButton => 0,
            ColumnsBigFiles::Size => 1,
            ColumnsBigFiles::Name => 2,
            ColumnsBigFiles::Path => 3,
            ColumnsBigFiles::Modification => 4,
            ColumnsBigFiles::ModificationAsSecs => 5,
        }
    }
}

/// Columns of the empty-files model.
#[derive(Clone, Copy, Debug, PartialEq, Eq, Structural)]
pub enum ColumnsEmptyFiles {
    SelectionButton,
    Name,
    Path,
    Modification,
    ModificationAsSecs,
}

impl ColumnsEmptyFiles {
    pub open spec fn spec_idx(self) -> i32 {
        match self {
            ColumnsEmptyFiles::SelectionButton => 0,
            ColumnsEmptyFiles::Name => 1,
            ColumnsEmptyFiles::Path => 2,
            ColumnsEmptyFiles::Modification => 3,
            ColumnsEmptyFiles::ModificationAsSecs => 4,
        }
    }

    pub fn idx(self) -> (r: i32)
        ensures
            r == self.spec_idx(),
    {
        match self {
            ColumnsEmptyFiles::SelectionButton => 0,
            ColumnsEmptyFiles::Name => 1,
            ColumnsEmptyFiles::Path => 2,
            ColumnsEmptyFiles::Modification => 3,
            ColumnsEmptyFiles::ModificationAsSecs => 4,
        }
    }
}

/// Columns of the temporary-files model.
#[derive(Clone, Copy, Debug, PartialEq, Eq, Structural)]
pub enum ColumnsTemporaryFiles {
    SelectionButton,
    Name,
    Path,
    Modification,
    ModificationAsSecs,
}

impl ColumnsTemporaryFiles {
    pub open spec fn spec_idx(self) -> i32 {
        match self {
            ColumnsTemporaryFiles::SelectionButton => 0,
            ColumnsTemporaryFiles::Name => 1,
            ColumnsTemporaryFiles::Path => 2,
            ColumnsTemporaryFiles::Modification => 3,
            ColumnsTemporaryFiles::ModificationAsSecs => 4,
        }
    }

    pub fn idx(self) -> (r: i32)
        ensures
            r == self.spec_idx(),
    {
        match self {
            ColumnsTemporaryFiles::SelectionButton => 0,
            ColumnsTemporaryFiles::Name => 1,
            ColumnsTemporaryFiles::Path => 2,
            ColumnsTemporaryFiles::Modification => 3,
            ColumnsTemporaryFiles::ModificationAsSecs => 4,
        }
    }
}

/// Columns of the similar-images model.
#[derive(Clone, Copy, Debug, PartialEq, Eq, Structural)]
pub enum ColumnsSimilarImages {
    ActivatableSelectButton,
    SelectionButton,
    Similarity,
    Size,
    Dimensions,
    Name,
    Path,
    Modification,
    Color,
    IsHeader,
    TextColor,
}

impl ColumnsSimilarImages {
    pub open spec fn spec_idx(self) -> i32 {
        match self {
            ColumnsSimilarImages::ActivatableSelectButton => 0,
            ColumnsSimilarImages::SelectionButton => 1,
            ColumnsSimilarImages::Similarity => 2,
            ColumnsSimilarImages::Size => 3,
            ColumnsSimilarImages::Dimensions => 4,
            ColumnsSimilarImages::Name => 5,
            ColumnsSimilarImages::Path => 6,
            ColumnsSimilarImages::Modification => 7,
            ColumnsSimilarImages::Color => 8,
            ColumnsSimilarImages::IsHeader => 9,
            ColumnsSimilarImages::TextColor => 10,
        }
    }

    pub fn idx(self) -> (r: i32)
        ensures
            r == self.spec_idx(),
    {
        match self {
            ColumnsSimilarImages::ActivatableSelectButton => 0,
            ColumnsSimilarImages::SelectionButton => 1,
            ColumnsSimilarImages::Similarity => 2,
            ColumnsSimilarImages::Size => 3,
            ColumnsSimilarImages::Dimensions => 4,
            ColumnsSimilarImages::Name => 5,
            ColumnsSimilarImages::Path => 6,
            ColumnsSimilarImages::Modification => 7,
            ColumnsSimilarImages::Color => 8,
            ColumnsSimilarImages::IsHeader => 9,
            ColumnsSimilarImages::TextColor => 10,
        }
    }
}

/// Columns of the similar-videos model.
#[derive(Clone, Copy, Debug, PartialEq, Eq, Structural)]
pub enum ColumnsSimilarVideos {
    ActivatableSelectButton,
    SelectionButton,
    Size,
    Name,
    Path,
    Modification,
    Color,
    IsHeader,
    TextColor,
}

impl ColumnsSimilarVideos {
    pub open spec fn spec_idx(self) -> i32 {
        match self {
            ColumnsSimilarVideos::ActivatableSelectButton => 0,
            ColumnsSimilarVideos::SelectionButton => 1,
            ColumnsSimilarVideos::Size => 2,
            ColumnsSimilarVideos::Name => 3,
            ColumnsSimilarVideos::Path => 4,
            ColumnsSimilarVideos::Modification => 5,
            ColumnsSimilarVideos::Color => 6,
            ColumnsSimilarVideos::IsHeader => 7,
            ColumnsSimilarVideos::TextColor => 8,
        }
    }

    pub fn idx(self) -> (r: i32)
        ensures
            r == self.spec_idx(),
    {
        match self {
            ColumnsSimilarVideos::ActivatableSelectButton => 0,
            ColumnsSimilarVideos::SelectionButton => 1,
            ColumnsSimilarVideos::Size => 2,
            ColumnsSimilarVideos::Name => 3,
            ColumnsSimilarVideos::Path => 4,
            ColumnsSimilarVideos::Modification => 5,
            ColumnsSimilarVideos::Color => 6,
            ColumnsSimilarVideos::IsHeader => 7,
            ColumnsSimilarVideos::TextColor => 8,
        }
    }
}

/// Columns of the same-music model.
#[derive(Clone, Copy, Debug, PartialEq, Eq, Structural)]
pub enum ColumnsSameMusic {
    ActivatableSelectButton,
    SelectionButton,
    Size,
    Name,
    Title,
    Artist,
    Year,
    Bitrate,
    Length,
    Genre,
    Path,
    Modification,
    Color,
    IsHeader,
    TextColor,
}

impl ColumnsSameMusic {
    pub open spec fn spec_idx(self) -> i32 {
        match self {
            ColumnsSameMusic::ActivatableSelectButton => 0,
            ColumnsSameMusic::SelectionButton => 1,
            ColumnsSameMusic::Size => 2,
            ColumnsSameMusic::Name => 3,
            ColumnsSameMusic::Title => 4,
            ColumnsSameMusic::Artist => 5,
            ColumnsSameMusic::Year => 6,
            ColumnsSameMusic::Bitrate => 7,
            ColumnsSameMusic::Length => 8,
            ColumnsSameMusic::Genre => 9,
            ColumnsSameMusic::Path => 10,
            ColumnsSameMusic::Modification => 11,
            ColumnsSameMusic::Color => 12,
            ColumnsSameMusic::IsHeader => 13,
            ColumnsSameMusic::TextColor => 14,
        }
    }

    pub fn idx(self) -> (r: i32)
        ensures
            r == self.spec_idx(),
    {
        match self {
            ColumnsSameMusic::ActivatableSelectButton => 0,
            ColumnsSameMusic::SelectionButton => 1,
            ColumnsSameMusic::Size => 2,
            ColumnsSameMusic::Name => 3,
            ColumnsSameMusic::Title => 4,
            ColumnsSameMusic::Artist => 5,
            ColumnsSameMusic::Year => 6,
            ColumnsSameMusic::Bitrate => 7,
            ColumnsSameMusic::Length => 8,
            ColumnsSameMusic::Genre => 9,
            ColumnsSameMusic::Path => 10,
            ColumnsSameMusic::Modification => 11,
            ColumnsSameMusic::Color => 12,
            ColumnsSameMusic::IsHeader => 13,
            ColumnsSameMusic::TextColor => 14,
        }
    }
}

/// Columns of the invalid-symlinks model.
#[derive(Clone, Copy, Debug, PartialEq, Eq, Structural)]
pub enum ColumnsInvalidSymlinks {
    SelectionButton,
    Name,
    Path,
    DestinationPath,
    TypeOfError,
    Modification,
    ModificationAsSecs,
}

impl ColumnsInvalidSymlinks {
    pub open spec fn spec_idx(self) -> i32 {
        match self {
            ColumnsInvalidSymlinks::SelectionButton => 0,
            ColumnsInvalidSymlinks::Name => 1,
            ColumnsInvalidSymlinks::Path => 2,
            ColumnsInvalidSymlinks::DestinationPath => 3,
            ColumnsInvalidSymlinks::TypeOfError => 4,
            ColumnsInvalidSymlinks::Modification => 5,
            ColumnsInvalidSymlinks::ModificationAsSecs => 6,
        }
    }

    pub fn idx(self) -> (r: i32)
        ensures
            r == self.spec_idx(),
    {
        match self {
            ColumnsInvalidSymlinks::SelectionButton => 0,
            ColumnsInvalidSymlinks::Name => 1,
            ColumnsInvalidSymlinks::Path => 2,
            ColumnsInvalidSymlinks::DestinationPath => 3,
            ColumnsInvalidSymlinks::TypeOfError => 4,
            ColumnsInvalidSymlinks::Modification => 5,
            ColumnsInvalidSymlinks::ModificationAsSecs => 6,
        }
    }
}

/// Columns of the broken-files model.
#[derive(Clone, Copy, Debug, PartialEq, Eq, Structural)]
pub enum ColumnsBrokenFiles {
    SelectionButton,
    Name,
    Path,
    ErrorType,
    Modification,
    ModificationAsSecs,
}

impl ColumnsBrokenFiles {
    pub open spec fn spec_idx(self) -> i32 {
        match self {
            ColumnsBrokenFiles::SelectionButton => 0,
            ColumnsBrokenFiles::Name => 1,
            ColumnsBrokenFiles::Path => 2,
            ColumnsBrokenFiles::ErrorType => 3,
            ColumnsBrokenFiles::Modification => 4,
            ColumnsBrokenFiles::ModificationAsSecs => 5,
        }
    }

    pub fn idx(self) -> (r: i32)
        ensures
            r == self.spec_idx(),
    {
        match self {
            ColumnsBrokenFiles::SelectionButton => 0,
            ColumnsBrokenFiles::Name => 1,
            ColumnsBrokenFiles::Path => 2,
            ColumnsBrokenFiles::ErrorType => 3,
            ColumnsBrokenFiles::Modification => 4,
            ColumnsBrokenFiles::ModificationAsSecs => 5,
        }
    }
}

/// Columns of the bad-extensions model.
#[derive(Clone, Copy, Debug, PartialEq, Eq, Structural)]
pub enum ColumnsBadExtensions {
    SelectionButton,
    Name,
    Path,
    CurrentExtension,
    ValidExtensions,
}

impl ColumnsBadExtensions {
    pub open spec fn spec_idx(self) -> i32 {
        match self {
            ColumnsBadExtensions::SelectionButton => 0,
            ColumnsBadExtensions::Name => 1,
            ColumnsBadExtensions::Path => 2,
            ColumnsBadExtensions::CurrentExtension => 3,
            ColumnsBadExtensions::ValidExtensions => 4,
        }
    }

    pub fn idx(self) -> (r: i32)
        ensures
            r == self.spec_idx(),
    {
        match self {
            ColumnsBadExtensions::SelectionButton => 0,
            ColumnsBadExtensions::Name => 1,
            ColumnsBadExtensions::Path => 2,
            ColumnsBadExtensions::CurrentExtension => 3,
            ColumnsBadExtensions::ValidExtensions => 4,
        }
    }
}

/// Columns of the included-directories model.
#[derive(Clone, Copy, Debug, PartialEq, Eq, Structural)]
pub enum ColumnsIncludedDirectory {
    Path,
    ReferenceButton,
}

impl ColumnsIncludedDirectory {
    pub open spec fn spec_idx(self) -> i32 {
        match self {
            ColumnsIncludedDirectory::Path => 0,
            ColumnsIncludedDirectory::ReferenceButton => 1,
        }
    }

    pub fn idx(self) -> (r: i32)
        ensures
            r == self.spec_idx(),
    {
        match self {
            ColumnsIncludedDirectory::Path => 0,
            ColumnsIncludedDirectory::ReferenceButton => 1,
        }
    }
}

/// Columns of the excluded-directories model.
#[derive(Clone, Copy, Debug, PartialEq, Eq, Structural)]
pub enum ColumnsExcludedDirectory {
    Path,
}

impl ColumnsExcludedDirectory {
    pub open spec fn spec_idx(self) -> i32 {
        match self {
            ColumnsExcludedDirectory::Path => 0,
        }
    }

    pub fn idx(self) -> (r: i32)
        ensures
            r == self.spec_idx(),
    {
        match self {
            ColumnsExcludedDirectory::Path => 0,
        }
    }
}

/// The store behind a tree view that has one.
pub fn get_list_store(tree_view: &TreeView) -> (m: &ListStore)
    requires
        tree_view.has_list_store(),
    ensures
        *m == tree_view.spec_model(),
{
    tree_view.get_model()
}

} // verus!
