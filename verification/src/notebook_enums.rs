//! The scan-result categories, one per page of the main notebook.

use vstd::prelude::*;

verus! {

/// The tabs of the main notebook, in page order.
#[derive(Clone, Copy, Debug, PartialEq, Eq, Structural)]
pub enum NotebookMainEnum {
    Duplicate,
    EmptyDirectories,
    BigFiles,
    EmptyFiles,
    Temporary,
    SimilarImages,
    SimilarVideos,
    SameMusic,
    Symlinks,
    BrokenFiles,
    BadExtensions,
}

impl NotebookMainEnum {
    /// The page number of this category's tab.
    pub open spec fn spec_idx(self) -> usize {
        match self {
            NotebookMainEnum::Duplicate => 0,
            NotebookMainEnum::EmptyDirectories => 1,
            NotebookMainEnum::BigFiles => 2,
            NotebookMainEnum::EmptyFiles => 3,
            NotebookMainEnum::Temporary => 4,
            NotebookMainEnum::SimilarImages => 5,
            NotebookMainEnum::SimilarVideos => 6,
            NotebookMainEnum::SameMusic => 7,
            NotebookMainEnum::Symlinks => 8,
            NotebookMainEnum::BrokenFiles => 9,
            NotebookMainEnum::BadExtensions => 10,
        }
    }

    pub fn idx(self) -> (r: usize)
        ensures
            r == self.spec_idx(),
    {
        match self {
            NotebookMainEnum::Duplicate => 0,
            NotebookMainEnum::EmptyDirectories => 1,
            NotebookMainEnum::BigFiles => 2,
            NotebookMainEnum::EmptyFiles => 3,
            NotebookMainEnum::Temporary => 4,
            NotebookMainEnum::SimilarImages => 5,
            NotebookMainEnum::SimilarVideos => 6,
            NotebookMainEnum::SameMusic => 7,
            NotebookMainEnum::Symlinks => 8,
            NotebookMainEnum::BrokenFiles => 9,
            NotebookMainEnum::BadExtensions => 10,
        }
    }
}

/// All categories, in page order.
pub open spec fn spec_all_notebook_enums() -> Seq<NotebookMainEnum> {
    seq![
        NotebookMainEnum::Duplicate,
        NotebookMainEnum::EmptyDirectories,
        NotebookMainEnum::BigFiles,
        NotebookMainEnum::EmptyFiles,
        NotebookMainEnum::Temporary,
        NotebookMainEnum::SimilarImages,
        NotebookMainEnum::SimilarVideos,
        NotebookMainEnum::SameMusic,
        NotebookMainEnum::Symlinks,
        NotebookMainEnum::BrokenFiles,
        NotebookMainEnum::BadExtensions,
    ]
}

/// All categories, in page order: the order the window builds its tabs in.
pub fn all_notebook_enums() -> (r: Vec<NotebookMainEnum>)
    ensures
        r@ == spec_all_notebook_enums(),
        forall|i: int| 0 <= i < r@.len() ==> (#[trigger] r@[i]).spec_idx() == i,
{
    let mut r: Vec<NotebookMainEnum> = Vec::new();
    r.push(NotebookMainEnum::Duplicate);
    r.push(NotebookMainEnum::EmptyDirectories);
    r.push(NotebookMainEnum::BigFiles);
    r.push(NotebookMainEnum::EmptyFiles);
    r.push(NotebookMainEnum::Temporary);
    r.push(NotebookMainEnum::SimilarImages);
    r.push(NotebookMainEnum::SimilarVideos);
    r.push(NotebookMainEnum::SameMusic);
    r.push(NotebookMainEnum::Symlinks);
    r.push(NotebookMainEnum::BrokenFiles);
    r.push(NotebookMainEnum::BadExtensions);
    proof {
        assert(r@ =~= spec_all_notebook_enums());
    }
    r
}

} // verus!
