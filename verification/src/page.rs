//! The pages of the graphical front end.

use vstd::prelude::*;

verus! {

/// A page of the front end.
#[derive(Clone, Copy, Debug, PartialEq, Eq, Structural)]
pub enum Page {
    Show,
    Update,
    Watch,
    KubeTrack,
}

impl Default for Page {
    fn default() -> (page: Page)
        ensures
            page == Page::Show,
    {
        Page::Show
    }
}

impl Page {
    /// The label of the page in the side bar.
    pub open spec fn label_of(self) -> Seq<char> {
        match self {
            Page::Show => "Packages"@,
            Page::Update => "Update"@,
            Page::Watch => "Watch"@,
            Page::KubeTrack => "Kube Track"@,
        }
    }

    /// The label of the page in the side bar.
    pub fn label(&self) -> (label: &'static str)
        ensures
            label@ == self.label_of(),
    {
        match self {
            Page::Show => "Packages",
            Page::Update => "Update",
            Page::Watch => "Watch",
            Page::KubeTrack => "Kube Track",
        }
    }

    /// Every page, in the order of the side bar.
    pub fn all() -> (pages: Vec<Page>)
        ensures
            pages@ == seq![Page::Show, Page::Update, Page::Watch, Page::KubeTrack],
    {
        let mut pages: Vec<Page> = Vec::new();
        pages.push(Page::Show);
        pages.push(Page::Update);
        pages.push(Page::Watch);
        pages.push(Page::KubeTrack);
        pages
    }
}

} // verus!
