//! Page-layout data the rendering layer consumes: the title of a page and
//! where it appears.

use vstd::prelude::*;
use vstd::string::*;

verus! {

/// Where a page's title is shown.
#[derive(PartialEq, Eq, Copy, Clone, Structural, Debug)]
pub enum TitleVisibility {
    /// Only in the document head.
    Head,
    /// In the document head and as the page heading.
    HeadAndBody,
}

/// A page title and where it is shown.
pub struct Title {
    title: String,
    visibility: TitleVisibility,
}

impl Title {
    /// The title's text.
    pub closed spec fn spec_title(&self) -> Seq<char> {
        self.title@
    }

    /// Where the title is shown.
    pub closed spec fn spec_visibility(&self) -> TitleVisibility {
        self.visibility
    }

    /// A title shown in the head and as the page heading.
    pub fn head_and_body(title: String) -> (r: Title)
        ensures
            r.spec_title() == title@,
            r.spec_visibility() == TitleVisibility::HeadAndBody,
    {
        Title { title, visibility: TitleVisibility::HeadAndBody }
    }

    /// A title shown only in the head.
    pub fn head(title: String) -> (r: Title)
        ensures
            r.spec_title() == title@,
            r.spec_visibility() == TitleVisibility::Head,
    {
        Title { title, visibility: TitleVisibility::Head }
    }

    /// The title's text.
    pub fn title(&self) -> (r: &str)
        ensures
            r@ == self.spec_title(),
    {
        self.title.as_str()
    }

    /// Where the title is shown.
    pub fn visibility(&self) -> (r: TitleVisibility)
        ensures
            r == self.spec_visibility(),
    {
        self.visibility
    }
}

} // verus!
