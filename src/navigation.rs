//! Building blocks of a bottom navigation bar. The bar itself is drawn with
//! the toolkit; this module holds the parts that carry no drawing.

use vstd::prelude::*;

verus! {

/// Marker for the navigation bar layout.
pub struct NavigationBar {}

/// The first half of a navigation tab: its title, waiting for its contents.
pub struct NavigationTabBuilder {
    title: String,
}

impl NavigationTabBuilder {
    /// The title that the tab shows.
    pub closed spec fn title_text(&self) -> String {
        self.title
    }

    /// Starts a tab titled with `title` written out.
    pub fn new<T: std::fmt::Display>(title: T) -> (r: NavigationTabBuilder)
        ensures
            vstd::string::to_string_from_display_ensures::<T>(&title, r.title_text()),
    {
        NavigationTabBuilder { title: title.to_string() }
    }

    /// The tab's title.
    pub fn title(&self) -> (r: &str)
        ensures
            r@ == self.title_text()@,
    {
        self.title.as_str()
    }

    /// Gives up the builder for its title.
    pub fn into_title(self) -> (r: String)
        ensures
            r == self.title_text(),
    {
        self.title
    }
}

} // verus!
