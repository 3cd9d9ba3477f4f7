//! One named unit of content that can be shown and hidden.

use vstd::prelude::*;

verus! {

/// A panel as a mathematical value.
pub struct PanelView {
    pub id: Seq<char>,
    pub title: Seq<char>,
    pub content: Seq<char>,
    pub visible: bool,
}

/// A panel of the browser. Only its visibility ever changes.
#[derive(Debug)]
pub struct Panel {
    id: String,
    title: String,
    content: String,
    visible: bool,
}

impl View for Panel {
    type V = PanelView;

    closed spec fn view(&self) -> PanelView {
        PanelView {
            id: self.id@,
            title: self.title@,
            content: self.content@,
            visible: self.visible,
        }
    }
}

/// The panel that registration creates: hidden, and titled by its id.
pub open spec fn fresh_panel(id: Seq<char>, content: Seq<char>) -> PanelView {
    PanelView { id, title: id, content, visible: false }
}

impl Panel {
    /// Creates a hidden panel whose title is its id.
    pub fn new(id: &str, content: String) -> (panel: Panel)
        ensures
            panel@ == fresh_panel(id@, content@),
    {
        Panel { id: id.to_owned(), title: id.to_owned(), content, visible: false }
    }

    pub fn id(&self) -> (id: &String)
        ensures
            id@ == self@.id,
    {
        &self.id
    }

    pub fn title(&self) -> (title: &String)
        ensures
            title@ == self@.title,
    {
        &self.title
    }

    pub fn content(&self) -> (content: &String)
        ensures
            content@ == self@.content,
    {
        &self.content
    }

    pub fn is_visible(&self) -> (visible: bool)
        ensures
            visible == self@.visible,
    {
        self.visible
    }

    /// Sets the visibility and leaves everything else as it was.
    pub fn set_visible(&mut self, visible: bool)
        ensures
            final(self)@ == (PanelView { visible, ..old(self)@ }),
    {
        self.visible = visible;
    }
}

} // verus!
