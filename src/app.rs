use vstd::prelude::*;
use crate::widgets::Widget;

verus! {

/// One page of the application: the root of a widget tree.
pub struct Page {
    pub widget_tree: Box<dyn Widget>,
}

impl Page {
    pub fn new(widget_tree: Box<dyn Widget>) -> (r: Page)
        ensures
            r == (Page { widget_tree }),
    {
        Page { widget_tree }
    }
}

/// The window events that the application tells apart.
#[derive(Debug, Clone, Copy, PartialEq, Eq, Structural)]
pub enum WindowEvent {
    CloseRequested,
    RedrawRequested,
    /// Any other event: input, resizing, focus.
    Other,
}

/// What the event loop does in answer to an event.
#[derive(Debug, Clone, Copy, PartialEq, Eq, Structural)]
pub enum Action {
    /// Leave the event loop.
    Exit,
    /// Draw the view at this index.
    Render(usize),
    /// Do nothing.
    Ignore,
}

/// The pages of an application and which of them is shown.
pub struct AppState {
    pub views: Vec<Page>,
    pub index: usize,
}

impl AppState {
    /// No pages yet; the first page added is the one shown.
    pub fn new() -> (r: AppState)
        ensures
            r.views@.len() == 0,
            r.index == 0,
    {
        AppState { views: Vec::new(), index: 0 }
    }

    /// Adds a page after the existing ones.
    pub fn add_view(self, view: Page) -> (r: AppState)
        ensures
            r.views@ == self.views@.push(view),
            r.index == self.index,
    {
        let mut views = self.views;
        views.push(view);
        AppState { views, index: self.index }
    }

    /// Decides what to do with a window event: close on request, and on a
    /// redraw draw the page that is shown, if there is one.
    pub fn on_event(&self, event: WindowEvent) -> (r: Action)
        ensures
            r == match event {
                WindowEvent::CloseRequested => Action::Exit,
                WindowEvent::RedrawRequested => if self.index < self.views@.len() {
                    Action::Render(self.index)
                } else {
                    Action::Ignore
                },
                WindowEvent::Other => Action::Ignore,
            },
    {
        match event {
            WindowEvent::CloseRequested => Action::Exit,
            WindowEvent::RedrawRequested => if self.index < self.views.len() {
                Action::Render(self.index)
            } else {
                Action::Ignore
            },
            WindowEvent::Other => Action::Ignore,
        }
    }
}

} // verus!
