use rustui::app::{Action, AppState, Page, WindowEvent};
use rustui::colour::Colour;
use rustui::layout::Layout;
use rustui::stack::Stack;

fn page(spacing: u32) -> Page {
    Page::new(Box::new(Stack::vertical(spacing, 0, vec![])))
}

#[test]
fn new_app_state_has_no_pages() {
    let state = AppState::new();
    assert!(state.views.is_empty());
    assert_eq!(state.index, 0);
}

#[test]
fn add_view_appends_in_order() {
    let state = AppState::new().add_view(page(1)).add_view(page(2));
    assert_eq!(state.views.len(), 2);
    assert_eq!(state.index, 0);
    assert_eq!(state.views[0].widget_tree.build().layout, Layout::Vertical { spacing: 1, padding: 0 });
    assert_eq!(state.views[1].widget_tree.build().layout, Layout::Vertical { spacing: 2, padding: 0 });
}

#[test]
fn close_request_exits() {
    assert_eq!(AppState::new().on_event(WindowEvent::CloseRequested), Action::Exit);
    let state = AppState::new().add_view(page(0));
    assert_eq!(state.on_event(WindowEvent::CloseRequested), Action::Exit);
}

#[test]
fn redraw_renders_the_shown_page() {
    let state = AppState::new().add_view(page(0)).add_view(page(5));
    assert_eq!(state.on_event(WindowEvent::RedrawRequested), Action::Render(0));
    let second = AppState { views: state.views, index: 1 };
    assert_eq!(second.on_event(WindowEvent::RedrawRequested), Action::Render(1));
}

#[test]
fn redraw_without_a_page_is_ignored() {
    assert_eq!(AppState::new().on_event(WindowEvent::RedrawRequested), Action::Ignore);
    let state = AppState::new().add_view(page(0));
    let past_end = AppState { views: state.views, index: 1 };
    assert_eq!(past_end.on_event(WindowEvent::RedrawRequested), Action::Ignore);
}

#[test]
fn other_events_are_ignored() {
    let state = AppState::new().add_view(page(0));
    assert_eq!(state.on_event(WindowEvent::Other), Action::Ignore);
}

#[test]
fn page_keeps_its_tree() {
    let p = Page::new(Box::new(Stack::horizontal(3, 4, vec![])));
    let body = p.widget_tree.build();
    assert_eq!(body.layout, Layout::Horizontal { spacing: 3, padding: 4 });
    assert_eq!(body.colour, Colour::Rgb(255, 255, 255));
}
