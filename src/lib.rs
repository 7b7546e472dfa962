pub mod colour;
pub mod layout;
pub mod widgets;
pub mod stack;
pub mod app;
