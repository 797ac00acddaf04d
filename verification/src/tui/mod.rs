pub mod app;
pub mod events;
pub mod widgets;
