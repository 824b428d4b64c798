pub mod app;
pub mod colors;
pub mod components;
pub mod events;
pub mod layout;
pub mod view_data;
pub mod widgets;
