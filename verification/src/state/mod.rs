pub mod action;
pub mod audio;
pub mod component;
pub mod dispatcher;
pub mod library;
pub mod overlay;
pub mod popup;
pub mod search;
pub mod view;
