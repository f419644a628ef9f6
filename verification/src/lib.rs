pub mod style;
pub mod term;
pub mod nav;
pub mod rope;
pub mod text;
pub mod ui;
pub mod widget;
pub mod buffer;
pub mod chars;
pub mod command;
pub mod editor;
pub mod event;
pub mod grid;
pub mod input;
