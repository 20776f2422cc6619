//! The logic of a terminal process monitor: which processes are shown and in what order, how keys
//! and the mouse change what is on screen, which process gets which signal, and what each pane
//! says.

#![allow(unused_imports)]

pub mod app;
pub mod area;
pub mod event_laws;
pub mod keys;
pub mod laws;
pub mod process;
pub mod scene;
pub mod screen_laws;
pub mod search;
pub mod table;
pub mod table_laws;
pub mod text;
pub mod text_laws;
