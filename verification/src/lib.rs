//! The verified core of a terminal front end for Homebrew: the package list,
//! its filtering, sorting and selection, the key bindings, the worker that
//! turns commands into `brew` runs, and the text that is shown to the user.

pub mod text;
pub mod bindings;
pub mod run;
pub mod worker;
pub mod items;
pub mod info;
pub mod theme;
pub mod layout;
pub mod app;
pub mod screen;
