//! Bookworm: the reading tracker's verified core.
pub mod text;
pub mod isbn;
pub mod json;
pub mod lookup;
pub mod calendar;
pub mod goal;
pub mod layout;
pub mod links;
pub mod flows;
pub mod pages;

pub use layout::tailwind_config;
