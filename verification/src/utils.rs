pub mod browser;
pub mod launcher;
pub mod laws;
pub mod locator;
pub mod model;
pub mod page;
pub mod process;
pub mod protocol;
pub mod regions;
pub mod text;
