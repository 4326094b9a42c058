pub mod get;
pub mod list;
