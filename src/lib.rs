//! Assembles PostgreSQL statements with positional `$N` placeholders and
//! collects the values bound to them, in placeholder order.

pub mod bucket;
pub mod delete_builder;
pub mod fragment;
pub mod insert_builder;
pub mod placeholders;
pub mod prelude;
pub mod select_builder;
pub mod text;
pub mod update_builder;
pub mod value;

pub use delete_builder::DeleteBuilder;
pub use insert_builder::InsertBuilder;
pub use select_builder::SelectBuilder;
pub use update_builder::UpdateBuilder;
pub use value::SqlValue;
