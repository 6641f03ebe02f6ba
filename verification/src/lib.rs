//! Model layer behind the tree views of a duplicate-file finder's window.
//!
//! Each scan-result category is shown in one tabbed page as a table. This
//! crate describes, as plain data with proofs, everything the toolkit
//! binding needs to build those tables: which model columns each category
//! has and with which value types, which widget columns are created over
//! them (renderer kind, sizing, sort key, colour bindings), and how a click
//! on a selection toggle changes the backing row. The toolkit calls
//! themselves live outside this crate and only read these descriptions.

pub mod common_tree_view;
pub mod create_tree_view;
pub mod help_functions;
pub mod list_store;
pub mod notebook_enums;
pub mod notebook_info;
