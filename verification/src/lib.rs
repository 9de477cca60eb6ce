//! The state and decisions of a small file reader: a code editor buffer,
//! two directory-tree explorers, a selectable table and the reader's own
//! state (path input, file list, search filter, suggestions, errors).
//!
//! Everything that draws widgets or touches the file system lives with the
//! caller; this crate holds the logic those parts hand their results to.

pub mod code_editor;
pub mod table;
pub mod paths;
pub mod text;
pub mod explorer;
pub mod explorer_backup;
pub mod reader;
