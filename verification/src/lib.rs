//! Platform layer and browser front-end logic of a terminal text editor
//! compiled to WebAssembly: in-memory terminal I/O buffers, a virtual
//! filesystem kept in browser storage, and the editor's front-end decisions.

pub mod base64;
pub mod clipboard;
pub mod documents;
pub mod file_picker;
pub mod order;
pub mod session;
pub mod shortcuts;
pub mod state;
pub mod terminal;
pub mod text;
pub mod title;
pub mod vfs;
