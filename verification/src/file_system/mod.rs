//! Records of the file system: files, directories (groups) and the tags
//! that bind a child to its parent.
pub mod bind;
pub mod dir;
pub mod file;
