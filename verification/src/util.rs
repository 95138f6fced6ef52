pub mod archive;
pub mod dirs;
pub mod download;
pub mod os;
