pub mod base;
pub mod init;
