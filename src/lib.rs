pub mod borrow;
pub mod catalog;
pub mod init;
pub mod slots;
