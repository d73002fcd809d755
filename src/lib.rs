pub mod capture;
pub mod encode;
pub mod error;
pub mod format;
pub mod link;
pub mod session;
