pub mod digits;
pub mod laws;
pub mod session;
