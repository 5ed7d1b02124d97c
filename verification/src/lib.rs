pub mod scanner;
pub mod user;
