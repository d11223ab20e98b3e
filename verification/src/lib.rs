pub mod command;
pub mod executor;
pub mod session;
pub mod text;
pub mod tokenize;
