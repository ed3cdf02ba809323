pub mod token;
pub mod tokens;
pub mod node;
pub mod grammar;
pub mod parser;
