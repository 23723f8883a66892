//! The core of an interactive job-control shell: the tokenizer, the parser with
//! variable expansion, and the decisions of the execution engine, each with a
//! proved contract. Reading lines, creating processes and handing the
//! terminal over are left to the program that drives this library.

pub mod action;
pub mod builtin;
pub mod command;
pub mod environment;
pub mod expand;
pub mod lexer;
pub mod parser;
pub mod shell;
pub mod text;
pub mod token;
