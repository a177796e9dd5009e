//! A small interpreted language (scanner, parser, syntax tree and
//! tree-walking evaluator), and beside it a few small libraries: numbers,
//! linked lists, editable documents with a text viewer's state, a snake
//! game's rules and the records of people.
pub mod ast;
pub mod doc;
pub mod document;
pub mod fibonacci;
pub mod fwd_list;
pub mod interpreter;
pub mod list;
pub mod number;
pub mod parser;
pub mod person;
pub mod pipeline;
pub mod primes;
pub mod queue;
pub mod rc_list;
pub mod resize;
pub mod scanner;
pub mod snake;
pub mod text;
pub mod text_viewer;
