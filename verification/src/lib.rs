//! A MySQL dialect SQL parser whose parsing functions carry contracts that
//! state, over a grammar written as spec functions, exactly which inputs each
//! parser accepts and what it produces.
pub mod base;
pub mod common;
pub mod common_statement;
pub mod das;
