pub mod set_statement;
