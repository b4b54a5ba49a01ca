pub mod algorithm_type;
pub mod arithmetic;
pub mod case;
pub mod check_constraint;
pub mod clone_tree;
pub mod column;
pub mod column_order;
pub mod common_parser;
pub mod compression_type;
pub mod condition;
pub mod data_type;
pub mod default_or_zero_or_one;
pub mod display_util;
pub mod error;
pub mod field;
pub mod function_laws;
pub mod fulltext_or_spatial_type;
pub mod index_option;
pub mod index_or_key_type;
pub mod index_type;
pub mod input;
pub mod insert_method_type;
pub mod item_placeholder;
pub mod join;
pub mod key_part;
pub mod literal;
pub mod lock_type;
pub mod match_type;
pub mod operator;
pub mod order;
pub mod reference_definition;
pub mod reference_type;
pub mod row_format_type;
pub mod table;
pub mod table_key;
pub mod table_option;
pub mod table_option_laws;
pub mod tablespace_type;
pub mod tree_eq;
pub mod trigger;
pub mod visible_type;
