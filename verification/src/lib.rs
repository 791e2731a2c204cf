//! Building blocks for SQL text that is assembled at run time: quoting of
//! identifiers and string literals, equality predicates over primary-key
//! columns, and the rules that settle a column's effective default value.

pub mod default_value;
pub mod escape;
pub mod predicate;

pub use default_value::{
    get_dflt_value, ColumnType, DefaultValue, Lookup, LookupError, Progress, Reply, Request,
    Stage, TABLE_INFO_SQL,
};
pub use escape::{escape_ident, escape_ident_as_value};
pub use predicate::{pk_where_list, ColumnInfo, DecodeError};
