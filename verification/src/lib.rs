//! A small data layer over SQLite: typed rows in named tables, row ids, and
//! the text forms in which fields are read back and shown.
pub mod connection;
pub mod error;
pub mod field;
pub mod row_id;
pub mod sql;
pub mod sqlite;
pub mod table;
pub mod text;

pub use connection::DbConnection;
pub use error::DbError;
pub use field::{ColumnValue, TableField, TableFieldDisplayStringArgs};
pub use row_id::RowId;
pub use table::{DbTableConfigsRes, FieldTypeInfo, TableConfig, TableRow};
