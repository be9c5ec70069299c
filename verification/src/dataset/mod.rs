pub mod comparisons;
pub mod conversions;
pub mod data_cell;
pub mod data_column;
pub mod data_row;
pub mod data_set;
pub mod data_table;
pub mod data_value;
pub mod name_map;
pub mod sql_types;
pub mod value_laws;

pub use data_cell::DataCell;
pub use data_column::{ColumnView, DataColumn};
pub use data_row::{DataRow, RowView};
pub use data_set::{DataSet, DataSetView, LookupError};
pub use data_table::{DataTable, TableView};
pub use data_value::{DataValue, ValueKind, ValueView};
pub use name_map::NameMap;
pub use sql_types::{SqlDate, SqlDateTime, SqlDateTimeOffset, SqlDecimal, SqlFloat, SqlGuid, SqlTime};
