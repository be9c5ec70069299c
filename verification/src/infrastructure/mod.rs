pub mod mssql;
