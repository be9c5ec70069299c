pub mod config;
pub mod decode;
pub mod encode;
pub mod materializer;
pub mod row_count;
pub mod wire;

pub use config::MssqlConfig;
pub use decode::{decode, DecodeError};
pub use encode::EncodeError;
pub use materializer::{decode_row, materialize, Materializer};
pub use row_count::affected_rows;
pub use wire::{
    ColumnMeta, WireCell, WireDate, WireDateTime, WireDateTime2, WireDateTimeOffset, WireEvent,
    WireNumeric, WireSmallDateTime, WireTime,
};
