//! Best-effort machine specification report: formatting of byte quantities,
//! host/storage inventory readers, graphics adapter enumeration logic, and a
//! graphics-API version table, assembled into one `SystemReport`.

pub mod directx;
pub mod graphics;
pub mod host;
pub mod report;
pub mod storage;
pub mod text;
pub mod units;
