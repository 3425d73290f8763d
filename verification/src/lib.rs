//! The core of a small market-data backend.
//!
//! The backend fetches the daily report of a stock exchange, reads its
//! rows, and writes the accepted ones to a relational store in one
//! set-based upsert. Beside that it takes image uploads and answers
//! health checks. Everything that touches the network, the store or the
//! environment lives with the caller; what is decided and computed lives
//! here.
//!
//! - [`numeric`] and [`decimal`] read the numbers of the report.
//! - [`record`] reads one row, [`batch`] assembles the columns.
//! - [`calendar`] reads the date of a report.
//! - [`ingest`] decides the steps of one ingestion request, and [`store`]
//!   states what its upsert means for the table.
//! - [`status`], [`response`] and [`error`] shape the replies.
//! - [`config`] and [`startup`] cover the start of the process.
//! - [`upload`] checks an upload and names the stored object.
//! - [`text`] holds small operations on text.

pub mod batch;
pub mod calendar;
pub mod config;
pub mod decimal;
pub mod error;
pub mod ingest;
pub mod numeric;
pub mod record;
pub mod response;
pub mod startup;
pub mod status;
pub mod store;
pub mod text;
pub mod upload;
