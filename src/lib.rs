//! Ingestion of music-playback batches: catalog get-or-create resolution,
//! append-only stream recording and the upload status lifecycle.
pub mod values;
pub mod models;
pub mod ingest;
pub mod catalog;
pub mod replies;
