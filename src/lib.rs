//! Ingestion of contact-form submissions into a key-value table.
//!
//! The library decides everything about one request: the stored record and
//! its composite key, the attributes of the single put, the JSON framing of
//! the echoed submission and the HTTP-shaped reply. Transport, the storage
//! client and JSON decoding into values are left to the program around it.
pub mod codec;
pub mod ingest;
pub mod record;
pub mod storage;

pub use record::{format_timestamp, stored_record, Item, StoredRecord, UtcInstant};
pub use codec::to_json;
pub use ingest::{
    bad_request, on_request, on_request_at, on_written, success, Decoded, HttpReply, IngestError, Step,
};
pub use storage::{add_item, add_item_at, put_item_request, PutItem};
