//! Upload bookkeeping, upload authorization and reply decisions, device
//! records, usage statistics and media-encoding plans for a device log
//! server, with their contracts proved by Verus.

pub mod clock;
pub mod devices;
pub mod media;
pub mod stats;
pub mod text;
pub mod upload_handling;
pub mod upload_tracker;
