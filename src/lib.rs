//! Decoding of the records that an HSL travel card stores: bit fields,
//! the EN1545 calendar, the tagged field variants, the transaction history
//! and the stitching of multi-frame reads.
pub mod conversion;
pub mod desfire;
pub mod en1545date;
pub mod error;
pub mod history;
pub mod eticket;
pub mod models;
pub mod travelcard;
