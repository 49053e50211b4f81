//! Feed ingestion and actor synchronisation for a bridge between syndicated
//! web feeds and federated actors.
//!
//! A feed is acquired from one of its sources (`feed`), read from a JSON Feed
//! document (`json_feed`) or from an Atom document (`syndication`, for the
//! bodies that `readable` lets through) into one canonical form, and compared
//! with the snapshot of the last cycle (`update`). An actor's record and the
//! object that stands for it on the wire are made from each other in `user`.

pub mod error;
pub mod feed;
pub mod json_feed;
pub mod readable;
pub mod refresh_time;
pub mod syndication;
pub mod text;
pub mod update;
pub mod user;
pub mod web_url;
