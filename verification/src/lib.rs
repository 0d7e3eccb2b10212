//! The streaming ingestion and metadata core of a media demultiplexing and
//! decoding framework.
//!
//! The crate bounds what an untrusted stream may make a reader allocate
//! ([`meta::Limit`]), models the tags, visuals and vendor data found while
//! parsing ([`meta::Metadata`]), keeps the revisions of that metadata in
//! discovery order ([`meta::MetadataQueue`]), and decides, packet by packet,
//! what the loop that drives a format reader and a decoder does next
//! ([`decode::Consumer`]). What readers and decoders hand to that loop is
//! described in [`formats`], [`codecs`] and [`errors`].
//!
//! Nothing here reads a stream or decodes audio: format readers, decoders
//! and byte sources belong to the caller.

pub mod codecs;
pub mod decode;
pub mod errors;
pub mod formats;
pub mod io;
pub mod meta;
