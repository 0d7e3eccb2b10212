//! The interface of metadata readers.

use vstd::prelude::*;
use crate::errors::Error;
use super::limit::MetadataOptions;
use super::revision::Metadata;

verus! {

/// A `MetadataReader` reads one format of metadata.
pub trait MetadataReader {
    /// Instantiates the `MetadataReader` with the provided
    /// `MetadataOptions`.
    fn new(options: &MetadataOptions) -> Self where Self: Sized;

    /// Read all metadata from the block `data`, which the caller has taken
    /// from the stream, and return it if successful.
    fn read_all(&mut self, data: &[u8]) -> Result<Metadata, Error>;
}

} // verus!
