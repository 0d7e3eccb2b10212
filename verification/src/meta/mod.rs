//! Basic metadata elements and the structures that manage them.

pub mod keys;
pub mod limit;
pub mod nonzero;
pub mod queue;
pub mod reader;
pub mod revision;
pub mod tag;
pub mod visual;

pub use keys::{StandardTagKey, StandardVisualKey};
pub use limit::{Limit, MetadataOptions};
pub use nonzero::NonZeroU32;
pub use queue::{MetadataQueue, MetadataRef};
pub use reader::MetadataReader;
pub use revision::{Metadata, MetadataBuilder, MetadataView};
pub use tag::Tag;
pub use visual::{ColorMode, Size, VendorData, Visual};
