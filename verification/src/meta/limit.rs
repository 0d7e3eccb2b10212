//! Limits on resources whose amount is dictated by the stream.

use vstd::prelude::*;

verus! {

/// `Limit` defines how a reader or decoder bounds a resource when the
/// amount to allocate is declared by the untrusted stream. A limit guards
/// against streams that ask for unreasonable amounts, usually of memory, at
/// the risk of rejecting a valid stream.
///
/// Units are specific to the use.
#[derive(Copy, Clone, Debug, PartialEq, Eq, Structural)]
pub enum Limit {
    /// Do not impose any limit.
    Unbounded,
    /// Use the default that the reader or decoder supplies.
    UseDefault,
    /// The upper limit of the resource.
    Bounded(usize),
}

impl Limit {
    /// The bound that the limit resolves to when the caller's default is
    /// `default`. `None` means that there is no bound.
    pub open spec fn resolve(self, default: usize) -> Option<usize> {
        match self {
            Limit::Unbounded => None,
            Limit::UseDefault => Some(default),
            Limit::Bounded(max) => Some(max),
        }
    }

    /// Whether an element whose stream-declared size is `declared` may be
    /// allocated under this limit: there is no bound, or the size does not
    /// exceed it.
    pub open spec fn admits(self, declared: usize, default: usize) -> bool {
        match self.resolve(default) {
            None => true,
            Some(bound) => declared <= bound,
        }
    }

    /// Gets the numeric bound of the limit, or the default value. If there
    /// is no limit, `None` is returned.
    pub fn limit_or_default(&self, default: usize) -> (bound: Option<usize>)
        ensures
            bound == self.resolve(default),
            *self == Limit::Unbounded ==> bound.is_none(),
            *self == Limit::UseDefault ==> bound == Some(default),
            forall|max: usize| *self == Limit::Bounded(max) ==> bound == Some(max),
    {
        match self {
            Limit::Unbounded => None,
            Limit::UseDefault => Some(default),
            Limit::Bounded(max) => Some(*max),
        }
    }

    /// Decides, before anything is allocated, whether an element of the
    /// stream-declared size `declared` is kept. An element that is not
    /// admitted is skipped; that is no error.
    pub fn is_within(&self, declared: usize, default: usize) -> (kept: bool)
        ensures
            kept == self.admits(declared, default),
    {
        match self.limit_or_default(default) {
            None => true,
            Some(bound) => declared <= bound,
        }
    }
}

/// `MetadataOptions` is the set of options common to all metadata readers.
#[derive(Copy, Clone, Debug, PartialEq, Eq, Structural)]
pub struct MetadataOptions {
    /// The most bytes that a tag may occupy in memory once decoded. A reader
    /// skips the tags that exceed it. Tags are held as UTF-8, so a character
    /// may take more than one byte.
    pub limit_metadata_bytes: Limit,
    /// The most bytes that a visual (a picture) may occupy.
    pub limit_visual_bytes: Limit,
}

impl Default for MetadataOptions {
    fn default() -> (options: Self)
        ensures
            options.limit_metadata_bytes == Limit::UseDefault,
            options.limit_visual_bytes == Limit::UseDefault,
    {
        MetadataOptions {
            limit_metadata_bytes: Limit::UseDefault,
            limit_visual_bytes: Limit::UseDefault,
        }
    }
}

/// A bounded limit admits exactly the sizes that do not exceed its bound,
/// whatever the default is.
pub proof fn lemma_bounded_admits(max: usize, declared: usize, default: usize)
    ensures
        Limit::Bounded(max).admits(declared, default) <==> declared <= max,
{
}

} // verus!
