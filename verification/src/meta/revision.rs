//! A revision of metadata and its builder.

use vstd::prelude::*;
use super::limit::MetadataOptions;
use super::tag::Tag;
use super::visual::{VendorData, Visual};

verus! {

/// What a revision of metadata holds: its tags, visuals and vendor data,
/// each in the order in which they were added.
#[verifier::ext_equal]
pub struct MetadataView {
    pub tags: Seq<Tag>,
    pub visuals: Seq<Visual>,
    pub vendor_data: Seq<VendorData>,
}

impl MetadataView {
    /// The revision that holds nothing.
    pub open spec fn empty() -> MetadataView {
        MetadataView { tags: Seq::empty(), visuals: Seq::empty(), vendor_data: Seq::empty() }
    }

    /// This revision with `tag` added behind its tags.
    pub open spec fn with_tag(self, tag: Tag) -> MetadataView {
        MetadataView { tags: self.tags.push(tag), ..self }
    }

    /// This revision with `visual` added behind its visuals.
    pub open spec fn with_visual(self, visual: Visual) -> MetadataView {
        MetadataView { visuals: self.visuals.push(visual), ..self }
    }

    /// This revision with `vendor_data` added behind its vendor data.
    pub open spec fn with_vendor_data(self, vendor_data: VendorData) -> MetadataView {
        MetadataView { vendor_data: self.vendor_data.push(vendor_data), ..self }
    }
}

/// `Metadata` is a container for a single discrete revision of metadata
/// information. It is made by a `MetadataBuilder` and never changes
/// afterwards.
#[derive(Debug, PartialEq, Eq)]
pub struct Metadata {
    tags: Vec<Tag>,
    visuals: Vec<Visual>,
    vendor_data: Vec<VendorData>,
}

impl View for Metadata {
    type V = MetadataView;

    closed spec fn view(&self) -> MetadataView {
        MetadataView {
            tags: self.tags@,
            visuals: self.visuals@,
            vendor_data: self.vendor_data@,
        }
    }
}

impl Default for Metadata {
    fn default() -> (metadata: Self)
        ensures
            metadata@ == MetadataView::empty(),
    {
        Metadata { tags: Vec::new(), visuals: Vec::new(), vendor_data: Vec::new() }
    }
}

impl Metadata {
    /// Gets an immutable slice to the `Tag`s in this revision.
    pub fn tags(&self) -> (tags: &[Tag])
        ensures
            tags@ == self@.tags,
    {
        self.tags.as_slice()
    }

    /// Gets an immutable slice to the `Visual`s in this revision.
    pub fn visuals(&self) -> (visuals: &[Visual])
        ensures
            visuals@ == self@.visuals,
    {
        self.visuals.as_slice()
    }

    /// Gets an immutable slice to the `VendorData` in this revision.
    pub fn vendor_data(&self) -> (vendor_data: &[VendorData])
        ensures
            vendor_data@ == self@.vendor_data,
    {
        self.vendor_data.as_slice()
    }
}

/// `MetadataBuilder` is the builder for `Metadata` revisions.
pub struct MetadataBuilder {
    metadata: Metadata,
}

impl View for MetadataBuilder {
    type V = MetadataView;

    /// The revision as built so far.
    closed spec fn view(&self) -> MetadataView {
        self.metadata@
    }
}

impl MetadataBuilder {
    /// Instantiate a new `MetadataBuilder`.
    pub fn new() -> (builder: Self)
        ensures
            builder@ == MetadataView::empty(),
    {
        MetadataBuilder { metadata: Metadata::default() }
    }

    /// Add a `Tag` to the metadata.
    pub fn add_tag(&mut self, tag: Tag) -> (builder: &mut Self)
        ensures
            builder@ == old(self)@.with_tag(tag),
            *final(self) == *final(builder),
    {
        self.metadata.tags.push(tag);
        self
    }

    /// Add a `Visual` to the metadata.
    pub fn add_visual(&mut self, visual: Visual) -> (builder: &mut Self)
        ensures
            builder@ == old(self)@.with_visual(visual),
            *final(self) == *final(builder),
    {
        self.metadata.visuals.push(visual);
        self
    }

    /// Add `VendorData` to the metadata.
    pub fn add_vendor_data(&mut self, vendor_data: VendorData) -> (builder: &mut Self)
        ensures
            builder@ == old(self)@.with_vendor_data(vendor_data),
            *final(self) == *final(builder),
    {
        self.metadata.vendor_data.push(vendor_data);
        self
    }

    /// Add a `Tag` whose size the stream declares as `declared`, unless the
    /// limit on metadata bytes, resolved against `default`, is exceeded. An
    /// oversized tag is dropped and the builder is left as it was.
    pub fn add_tag_within(
        &mut self,
        options: &MetadataOptions,
        default: usize,
        declared: usize,
        tag: Tag,
    ) -> (added: bool)
        ensures
            added == options.limit_metadata_bytes.admits(declared, default),
            added ==> final(self)@ == old(self)@.with_tag(tag),
            !added ==> final(self)@ == old(self)@,
    {
        let added = options.limit_metadata_bytes.is_within(declared, default);
        if added {
            self.metadata.tags.push(tag);
        }
        added
    }

    /// Add a `Visual` whose size the stream declares as `declared`, unless
    /// the limit on visual bytes, resolved against `default`, is exceeded.
    /// An oversized visual is dropped and the builder is left as it was.
    pub fn add_visual_within(
        &mut self,
        options: &MetadataOptions,
        default: usize,
        declared: usize,
        visual: Visual,
    ) -> (added: bool)
        ensures
            added == options.limit_visual_bytes.admits(declared, default),
            added ==> final(self)@ == old(self)@.with_visual(visual),
            !added ==> final(self)@ == old(self)@,
    {
        let added = options.limit_visual_bytes.is_within(declared, default);
        if added {
            self.metadata.visuals.push(visual);
        }
        added
    }

    /// Yield the constructed `Metadata` revision.
    pub fn metadata(self) -> (metadata: Metadata)
        ensures
            metadata@ == self@,
    {
        self.metadata
    }
}

/// One thing that is added to a revision while it is built.
pub enum Addition {
    Tag(Tag),
    Visual(Visual),
    VendorData(VendorData),
}

impl MetadataView {
    /// This revision with `addition` added behind the others of its kind.
    pub open spec fn with(self, addition: Addition) -> MetadataView {
        match addition {
            Addition::Tag(tag) => self.with_tag(tag),
            Addition::Visual(visual) => self.with_visual(visual),
            Addition::VendorData(vendor_data) => self.with_vendor_data(vendor_data),
        }
    }

    /// This revision with `additions` added, one after the other.
    pub open spec fn with_all(self, additions: Seq<Addition>) -> MetadataView
        decreases additions.len(),
    {
        if additions.len() == 0 {
            self
        } else {
            self.with_all(additions.drop_last()).with(additions.last())
        }
    }
}

/// The tags among `additions`, in order.
pub open spec fn tags_among(additions: Seq<Addition>) -> Seq<Tag>
    decreases additions.len(),
{
    if additions.len() == 0 {
        Seq::empty()
    } else {
        match additions.last() {
            Addition::Tag(tag) => tags_among(additions.drop_last()).push(tag),
            _ => tags_among(additions.drop_last()),
        }
    }
}

/// The visuals among `additions`, in order.
pub open spec fn visuals_among(additions: Seq<Addition>) -> Seq<Visual>
    decreases additions.len(),
{
    if additions.len() == 0 {
        Seq::empty()
    } else {
        match additions.last() {
            Addition::Visual(visual) => visuals_among(additions.drop_last()).push(visual),
            _ => visuals_among(additions.drop_last()),
        }
    }
}

/// The vendor data among `additions`, in order.
pub open spec fn vendor_data_among(additions: Seq<Addition>) -> Seq<VendorData>
    decreases additions.len(),
{
    if additions.len() == 0 {
        Seq::empty()
    } else {
        match additions.last() {
            Addition::VendorData(vendor_data) => vendor_data_among(additions.drop_last()).push(
                vendor_data,
            ),
            _ => vendor_data_among(additions.drop_last()),
        }
    }
}

/// A revision built from nothing holds exactly what was added to it, each
/// kind in the order of its additions, however the kinds were mixed.
pub proof fn lemma_built_holds_additions_in_order(additions: Seq<Addition>)
    ensures
        MetadataView::empty().with_all(additions) == (MetadataView {
            tags: tags_among(additions),
            visuals: visuals_among(additions),
            vendor_data: vendor_data_among(additions),
        }),
    decreases additions.len(),
{
    if additions.len() > 0 {
        lemma_built_holds_additions_in_order(additions.drop_last());
    }
}

} // verus!
