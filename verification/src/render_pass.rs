//! Building the description of a render pass: its attachments, subpasses
//! and dependencies. Creating the Vulkan render pass from it is the caller's.

use vstd::prelude::*;
use crate::enums::{AttachmentLoadOp, AttachmentStoreOp, BindPoint, Format, ImageLayout, SampleCount};
use crate::errors::RenderPassError;
use crate::flags::{AccessFlags, DependencyFlags, PipelineStage};

verus! {

/// An attachment of a render pass.
#[derive(Clone, Copy, Debug, PartialEq, Eq, Structural)]
pub struct AttachmentDescription {
    /// The format of the attachment's image.
    pub format: Format,
    /// The number of samples per pixel.
    pub samples: SampleCount,
    /// What happens to the colour and depth contents at the start.
    pub on_load: AttachmentLoadOp,
    /// What happens to the colour and depth contents at the end.
    pub on_store: AttachmentStoreOp,
    /// What happens to the stencil contents at the start.
    pub on_stencil_load: AttachmentLoadOp,
    /// What happens to the stencil contents at the end.
    pub on_stencil_store: AttachmentStoreOp,
    /// The layout the image is in at the start.
    pub start_layout: ImageLayout,
    /// The layout the image is put in at the end.
    pub end_layout: ImageLayout,
}

/// A reference from a subpass to an attachment.
#[derive(Clone, Copy, Debug, PartialEq, Eq, Structural)]
pub struct AttachmentRef {
    /// The index of the attachment.
    pub index: u32,
    /// The layout the attachment is in during the subpass.
    pub layout: ImageLayout,
}

/// A subpass of a render pass.
#[derive(Clone, Debug, PartialEq, Eq)]
pub struct SubpassDescription {
    /// The pipeline type of the subpass.
    pub bind_point: BindPoint,
    /// The attachments read as input.
    pub input_attaches: Vec<AttachmentRef>,
    /// The colour attachments written.
    pub colour_attaches: Vec<AttachmentRef>,
    /// The attachments the colour attachments are resolved to.
    pub resolve_attaches: Vec<AttachmentRef>,
    /// The attachments whose contents are kept though unused.
    pub preserve_attaches: Vec<u32>,
    /// The depth and stencil attachment, if any.
    pub depth_stencil: Option<AttachmentRef>,
}

/// An ordering between two subpasses.
#[derive(Clone, Copy, Debug, PartialEq, Eq, Structural)]
pub struct SubpassDependency {
    /// The subpass that comes first.
    pub from: u32,
    /// The subpass that comes second.
    pub to: u32,
    /// The stages of the first subpass waited on.
    pub from_stage: PipelineStage,
    /// The stages of the second subpass that wait.
    pub to_stage: PipelineStage,
    /// The memory accesses of the first subpass made visible.
    pub from_access: AccessFlags,
    /// The memory accesses of the second subpass they are made visible to.
    pub to_access: AccessFlags,
    /// How the dependency is scoped.
    pub dependency_flags: DependencyFlags,
}

/// Collects the attachments, subpasses and dependencies of a render pass.
/// Once an error is recorded, further calls change nothing.
pub struct RenderPassBuilder {
    /// The first error met, if any.
    error: Option<RenderPassError>,
    /// The attachments, in order of index.
    attachments: Vec<AttachmentDescription>,
    /// The subpasses, in order of index.
    subpasses: Vec<SubpassDescription>,
    /// The dependencies, in order of definition.
    dependencies: Vec<SubpassDependency>,
}

impl RenderPassBuilder {
    /// The first error met, if any.
    pub closed spec fn spec_error(&self) -> Option<RenderPassError> { self.error }

    /// The attachments, in order of index.
    pub closed spec fn spec_attachments(&self) -> Seq<AttachmentDescription> { self.attachments@ }

    /// The subpasses, in order of index.
    pub closed spec fn spec_subpasses(&self) -> Seq<SubpassDescription> { self.subpasses@ }

    /// The dependencies, in order of definition.
    pub closed spec fn spec_dependencies(&self) -> Seq<SubpassDependency> { self.dependencies@ }

    /// A builder with nothing defined yet.
    pub fn new() -> (r: Self)
        ensures
            r.spec_error() is None,
            r.spec_attachments() == Seq::<AttachmentDescription>::empty(),
            r.spec_subpasses() == Seq::<SubpassDescription>::empty(),
            r.spec_dependencies() == Seq::<SubpassDependency>::empty(),
    {
        RenderPassBuilder { error: None, attachments: Vec::new(), subpasses: Vec::new(), dependencies: Vec::new() }
    }

    /// Adds an attachment; where `index` is given, it receives the index of
    /// the new attachment.
    pub fn attachment(self, index: Option<&mut u32>, attachment: AttachmentDescription) -> (r: Self)
        requires self.spec_attachments().len() < u32::MAX,
        ensures
            r.spec_error() == self.spec_error(),
            r.spec_subpasses() == self.spec_subpasses(),
            r.spec_dependencies() == self.spec_dependencies(),
            self.spec_error() is Some ==> r.spec_attachments() == self.spec_attachments(),
            self.spec_error() is None ==> r.spec_attachments() == self.spec_attachments().push(attachment),
            self.spec_error() is None && index is Some ==> *final(index->0) == self.spec_attachments().len(),
            self.spec_error() is Some && index is Some ==> *final(index->0) == *(index->0),
    {
        let mut this = self;
        if this.error.is_some() {
            return this;
        }
        if let Some(index) = index {
            *index = this.attachments.len() as u32;
        }
        this.attachments.push(attachment);
        this
    }

    /// Adds a subpass; where `index` is given, it receives the index of the
    /// new subpass.
    pub fn subpass(self, index: Option<&mut u32>, subpass: SubpassDescription) -> (r: Self)
        requires self.spec_subpasses().len() < u32::MAX,
        ensures
            r.spec_error() == self.spec_error(),
            r.spec_attachments() == self.spec_attachments(),
            r.spec_dependencies() == self.spec_dependencies(),
            self.spec_error() is Some ==> r.spec_subpasses() == self.spec_subpasses(),
            self.spec_error() is None ==> r.spec_subpasses() == self.spec_subpasses().push(subpass),
            self.spec_error() is None && index is Some ==> *final(index->0) == self.spec_subpasses().len(),
            self.spec_error() is Some && index is Some ==> *final(index->0) == *(index->0),
    {
        let mut this = self;
        if this.error.is_some() {
            return this;
        }
        if let Some(index) = index {
            *index = this.subpasses.len() as u32;
        }
        this.subpasses.push(subpass);
        this
    }

    /// Adds a dependency between subpasses.
    pub fn dependency(self, dependency: SubpassDependency) -> (r: Self)
        ensures
            r.spec_error() == self.spec_error(),
            r.spec_attachments() == self.spec_attachments(),
            r.spec_subpasses() == self.spec_subpasses(),
            self.spec_error() is Some ==> r.spec_dependencies() == self.spec_dependencies(),
            self.spec_error() is None ==> r.spec_dependencies() == self.spec_dependencies().push(dependency),
    {
        let mut this = self;
        if this.error.is_some() {
            return this;
        }
        this.dependencies.push(dependency);
        this
    }

    /// The recorded error, or else the attachments, subpasses and dependencies
    /// to create the render pass from.
    pub fn into_parts(self) -> (r: Result<(Vec<AttachmentDescription>, Vec<SubpassDescription>, Vec<SubpassDependency>), RenderPassError>)
        ensures
            match self.spec_error() {
                Some(e) => r == Err::<(Vec<AttachmentDescription>, Vec<SubpassDescription>, Vec<SubpassDependency>), RenderPassError>(e),
                None => r matches Ok((a, s, d)) && a@ == self.spec_attachments() && s@ == self.spec_subpasses()
                    && d@ == self.spec_dependencies(),
            },
    {
        match self.error {
            Some(err) => Err(err),
            None => Ok((self.attachments, self.subpasses, self.dependencies)),
        }
    }
}

} // verus!
